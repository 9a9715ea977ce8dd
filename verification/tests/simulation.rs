use rabduction::collision::player_platform_collision;
use rabduction::geometry::is_colliding;
use rabduction::platform::{
    cleanup_platforms, default_catalog, scroll_platforms, spawn_platform, spawn_platform_random,
    Archetype, Platform,
};
use rabduction::player::{player_movement, player_movement_input, InputSnapshot, Player};
use rabduction::score::{scoreboard_system, ScoreDisplay, Scoreboard};
use rabduction::sim::{GameState, TickDraws};

fn no_input() -> InputSnapshot {
    InputSnapshot { any_press: false, horizontal: None }
}

fn fixed_draws() -> TickDraws {
    TickDraws { platform_x: 0, platform_kind: 0, bounce_sound: 0 }
}

fn spawned_player(x: i64, y: i64, velocity: i64, width: i64, height: i64) -> Player {
    let mut p = Player::new();
    p.has_spawned = true;
    p.x = x;
    p.y = y;
    p.velocity = velocity;
    p.width = width;
    p.height = height;
    p
}

#[test]
fn gravity_is_exact_and_position_uses_new_velocity() {
    // velocity' = velocity - GRAVITY and y' = y + velocity', exactly,
    // independent of where the player is.
    let mut p = spawned_player(123, -690, 4, 40, 40);
    player_movement(&mut p);
    assert_eq!(p.velocity, 3);
    assert_eq!(p.y, -687);
    assert!(!p.dead);

    let mut q = spawned_player(-7777, 4000, 4, 40, 40);
    player_movement(&mut q);
    assert_eq!(q.velocity, 3);
    assert_eq!(q.y, 4003);
}

#[test]
fn collision_guard_never_touches_ascending_player() {
    // An overlapping platform must not bounce a player whose velocity
    // is >= 0.
    let platform = Platform { x: 0, y: -10, width: 120, height: 40, kind: 0 };
    let platforms = vec![platform];
    for v in [0i64, 4, 24] {
        let mut p = spawned_player(0, 0, v, 40, 80);
        let before = p;
        let bounced = player_platform_collision(&mut p, &platforms);
        assert!(!bounced);
        assert_eq!(p, before);
    }
}

#[test]
fn bounce_sets_exactly_bounce_velocity_whatever_overlaps() {
    // Several platforms overlap at once: one bounce, velocity exactly 24
    // half units (12.0), nothing else changed.
    let platforms = vec![
        Platform { x: 0, y: -20, width: 120, height: 40, kind: 0 },
        Platform { x: 10, y: -30, width: 180, height: 40, kind: 1 },
        Platform { x: -10, y: -10, width: 120, height: 40, kind: 0 },
    ];
    let mut p = spawned_player(0, 0, -10, 40, 80);
    let bounced = player_platform_collision(&mut p, &platforms);
    assert!(bounced);
    assert_eq!(p.velocity, 24);
    assert_eq!(p.x, 0);
    assert_eq!(p.y, 0);
    assert!(!p.dead);
}

#[test]
fn death_is_terminal_across_ticks() {
    let catalog = default_catalog();
    let mut s = GameState::new(catalog, 4);
    s.player.has_spawned = true;
    s.player.y = -810;
    s.player.velocity = -2;
    s.player.dead = true;
    for _ in 0..300 {
        s.tick(no_input(), fixed_draws());
        assert!(s.player.dead);
    }
}

#[test]
fn score_counts_cadence_ticks_alive_and_freezes_dead() {
    let catalog = default_catalog();
    let mut s = GameState::new(catalog, 4);
    // Keep the player safely alive high above the death line.
    s.player.has_spawned = true;
    s.player.y = 100_000;
    s.player.velocity = 0;
    let mut last_score = 0u64;
    for tick_no in 1..=60u64 {
        let ev = s.tick(no_input(), fixed_draws());
        if tick_no % 6 == 0 {
            last_score += 1;
            assert_eq!(s.board.score, last_score);
            assert_eq!(ev.score_display, Some(ScoreDisplay::Running(last_score)));
        } else {
            assert_eq!(s.board.score, last_score);
            assert_eq!(ev.score_display, None);
        }
    }
    assert_eq!(s.board.score, 10);
    // Now dead: the score never moves again and the display shows the
    // frozen value.
    s.player.dead = true;
    for tick_no in 1..=24u64 {
        let ev = s.tick(no_input(), fixed_draws());
        assert_eq!(s.board.score, 10);
        if tick_no % 6 == 0 {
            assert_eq!(ev.score_display, Some(ScoreDisplay::Frozen(10)));
        } else {
            assert_eq!(ev.score_display, None);
        }
    }
}

#[test]
fn scoreboard_system_cases() {
    let mut b = Scoreboard { score: 5 };
    assert_eq!(scoreboard_system(&mut b, false, false), None);
    assert_eq!(b.score, 5);
    assert_eq!(
        scoreboard_system(&mut b, true, false),
        Some(ScoreDisplay::Running(6))
    );
    assert_eq!(b.score, 6);
    assert_eq!(
        scoreboard_system(&mut b, true, true),
        Some(ScoreDisplay::Frozen(6))
    );
    assert_eq!(b.score, 6);
}

#[test]
fn spawned_platforms_stay_in_the_symmetric_range() {
    // Also exercises the random wrapper: every draw must land inside the
    // configured bound, on the spawn line, with a catalog archetype.
    let catalog = default_catalog();
    for _ in 0..500 {
        let q = spawn_platform_random(&catalog);
        assert!(-300 <= q.x && q.x <= 300);
        assert_eq!(q.y, 500);
        assert!(q.kind < 2);
        let a = catalog[q.kind];
        assert_eq!(q.width, a.width);
        assert_eq!(q.height, a.height);
    }
}

#[test]
fn scenario_ascending_player_gets_gravity_but_no_bounce() {
    // Player at (0, -345) with velocity 2.0, platform at (0, -355) of size
    // (60, 20), player size (20, 20), gravity 0.5: after one tick the
    // velocity is 1.5 and y is -343.5 (in half units: 3 and -687), and no
    // bounce happens because the player is not descending.
    let catalog = default_catalog();
    let mut s = GameState::new(catalog, 4);
    s.player = spawned_player(0, -690, 4, 40, 40);
    s.platforms.push(Platform { x: 0, y: -710, width: 120, height: 40, kind: 0 });
    let ev = s.tick(no_input(), fixed_draws());
    assert_eq!(s.player.velocity, 3);
    assert_eq!(s.player.y, -687);
    assert_eq!(ev.bounce_sound, None);
    assert!(!s.player.dead);
}

#[test]
fn scenario_descending_player_bounces_this_tick() {
    // Player at (0, -340) with velocity -5.0, platform at (0, -350) of
    // size (60, 20): the overlap test fires and the velocity becomes the
    // bounce value 12.0 (24 half units) this very tick, not decremented
    // further by gravity.
    let catalog = default_catalog();
    let mut s = GameState::new(catalog, 4);
    s.player = spawned_player(0, -680, -10, 40, 40);
    s.platforms.push(Platform { x: 0, y: -700, width: 120, height: 40, kind: 0 });
    let ev = s.tick(no_input(), fixed_draws());
    assert_eq!(s.player.velocity, 24);
    assert_eq!(s.player.y, -691);
    assert_eq!(ev.bounce_sound, Some(0));
    assert!(!s.player.dead);
}

#[test]
fn scenario_falling_past_death_line_kills_and_freezes_score() {
    let catalog = default_catalog();
    let mut s = GameState::new(catalog, 4);
    s.player = spawned_player(0, -798, -4, 50, 80);
    s.board.score = 17;
    // One tick: y becomes -798 - 5 = -803 < -800, so the player dies.
    s.tick(no_input(), fixed_draws());
    assert!(s.player.dead);
    assert_eq!(s.board.score, 17);
    // Every later score-cadence tick shows the frozen final value.
    let mut saw_frozen = false;
    for _ in 0..12 {
        let ev = s.tick(no_input(), fixed_draws());
        assert_eq!(s.board.score, 17);
        if let Some(d) = ev.score_display {
            assert_eq!(d, ScoreDisplay::Frozen(17));
            saw_frozen = true;
        }
    }
    assert!(saw_frozen);
}

#[test]
fn scenario_no_input_means_no_run() {
    // No input ever received: the player stays unspawned, with no physics,
    // no death and no score, however long the host keeps ticking.
    let catalog = default_catalog();
    let mut s = GameState::new(catalog, 4);
    let initial = s.player;
    for _ in 0..400 {
        let ev = s.tick(no_input(), fixed_draws());
        assert_eq!(s.player, initial);
        assert!(!s.player.has_spawned);
        assert!(!s.player.dead);
        assert_eq!(s.board.score, 0);
        assert!(!ev.player_spawned);
        assert_eq!(ev.bounce_sound, None);
        assert_eq!(ev.score_display, None);
    }
    // Platforms keep spawning on their cadence even before the player
    // appears: 400 ticks at one spawn per 90 ticks.
    assert_eq!(s.platforms.len(), 4);
}

#[test]
fn first_nonzero_input_spawns_the_player() {
    let catalog = default_catalog();
    let mut s = GameState::new(catalog, 4);
    // A zero axis value alone is not an input event.
    let ev = s.tick(
        InputSnapshot { any_press: false, horizontal: Some(0) },
        fixed_draws(),
    );
    assert!(!ev.player_spawned);
    assert!(!s.player.has_spawned);
    // Any pressed button is.
    let ev = s.tick(
        InputSnapshot { any_press: true, horizontal: None },
        fixed_draws(),
    );
    assert!(ev.player_spawned);
    assert!(s.player.has_spawned);
    // The player appears at the start position; gravity already applied
    // this tick: velocity 25.0 - 0.5 = 24.5 (49), y = -350 + 24.5.
    assert_eq!(s.player.x, 0);
    assert_eq!(s.player.velocity, 49);
    assert_eq!(s.player.y, -700 + 49);
}

#[test]
fn horizontal_input_is_clamped_and_flips_facing() {
    let mut p = spawned_player(0, 0, 10, 50, 80);
    // Far beyond the bound: clamped to 3.0 units (6 half units).
    player_movement_input(&mut p, InputSnapshot { any_press: false, horizontal: Some(100) });
    assert_eq!(p.x, 6);
    assert!(!p.facing_left);
    player_movement_input(&mut p, InputSnapshot { any_press: false, horizontal: Some(-100) });
    assert_eq!(p.x, 0);
    assert!(p.facing_left);
    // Zero input moves nothing and keeps the facing.
    player_movement_input(&mut p, InputSnapshot { any_press: false, horizontal: Some(0) });
    assert_eq!(p.x, 0);
    assert!(p.facing_left);
    // Within the bound: exactly the input-derived delta, no decay.
    player_movement_input(&mut p, InputSnapshot { any_press: false, horizontal: Some(5) });
    assert_eq!(p.x, 5);
    assert!(!p.facing_left);
}

#[test]
fn overlap_is_strict_on_both_axes() {
    // Boxes touching edge to edge do not overlap; one half unit closer
    // they do.
    assert!(!is_colliding(0, 0, 40, 40, 80, 0, 120, 40));
    assert!(is_colliding(0, 0, 40, 40, 79, 0, 120, 40));
    assert!(!is_colliding(0, 0, 40, 40, 0, 40, 120, 40));
    assert!(is_colliding(0, 0, 40, 40, 0, 39, 120, 40));
    // Overlap on one axis alone is not a collision.
    assert!(!is_colliding(0, 0, 40, 40, 200, 10, 120, 40));
}

#[test]
fn platforms_scroll_down_uniformly_and_cleanup_removes_sunken_ones() {
    let mut platforms = vec![
        Platform { x: -100, y: 500, width: 120, height: 40, kind: 0 },
        Platform { x: 50, y: -899, width: 180, height: 40, kind: 1 },
        Platform { x: 0, y: 0, width: 120, height: 40, kind: 0 },
    ];
    scroll_platforms(&mut platforms);
    assert_eq!(platforms[0].y, 498);
    assert_eq!(platforms[1].y, -901);
    assert_eq!(platforms[2].y, -2);
    assert_eq!(platforms[0].x, -100);
    cleanup_platforms(&mut platforms);
    // The sunken platform is gone; the survivors keep their order.
    assert_eq!(platforms.len(), 2);
    assert_eq!(platforms[0].y, 498);
    assert_eq!(platforms[1].y, -2);
}

#[test]
fn spawner_cadence_and_platform_shape() {
    let catalog = default_catalog();
    let mut s = GameState::new(catalog, 4);
    let draws = TickDraws { platform_x: -120, platform_kind: 1, bounce_sound: 0 };
    for tick_no in 1..=180u64 {
        let ev = s.tick(no_input(), draws);
        assert_eq!(ev.platform_spawned, tick_no % 90 == 0);
    }
    assert_eq!(s.platforms.len(), 2);
    // The older platform has scrolled for the 90 ticks since it appeared
    // on the spawn line; the one spawned on the last tick has not moved.
    let q = s.platforms[0];
    assert_eq!(q.x, -120);
    assert_eq!(q.y, 500 - 90 * 2);
    assert_eq!(q.kind, 1);
    assert_eq!(q.width, 180);
    assert_eq!(q.height, 40);
    assert_eq!(s.platforms[1].y, 500);
}

#[test]
fn no_platforms_means_no_bounce() {
    let platforms: Vec<Platform> = vec![];
    let mut p = spawned_player(0, 0, -10, 40, 80);
    let before = p;
    assert!(!player_platform_collision(&mut p, &platforms));
    assert_eq!(p, before);
}

#[test]
fn random_ticks_spawn_platforms_inside_the_range() {
    let catalog = default_catalog();
    let mut s = GameState::new(catalog, 4);
    for _ in 0..270 {
        s.tick_with_rng(no_input());
    }
    assert_eq!(s.platforms.len(), 3);
    for q in &s.platforms {
        assert!(-300 <= q.x && q.x <= 300);
        assert!(q.kind < 2);
    }
}

#[test]
fn deterministic_spawn_uses_the_chosen_archetype() {
    let mut catalog = default_catalog();
    catalog.push(Archetype { width: 300, height: 40 });
    let q = spawn_platform(&catalog, 250, 2);
    assert_eq!(
        q,
        Platform { x: 250, y: 500, width: 300, height: 40, kind: 2 }
    );
}

#[test]
fn fresh_state_matches_the_configured_start() {
    let catalog = default_catalog();
    assert_eq!(catalog.len(), 2);
    assert_eq!(catalog[0], Archetype { width: 120, height: 40 });
    assert_eq!(catalog[1], Archetype { width: 180, height: 40 });
    let s = GameState::new(catalog, 4);
    assert!(!s.player.has_spawned);
    assert!(!s.player.dead);
    assert_eq!(s.player.width, 50);
    assert_eq!(s.player.height, 80);
    assert_eq!(s.player.velocity, 50);
    assert_eq!(s.board.score, 0);
    assert_eq!(s.platforms.len(), 0);
}
