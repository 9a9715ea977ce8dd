//! The whole simulation: shared state, the fixed per-tick pipeline, and the
//! laws that hold across ticks.

use vstd::prelude::*;
use crate::collision::{
    collision_active, hits_any, player_platform_collision, spec_player_platform_collision,
};
use crate::platform::{
    catalog_wf, cleanup_platforms, live_platforms, platform_wf, scroll_platforms, scrolled,
    scrolled_seq, spawn_platform, spec_spawn_platform, Archetype, Platform,
};
use crate::player::{
    player_movement, player_movement_input, spec_player_movement, spec_player_movement_input,
    wants_spawn, InputSnapshot, Player,
};
use crate::rng::random_in_range;
use crate::score::{scoreboard_system, spec_scoreboard_system, Scoreboard, ScoreDisplay};
use crate::{SCORE_CADENCE_TICKS, SPAWN_CADENCE_TICKS, SPAWN_X_RANGE};

verus! {

/// Bound on how many collision sound clips the host may register.
pub const MAX_SOUNDS: usize = 1_000_000;

/// The shared simulation snapshot every system runs on, one instance per
/// run. No ambient globals: the host owns one of these and ticks it.
#[derive(Debug)]
pub struct GameState {
    pub player: Player,
    /// The live platforms, in spawn order.
    pub platforms: Vec<Platform>,
    /// The immutable archetype catalog, fixed before the run.
    pub catalog: Vec<Archetype>,
    /// How many collision sound clips the host's audio sink offers.
    pub n_collision_sounds: usize,
    pub board: Scoreboard,
    /// Ticks since the platform spawner last fired.
    pub spawn_timer: u64,
    /// Ticks since the score keeper last fired.
    pub score_timer: u64,
}

/// The random draws one tick consumes, injected so that the tick itself is
/// a deterministic function and tests can supply chosen sequences.
#[derive(Clone, Copy, Debug)]
pub struct TickDraws {
    /// Horizontal offset of a platform spawned this tick, drawn uniformly
    /// from `[-SPAWN_X_RANGE, SPAWN_X_RANGE]`.
    pub platform_x: i64,
    /// Archetype of a platform spawned this tick, drawn uniformly from the
    /// catalog.
    pub platform_kind: usize,
    /// Which collision clip to play if a bounce happens this tick.
    pub bounce_sound: usize,
}

/// What one tick asks the host's sinks to do.
#[derive(Clone, Copy, Debug)]
pub struct TickEvents {
    /// The player appeared this tick: the presentation sink should create
    /// its sprite.
    pub player_spawned: bool,
    /// A platform was spawned this tick (it is the last of `platforms`).
    pub platform_spawned: bool,
    /// A bounce happened: play this collision clip.
    pub bounce_sound: Option<usize>,
    /// The score cadence fired: show this on the score display.
    pub score_display: Option<ScoreDisplay>,
}

/// A cadence timer one tick later: counts up, wraps to zero when it fires.
pub open spec fn timer_next(t: u64, cadence: u64) -> u64 {
    if t + 1 >= cadence {
        0u64
    } else {
        (t + 1) as u64
    }
}

/// The timer reaches its cadence this tick.
pub open spec fn timer_fires(t: u64, cadence: u64) -> bool {
    t + 1 >= cadence
}

/// The draws a tick consumes must respect the ranges the spawner and the
/// audio sink were configured with.
pub open spec fn valid_draws(s: GameState, d: TickDraws) -> bool {
    -SPAWN_X_RANGE <= d.platform_x <= SPAWN_X_RANGE && d.platform_kind < s.catalog@.len()
        && d.bounce_sound < s.n_collision_sounds
}

/// Everything one simulation tick does, as a relation between the state
/// before, the state after, the sampled input, the injected random draws
/// and the emitted events. The pipeline order is fixed: input (spawn gate
/// and horizontal move), gravity, scroll and cleanup, collision, platform
/// spawn, score — with scroll, collision and spawn gated off once the
/// player is dead.
pub open spec fn tick_rel(
    pre: GameState,
    post: GameState,
    input: InputSnapshot,
    draws: TickDraws,
    ev: TickEvents,
) -> bool {
    let p1 = spec_player_movement_input(pre.player, input);
    let p2 = spec_player_movement(p1);
    let plats1 = if p2.dead {
        pre.platforms@
    } else {
        live_platforms(scrolled_seq(pre.platforms@))
    };
    let p3 = spec_player_platform_collision(p2, plats1);
    let bounced = collision_active(p2) && hits_any(p2, plats1);
    let spawn_fired = !p2.dead && timer_fires(pre.spawn_timer, SPAWN_CADENCE_TICKS);
    let plats2 = if spawn_fired {
        plats1.push(spec_spawn_platform(pre.catalog@, draws.platform_x, draws.platform_kind))
    } else {
        plats1
    };
    let score_fired = timer_fires(pre.score_timer, SCORE_CADENCE_TICKS);
    let sb = spec_scoreboard_system(pre.board, p3.has_spawned, p3.dead);
    post.player == p3 && post.platforms@ == plats2 && post.catalog@ == pre.catalog@
        && post.n_collision_sounds == pre.n_collision_sounds && post.board == (
    if score_fired {
        sb.0
    } else {
        pre.board
    }) && post.spawn_timer == (
    if p2.dead {
        pre.spawn_timer
    } else {
        timer_next(pre.spawn_timer, SPAWN_CADENCE_TICKS)
    }) && post.score_timer == timer_next(pre.score_timer, SCORE_CADENCE_TICKS)
        && ev.player_spawned == (!pre.player.has_spawned && p1.has_spawned)
        && ev.platform_spawned == spawn_fired && ev.bounce_sound == (
    if bounced {
        Some(draws.bounce_sound)
    } else {
        None::<usize>
    }) && ev.score_display == (
    if score_fired {
        sb.1
    } else {
        None::<ScoreDisplay>
    })
}

impl GameState {
    /// A state the simulation can run on: a well-formed catalog, at least
    /// one collision sound, timers below their cadences, and every live
    /// platform well formed.
    pub open spec fn wf(self) -> bool {
        catalog_wf(self.catalog@) && 1 <= self.n_collision_sounds <= MAX_SOUNDS
            && self.spawn_timer < SPAWN_CADENCE_TICKS && self.score_timer < SCORE_CADENCE_TICKS
            && forall|i: int|
            0 <= i < self.platforms@.len() ==> platform_wf(#[trigger] self.platforms@[i])
    }

    /// A fresh run: player in its unspawned configuration state, no
    /// platforms, score zero, both cadence timers at zero.
    pub fn new(catalog: Vec<Archetype>, n_collision_sounds: usize) -> (s: GameState)
        requires
            catalog_wf(catalog@),
            1 <= n_collision_sounds <= MAX_SOUNDS,
        ensures
            s.wf(),
            s.player == Player::initial(),
            s.platforms@.len() == 0,
            s.catalog@ == catalog@,
            s.n_collision_sounds == n_collision_sounds,
            s.board.score == 0,
            s.spawn_timer == 0,
            s.score_timer == 0,
    {
        GameState {
            player: Player::new(),
            platforms: Vec::new(),
            catalog: catalog,
            n_collision_sounds: n_collision_sounds,
            board: Scoreboard { score: 0 },
            spawn_timer: 0,
            score_timer: 0,
        }
    }

    /// One simulation tick, deterministic in the injected draws: runs the
    /// fixed pipeline of `tick_rel` and reports the events for the host's
    /// sinks. Keeps the state well formed, and never revives a dead player.
    pub fn tick(&mut self, input: InputSnapshot, draws: TickDraws) -> (ev: TickEvents)
        requires
            old(self).wf(),
            old(self).player.fits_tick(),
            old(self).board.score < u64::MAX,
            valid_draws(*old(self), draws),
        ensures
            tick_rel(*old(self), *final(self), input, draws, ev),
            final(self).wf(),
            final(self).player.fits(),
            old(self).player.dead ==> final(self).player.dead,
            old(self).player.has_spawned ==> final(self).player.has_spawned,
    {
        let ghost pre = *self;
        let was_spawned = self.player.has_spawned;
        player_movement_input(&mut self.player, input);
        let ev_player_spawned = !was_spawned && self.player.has_spawned;
        player_movement(&mut self.player);
        let ghost p2 = self.player;
        let dead_now = self.player.dead;

        let mut bounced = false;
        if !dead_now {
            scroll_platforms(&mut self.platforms);
            let ghost sc = self.platforms@;
            cleanup_platforms(&mut self.platforms);
            proof {
                broadcast use vstd::seq_lib::group_filter_ensures;

                assert forall|i: int|
                    0 <= i < self.platforms@.len() implies platform_wf(
                    #[trigger] self.platforms@[i],
                ) by {
                    let q = self.platforms@[i];
                    assert(sc.contains(q));
                    let j = choose|j: int| 0 <= j < sc.len() && sc[j] == q;
                    assert(q == scrolled(pre.platforms@[j]));
                    assert(q.y >= crate::CLEANUP_Y);
                }
            }
            bounced = player_platform_collision(&mut self.player, &self.platforms);
        }

        let mut platform_spawned = false;
        if !dead_now {
            let t = self.spawn_timer + 1;
            if t >= SPAWN_CADENCE_TICKS {
                self.spawn_timer = 0;
                let q = spawn_platform(&self.catalog, draws.platform_x, draws.platform_kind);
                self.platforms.push(q);
                platform_spawned = true;
            } else {
                self.spawn_timer = t;
            }
        }

        let t2 = self.score_timer + 1;
        let mut score_display: Option<ScoreDisplay> = None;
        if t2 >= SCORE_CADENCE_TICKS {
            self.score_timer = 0;
            score_display = scoreboard_system(
                &mut self.board,
                self.player.has_spawned,
                self.player.dead,
            );
        } else {
            self.score_timer = t2;
        }

        let ev = TickEvents {
            player_spawned: ev_player_spawned,
            platform_spawned: platform_spawned,
            bounce_sound: if bounced {
                Some(draws.bounce_sound)
            } else {
                None
            },
            score_display: score_display,
        };
        proof {
            if !p2.dead {
                assert(self.platforms@ =~= (if !p2.dead && timer_fires(
                    pre.spawn_timer,
                    SPAWN_CADENCE_TICKS,
                ) {
                    live_platforms(scrolled_seq(pre.platforms@)).push(
                        spec_spawn_platform(pre.catalog@, draws.platform_x, draws.platform_kind),
                    )
                } else {
                    live_platforms(scrolled_seq(pre.platforms@))
                }));
            }
        }
        ev
    }

    /// One simulation tick with the draws taken from the process random
    /// number generator: the production form of `tick`.
    pub fn tick_with_rng(&mut self, input: InputSnapshot) -> (ev: TickEvents)
        requires
            old(self).wf(),
            old(self).player.fits_tick(),
            old(self).board.score < u64::MAX,
        ensures
            exists|draws: TickDraws|
                valid_draws(*old(self), draws) && tick_rel(
                    *old(self),
                    *final(self),
                    input,
                    draws,
                    ev,
                ),
            final(self).wf(),
            final(self).player.fits(),
            old(self).player.dead ==> final(self).player.dead,
            old(self).player.has_spawned ==> final(self).player.has_spawned,
    {
        let platform_x = random_in_range(-SPAWN_X_RANGE, SPAWN_X_RANGE);
        let kind = random_in_range(0, (self.catalog.len() - 1) as i64) as usize;
        let sound = random_in_range(0, (self.n_collision_sounds - 1) as i64) as usize;
        let draws = TickDraws { platform_x: platform_x, platform_kind: kind, bounce_sound: sound };
        let ev = self.tick(input, draws);
        proof {
            assert(valid_draws(*old(self), draws) && tick_rel(
                *old(self),
                *self,
                input,
                draws,
                ev,
            ));
        }
        ev
    }
}

/// Death is terminal: a tick from a dead state leaves the player dead, so
/// by induction `dead` never goes back to false within a run.
pub proof fn lemma_death_monotone(
    pre: GameState,
    post: GameState,
    input: InputSnapshot,
    draws: TickDraws,
    ev: TickEvents,
)
    requires
        tick_rel(pre, post, input, draws, ev),
        pre.player.dead,
    ensures
        post.player.dead,
{
}

/// Score monotonicity: the score never decreases; it is frozen on every
/// tick after death, untouched on ticks where the score cadence does not
/// fire, and grows by exactly one on a score-cadence tick that ends with
/// the player spawned and alive.
pub proof fn lemma_score_monotone(
    pre: GameState,
    post: GameState,
    input: InputSnapshot,
    draws: TickDraws,
    ev: TickEvents,
)
    requires
        tick_rel(pre, post, input, draws, ev),
        pre.board.score < u64::MAX,
    ensures
        post.board.score >= pre.board.score,
        pre.player.dead ==> post.board == pre.board,
        !timer_fires(pre.score_timer, SCORE_CADENCE_TICKS) ==> post.board == pre.board,
        timer_fires(pre.score_timer, SCORE_CADENCE_TICKS) && post.player.has_spawned
            && !post.player.dead ==> post.board.score == pre.board.score + 1,
{
}

/// A run: a chain of states where each next state comes from its
/// predecessor by one tick on the matching input, draws and events.
pub open spec fn run_rel(
    states: Seq<GameState>,
    inputs: Seq<InputSnapshot>,
    draws: Seq<TickDraws>,
    evs: Seq<TickEvents>,
) -> bool {
    states.len() == inputs.len() + 1 && draws.len() == inputs.len() && evs.len() == inputs.len()
        && forall|i: int|
        0 <= i < inputs.len() ==> tick_rel(#[trigger] states[i], states[i + 1], inputs[i], draws[i], evs[i])
}

/// Death monotonicity over a whole run: once `dead` is true in some state
/// of a run, it stays true in every later state of that run.
pub proof fn lemma_death_monotone_run(
    states: Seq<GameState>,
    inputs: Seq<InputSnapshot>,
    draws: Seq<TickDraws>,
    evs: Seq<TickEvents>,
    i: int,
    j: int,
)
    requires
        run_rel(states, inputs, draws, evs),
        0 <= i <= j < states.len(),
        states[i].player.dead,
    ensures
        states[j].player.dead,
    decreases j - i,
{
    if i < j {
        lemma_death_monotone_run(states, inputs, draws, evs, i, j - 1);
        lemma_death_monotone(states[j - 1], states[j], inputs[j - 1], draws[j - 1], evs[j - 1]);
    }
}

/// Score freeze over a whole run: from the moment the player is dead, the
/// scoreboard never changes again for the rest of that run.
pub proof fn lemma_score_frozen_after_death_run(
    states: Seq<GameState>,
    inputs: Seq<InputSnapshot>,
    draws: Seq<TickDraws>,
    evs: Seq<TickEvents>,
    i: int,
    j: int,
)
    requires
        run_rel(states, inputs, draws, evs),
        0 <= i <= j < states.len(),
        states[i].player.dead,
    ensures
        states[j].board == states[i].board,
    decreases j - i,
{
    if i < j {
        lemma_score_frozen_after_death_run(states, inputs, draws, evs, i, j - 1);
        lemma_death_monotone_run(states, inputs, draws, evs, i, j - 1);
        assert(tick_rel(states[j - 1], states[j], inputs[j - 1], draws[j - 1], evs[j - 1]));
    }
}

/// Spawn range: every live platform of a well-formed state has its
/// horizontal offset within the configured symmetric bound — and `tick`
/// keeps states well formed, so this holds over a whole run.
pub proof fn lemma_spawn_range(s: GameState, i: int)
    requires
        s.wf(),
        0 <= i < s.platforms@.len(),
    ensures
        -SPAWN_X_RANGE <= s.platforms@[i].x <= SPAWN_X_RANGE,
{
}

/// No input ever received: the player stays unspawned, with no physics, no
/// death and no score increments, however many ticks pass.
pub proof fn lemma_unspawned_idle(
    pre: GameState,
    post: GameState,
    input: InputSnapshot,
    draws: TickDraws,
    ev: TickEvents,
)
    requires
        tick_rel(pre, post, input, draws, ev),
        !pre.player.has_spawned,
        !wants_spawn(input),
    ensures
        post.player == pre.player,
        post.board == pre.board,
        !ev.player_spawned,
        ev.bounce_sound is None,
        ev.score_display is None,
{
}

} // verus!
