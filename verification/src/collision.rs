//! The collision resolver: a falling player that overlaps a platform
//! bounces, exactly once per tick.

use vstd::prelude::*;
use crate::geometry::{boxes_overlap, is_colliding};
use crate::platform::{platform_fits, Platform};
use crate::player::Player;
use crate::BOUNCE_VELOCITY;

verus! {

/// The player's hitbox overlaps the platform's hitbox.
pub open spec fn hits(p: Player, q: Platform) -> bool {
    boxes_overlap(
        p.x as int, p.y as int, p.width as int, p.height as int,
        q.x as int, q.y as int, q.width as int, q.height as int,
    )
}

/// The player overlaps at least one of the platforms.
pub open spec fn hits_any(p: Player, qs: Seq<Platform>) -> bool {
    exists|i: int| 0 <= i < qs.len() && hits(p, #[trigger] qs[i])
}

/// The collision guard: only a spawned, living, *descending* player can
/// bounce. An ascending or momentarily stationary player never does, which
/// prevents re-triggering in the middle of a bounce.
pub open spec fn collision_active(p: Player) -> bool {
    p.alive() && p.velocity < 0
}

/// The resolver as one transition: when the guard holds and some platform
/// overlaps the player, the vertical velocity is reset to the bounce value
/// — to exactly that value, however many platforms overlap at once — and
/// nothing else changes; otherwise the player is untouched.
pub open spec fn spec_player_platform_collision(p: Player, qs: Seq<Platform>) -> Player {
    if collision_active(p) && hits_any(p, qs) {
        Player { velocity: BOUNCE_VELOCITY, ..p }
    } else {
        p
    }
}

/// Collision system. Tests the descending player against every live
/// platform and, on the first overlap found, sets the vertical velocity to
/// `BOUNCE_VELOCITY` and stops: processing further matches after the
/// velocity has turned positive would defeat the guard, so short-circuiting
/// is part of the meaning, not an optimization. Returns whether a bounce
/// happened, so the host can play a collision sound.
pub fn player_platform_collision(player: &mut Player, platforms: &Vec<Platform>) -> (bounced:
    bool)
    requires
        old(player).fits(),
        forall|i: int| 0 <= i < platforms@.len() ==> platform_fits(#[trigger] platforms@[i]),
    ensures
        *final(player) == spec_player_platform_collision(*old(player), platforms@),
        bounced == (collision_active(*old(player)) && hits_any(*old(player), platforms@)),
        bounced ==> final(player).velocity == BOUNCE_VELOCITY,
        !bounced ==> *final(player) == *old(player),
        old(player).velocity >= 0 ==> *final(player) == *old(player),
        final(player).x == old(player).x && final(player).y == old(player).y,
        final(player).dead == old(player).dead && final(player).has_spawned == old(
            player,
        ).has_spawned,
{
    if player.velocity < 0 && player.has_spawned && !player.dead {
        let n = platforms.len();
        let mut i: usize = 0;
        while i < n
            invariant
                i <= n,
                n == platforms@.len(),
                *player == *old(player),
                old(player).fits(),
                collision_active(*player),
                forall|j: int| 0 <= j < platforms@.len() ==> platform_fits(
                    #[trigger] platforms@[j],
                ),
                forall|j: int| 0 <= j < i ==> !hits(*player, #[trigger] platforms@[j]),
            decreases n - i,
        {
            let q = platforms[i];
            if is_colliding(
                player.x,
                player.y,
                player.width,
                player.height,
                q.x,
                q.y,
                q.width,
                q.height,
            ) {
                player.velocity = BOUNCE_VELOCITY;
                return true;
            }
            i = i + 1;
        }
        false
    } else {
        false
    }
}

} // verus!
