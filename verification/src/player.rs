//! The player: spawn gate, horizontal input, gravity and the death line.

use vstd::prelude::*;
use crate::{
    DEATH_LINE, GRAVITY, MAX_INPUT_SPEED, PLAYER_HEIGHT, PLAYER_START_VELOCITY,
    PLAYER_START_X, PLAYER_START_Y, PLAYER_WIDTH,
};

verus! {

/// The player singleton. Until `has_spawned` is set by the first input, the
/// position fields are meaningless configuration and no physics applies.
/// All coordinates are in half units (see the crate root).
#[derive(Clone, Copy, PartialEq, Eq, Structural, Debug)]
pub struct Player {
    /// Horizontal center of the hitbox.
    pub x: i64,
    /// Vertical center of the hitbox; up is positive.
    pub y: i64,
    /// Width of the hitbox.
    pub width: i64,
    /// Height of the hitbox.
    pub height: i64,
    /// Vertical velocity per tick; up is positive.
    pub velocity: i64,
    /// The sprite faces left; flipped by the sign of the last nonzero
    /// horizontal input. Purely visual, never part of the hitbox.
    pub facing_left: bool,
    /// Set by the first input event; the player is visible and collidable
    /// only from then on.
    pub has_spawned: bool,
    /// Terminal: set when the player falls past the death line, never unset
    /// within a run.
    pub dead: bool,
}

/// What the host sampled from the input devices this tick.
#[derive(Clone, Copy, Debug)]
pub struct InputSnapshot {
    /// Some digital key or button is pressed this tick.
    pub any_press: bool,
    /// Desired horizontal displacement for this tick in half units, before
    /// clamping; `None` when no horizontal input is active. A digital
    /// "move left"/"move right" key maps to minus/plus `MAX_INPUT_SPEED`.
    pub horizontal: Option<i64>,
}

/// The first nonzero input event, digital or analog, spawns the player.
pub open spec fn wants_spawn(i: InputSnapshot) -> bool {
    i.any_press || match i.horizontal {
        Some(h) => h != 0,
        None => false,
    }
}

/// Horizontal input clamped to `[-MAX_INPUT_SPEED, MAX_INPUT_SPEED]`.
pub open spec fn clamp_speed(h: int) -> int {
    if h < -MAX_INPUT_SPEED {
        -MAX_INPUT_SPEED as int
    } else if h > MAX_INPUT_SPEED {
        MAX_INPUT_SPEED as int
    } else {
        h
    }
}

impl Player {
    /// The configuration state a run starts in: not yet spawned, not dead,
    /// carrying the start position and velocity it will appear with.
    pub open spec fn initial() -> Player {
        Player {
            x: PLAYER_START_X,
            y: PLAYER_START_Y,
            width: PLAYER_WIDTH,
            height: PLAYER_HEIGHT,
            velocity: PLAYER_START_VELOCITY,
            facing_left: false,
            has_spawned: false,
            dead: false,
        }
    }

    /// Spawned and not yet dead: the only state in which gameplay
    /// (collision, scoring) applies.
    pub open spec fn alive(self) -> bool {
        self.has_spawned && !self.dead
    }

    /// All coordinates are small enough that one more addition or overlap
    /// test on them cannot overflow.
    pub open spec fn fits(self) -> bool {
        crate::fits(self.x as int) && crate::fits(self.y as int)
            && crate::fits(self.velocity as int) && crate::fits(self.width as int)
            && crate::fits(self.height as int)
    }

    /// All coordinates small enough that a whole tick starting here keeps
    /// every intermediate value within `fits`.
    pub open spec fn fits_tick(self) -> bool {
        crate::fits_tick(self.x as int) && crate::fits_tick(self.y as int)
            && crate::fits_tick(self.velocity as int) && crate::fits_tick(self.width as int)
            && crate::fits_tick(self.height as int)
    }

    pub fn new() -> (p: Player)
        ensures
            p == Player::initial(),
    {
        Player {
            x: PLAYER_START_X,
            y: PLAYER_START_Y,
            width: PLAYER_WIDTH,
            height: PLAYER_HEIGHT,
            velocity: PLAYER_START_VELOCITY,
            facing_left: false,
            has_spawned: false,
            dead: false,
        }
    }
}

/// The input system as one transition: spawn on the first nonzero input,
/// then move horizontally by the clamped input and flip the facing by its
/// sign. The cast on `x` never truncates when the old position fits.
pub open spec fn spec_player_movement_input(p: Player, i: InputSnapshot) -> Player {
    let base = if p.has_spawned {
        p
    } else if wants_spawn(i) {
        Player { x: PLAYER_START_X, y: PLAYER_START_Y, has_spawned: true, ..p }
    } else {
        p
    };
    if base.has_spawned {
        match i.horizontal {
            Some(h) => {
                let m = clamp_speed(h as int);
                Player {
                    x: (base.x + m) as i64,
                    facing_left: if m < 0 {
                        true
                    } else if m > 0 {
                        false
                    } else {
                        base.facing_left
                    },
                    ..base
                }
            },
            None => base,
        }
    } else {
        base
    }
}

/// Gravity integration as one transition: while spawned, the velocity drops
/// by `GRAVITY`, the new velocity moves the position the same tick, and
/// crossing the death line sets `dead` for good.
pub open spec fn spec_player_movement(p: Player) -> Player {
    if p.has_spawned {
        let v = (p.velocity - GRAVITY) as i64;
        let y = (p.y + v) as i64;
        Player { velocity: v, y: y, dead: p.dead || y < DEATH_LINE, ..p }
    } else {
        p
    }
}

/// Input system. Spawns the player on the first nonzero input event, then
/// applies the clamped horizontal input: the position moves exactly by the
/// input-derived delta, unbounded horizontally, with no decay or friction.
pub fn player_movement_input(player: &mut Player, input: InputSnapshot)
    requires
        old(player).fits(),
    ensures
        *final(player) == spec_player_movement_input(*old(player), input),
        final(player).has_spawned == (old(player).has_spawned || wants_spawn(input)),
        final(player).dead == old(player).dead,
        final(player).velocity == old(player).velocity,
        !final(player).has_spawned ==> *final(player) == *old(player),
{
    let mut wants: bool = input.any_press;
    if let Some(h) = input.horizontal {
        if h != 0 {
            wants = true;
        }
    }
    if !player.has_spawned && wants {
        player.x = PLAYER_START_X;
        player.y = PLAYER_START_Y;
        player.has_spawned = true;
    }
    if player.has_spawned {
        if let Some(h) = input.horizontal {
            let m: i64 = if h < -MAX_INPUT_SPEED {
                -MAX_INPUT_SPEED
            } else if h > MAX_INPUT_SPEED {
                MAX_INPUT_SPEED
            } else {
                h
            };
            player.x = player.x + m;
            if m < 0 {
                player.facing_left = true;
            } else if m > 0 {
                player.facing_left = false;
            }
        }
    }
}

/// Physics system. While spawned, applies gravity unconditionally every
/// tick — the new velocity moves the position the same tick — and flags
/// death below the death line. Death is terminal: nothing ever clears it.
pub fn player_movement(player: &mut Player)
    requires
        old(player).fits(),
    ensures
        *final(player) == spec_player_movement(*old(player)),
        old(player).has_spawned ==> final(player).velocity == old(player).velocity - GRAVITY,
        old(player).has_spawned ==> final(player).y == old(player).y + final(player).velocity,
        !old(player).has_spawned ==> *final(player) == *old(player),
        final(player).dead == (old(player).dead
            || (old(player).has_spawned && final(player).y < DEATH_LINE)),
{
    if player.has_spawned {
        player.velocity = player.velocity - GRAVITY;
        player.y = player.y + player.velocity;
        if player.y < DEATH_LINE {
            player.dead = true;
        }
    }
}

} // verus!
