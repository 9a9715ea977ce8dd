//! Platforms: the archetype catalog, the random spawner, the per-tick
//! scroll, and the cleanup of platforms far below the field.

use vstd::prelude::*;
use crate::rng::random_in_range;
use crate::{CLEANUP_Y, PLATFORM_SPAWN_Y, SCROLL_STEP, SPAWN_X_RANGE};

verus! {

/// Width of the narrow platform archetype (half units): 60 units.
pub const PLATFORM_NARROW_WIDTH: i64 = 120;

/// Width of the wide platform archetype (half units): 90 units.
pub const PLATFORM_WIDE_WIDTH: i64 = 180;

/// Height of both platform archetypes (half units): 20 units.
pub const PLATFORM_HEIGHT: i64 = 40;

/// Bound on the size of a catalog archetype (half units).
pub const MAX_ARCHETYPE_SIZE: i64 = 10_000;

/// Bound on how many archetypes a catalog may hold.
pub const MAX_CATALOG_LEN: usize = 1_000_000;

/// A platform variant: a fixed size, standing for a visual asset the host
/// owns. The catalog of archetypes is fixed before the run starts.
#[derive(Clone, Copy, PartialEq, Eq, Structural, Debug)]
pub struct Archetype {
    pub width: i64,
    pub height: i64,
}

/// One live platform. Its horizontal position, size and archetype are fixed
/// at spawn; only the vertical scroll ever moves it.
/// All coordinates are in half units (see the crate root).
#[derive(Clone, Copy, PartialEq, Eq, Structural, Debug)]
pub struct Platform {
    /// Horizontal center; fixed once spawned.
    pub x: i64,
    /// Vertical center; decreases by `SCROLL_STEP` each tick.
    pub y: i64,
    pub width: i64,
    pub height: i64,
    /// Index of the archetype this platform was spawned from.
    pub kind: usize,
}

/// An archetype a well-formed catalog may hold.
pub open spec fn archetype_wf(a: Archetype) -> bool {
    0 < a.width <= MAX_ARCHETYPE_SIZE && 0 < a.height <= MAX_ARCHETYPE_SIZE
}

/// A catalog the simulation can run on: nonempty, bounded, every
/// archetype well formed.
pub open spec fn catalog_wf(c: Seq<Archetype>) -> bool {
    1 <= c.len() <= MAX_CATALOG_LEN && forall|i: int|
        0 <= i < c.len() ==> archetype_wf(#[trigger] c[i])
}

/// A live platform of a well-formed simulation: horizontal offset within
/// the spawn range, vertical position between the cleanup boundary and the
/// spawn line, size positive and bounded.
pub open spec fn platform_wf(q: Platform) -> bool {
    -SPAWN_X_RANGE <= q.x <= SPAWN_X_RANGE && CLEANUP_Y <= q.y <= PLATFORM_SPAWN_Y
        && 0 < q.width <= MAX_ARCHETYPE_SIZE && 0 < q.height <= MAX_ARCHETYPE_SIZE
}

/// All coordinates of a platform are small enough that one tick of
/// arithmetic on them cannot overflow.
pub open spec fn platform_fits(q: Platform) -> bool {
    crate::fits(q.x as int) && crate::fits(q.y as int) && crate::fits(q.width as int)
        && crate::fits(q.height as int)
}

/// One platform one tick later: moved down by the scroll step. The cast
/// never truncates for a platform whose position fits.
pub open spec fn scrolled(q: Platform) -> Platform {
    Platform { y: (q.y - SCROLL_STEP) as i64, ..q }
}

/// A whole field of platforms one scroll step later.
pub open spec fn scrolled_seq(s: Seq<Platform>) -> Seq<Platform> {
    s.map_values(|q: Platform| scrolled(q))
}

/// The platforms that survive cleanup: those not yet below the cleanup
/// boundary, in their original order.
pub open spec fn live_platforms(s: Seq<Platform>) -> Seq<Platform> {
    s.filter(|q: Platform| q.y >= CLEANUP_Y)
}

/// The platform the spawner creates from a horizontal offset and an
/// archetype choice: centered at the offset on the fixed spawn line, with
/// the chosen archetype's size.
pub open spec fn spec_spawn_platform(c: Seq<Archetype>, x: i64, kind: usize) -> Platform {
    Platform {
        x: x,
        y: PLATFORM_SPAWN_Y,
        width: c[kind as int].width,
        height: c[kind as int].height,
        kind: kind,
    }
}

/// The deterministic part of the spawner: given the drawn horizontal offset
/// and the drawn archetype, build the new platform at the spawn line.
pub fn spawn_platform(catalog: &Vec<Archetype>, x: i64, kind: usize) -> (q: Platform)
    requires
        kind < catalog@.len(),
        -SPAWN_X_RANGE <= x <= SPAWN_X_RANGE,
    ensures
        q == spec_spawn_platform(catalog@, x, kind),
{
    let a = catalog[kind];
    Platform { x: x, y: PLATFORM_SPAWN_Y, width: a.width, height: a.height, kind: kind }
}

/// The spawner: draws the horizontal offset uniformly from the symmetric
/// spawn range and the archetype uniformly from the catalog, and builds the
/// platform on the spawn line. The sole source of new platforms.
pub fn spawn_platform_random(catalog: &Vec<Archetype>) -> (q: Platform)
    requires
        1 <= catalog@.len() <= MAX_CATALOG_LEN,
    ensures
        q.kind < catalog@.len(),
        q == spec_spawn_platform(catalog@, q.x, q.kind),
        -SPAWN_X_RANGE <= q.x <= SPAWN_X_RANGE,
        q.y == PLATFORM_SPAWN_Y,
{
    let x = random_in_range(-SPAWN_X_RANGE, SPAWN_X_RANGE);
    let kind_draw = random_in_range(0, (catalog.len() - 1) as i64);
    spawn_platform(catalog, x, kind_draw as usize)
}

/// Scroll system: every live platform moves down by the fixed scroll step,
/// unconditionally and uniformly, off-screen ones included. Nothing else
/// about a platform changes.
pub fn scroll_platforms(platforms: &mut Vec<Platform>)
    requires
        forall|i: int| 0 <= i < old(platforms)@.len() ==> crate::fits(
            #[trigger] old(platforms)@[i].y as int,
        ),
    ensures
        final(platforms)@ == scrolled_seq(old(platforms)@),
        final(platforms)@.len() == old(platforms)@.len(),
        forall|i: int| 0 <= i < old(platforms)@.len() ==> #[trigger] final(platforms)@[i]
            == scrolled(old(platforms)@[i]),
{
    let ghost orig = platforms@;
    let n = platforms.len();
    let mut out: Vec<Platform> = Vec::with_capacity(n);
    let mut i: usize = 0;
    while i < n
        invariant
            platforms@ == orig,
            n == orig.len(),
            i <= n,
            out@.len() == i,
            forall|j: int| 0 <= j < i ==> crate::fits(#[trigger] orig[j].y as int),
            forall|j: int| 0 <= j < i ==> #[trigger] out@[j] == scrolled(orig[j]),
            forall|j: int| 0 <= j < orig.len() ==> crate::fits(#[trigger] orig[j].y as int),
        decreases n - i,
    {
        let q = platforms[i];
        out.push(Platform { y: q.y - SCROLL_STEP, ..q });
        i = i + 1;
    }
    *platforms = out;
    proof {
        assert(platforms@ =~= scrolled_seq(orig));
    }
}

/// Cleanup: platforms that have scrolled below the cleanup boundary are
/// removed, so that memory stays bounded over an arbitrarily long run; the
/// survivors keep their order. Every survivor is one of the old platforms.
pub fn cleanup_platforms(platforms: &mut Vec<Platform>)
    ensures
        final(platforms)@ == live_platforms(old(platforms)@),
        forall|i: int| 0 <= i < final(platforms)@.len() ==> old(platforms)@.contains(
            #[trigger] final(platforms)@[i],
        ),
{
    let ghost orig = platforms@;
    let n = platforms.len();
    let mut out: Vec<Platform> = Vec::new();
    let mut i: usize = 0;
    while i < n
        invariant
            platforms@ == orig,
            n == orig.len(),
            i <= n,
            out@ == live_platforms(orig.take(i as int)),
            forall|j: int| 0 <= j < out@.len() ==> orig.contains(#[trigger] out@[j]),
        decreases n - i,
    {
        let q = platforms[i];
        proof {
            reveal_with_fuel(Seq::filter, 2);
            assert(orig.take(i as int + 1).drop_last() =~= orig.take(i as int));
            assert(orig.take(i as int + 1).last() == orig[i as int]);
            assert(orig.contains(orig[i as int]));
        }
        if q.y >= CLEANUP_Y {
            out.push(q);
        }
        i = i + 1;
    }
    *platforms = out;
    proof {
        assert(orig.take(n as int) =~= orig);
    }
}

/// The archetype catalog the game ships with: a narrow and a wide platform.
pub fn default_catalog() -> (c: Vec<Archetype>)
    ensures
        c@.len() == 2,
        c@[0] == (Archetype { width: PLATFORM_NARROW_WIDTH, height: PLATFORM_HEIGHT }),
        c@[1] == (Archetype { width: PLATFORM_WIDE_WIDTH, height: PLATFORM_HEIGHT }),
        catalog_wf(c@),
{
    let mut c: Vec<Archetype> = Vec::new();
    c.push(Archetype { width: PLATFORM_NARROW_WIDTH, height: PLATFORM_HEIGHT });
    c.push(Archetype { width: PLATFORM_WIDE_WIDTH, height: PLATFORM_HEIGHT });
    c
}

} // verus!
