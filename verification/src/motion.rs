//! The passes that move entities: steering, kinematics, and the bird's
//! confinement to the viewport.

use crate::components::{Components, Position, Speed, Tag, Vec2};
use crate::fixed::{saturated, saturating_sum, toward_zero};
use crate::store::{with_components, Slot, World};
use crate::viewport::{valid_extent, Viewport};
use vstd::prelude::*;

verus! {

/// The vertical speed that the bird has while the jump key is held: ten
/// units per frame, upward.
pub const JUMP_SPEED: i64 = -10_000_000;

/// What a frame without the jump key adds to the bird's vertical speed:
/// one unit per frame, downward.
pub const GRAVITY: i64 = 1_000_000;

/// The bird keeps `DAMPING_NUMERATOR / DAMPING_DENOMINATOR` of its vertical
/// speed from one frame to the next: four fifths.
pub const DAMPING_NUMERATOR: i64 = 4;

/// See [`DAMPING_NUMERATOR`].
pub const DAMPING_DENOMINATOR: i64 = 5;

/// `c` one frame later: its position moved by its speed. A bundle that lacks
/// either is left alone.
pub open spec fn moved(c: Components) -> Components {
    match (c.position, c.speed) {
        (Some(p), Some(v)) => Components {
            position: Some(
                Position(
                    Vec2 {
                        x: saturated(p.0.x + v.0.x) as i64,
                        y: saturated(p.0.y + v.0.y) as i64,
                    },
                ),
            ),
            ..c
        },
        _ => c,
    }
}

/// The vertical speed of the bird after the jump key was sampled.
pub open spec fn steered_speed(vy: int, jump_held: bool) -> int {
    if jump_held {
        JUMP_SPEED as int
    } else {
        saturated(vy + GRAVITY)
    }
}

/// `c` after the jump key was sampled: a bird's vertical speed is set or
/// raised, its horizontal speed and everything else stay.
pub open spec fn steered(c: Components, jump_held: bool) -> Components {
    match c.speed {
        Some(v) if c.tag == Some(Tag::Bird) => Components {
            speed: Some(Speed(Vec2 { x: v.0.x, y: steered_speed(v.0.y as int, jump_held) as i64 })),
            ..c
        },
        _ => c,
    }
}

/// `y` brought into `-half_height ..= half_height`. The upper bound is
/// applied first, then the lower.
pub open spec fn clamped(y: int, half_height: int) -> int {
    let capped = if y > half_height { half_height } else { y };
    if capped < -half_height {
        -half_height
    } else {
        capped
    }
}

/// The part of a vertical speed that survives a frame, rounded toward zero.
pub open spec fn damped(vy: int) -> int {
    toward_zero(vy * DAMPING_NUMERATOR, DAMPING_DENOMINATOR as int)
}

/// `c` after the bird was confined to a viewport of the given height: a
/// bird with a position and a speed has its height clamped and its vertical
/// speed damped.
pub open spec fn confined(c: Components, height: int) -> Components {
    match (c.position, c.speed) {
        (Some(p), Some(v)) if c.tag == Some(Tag::Bird) => Components {
            position: Some(Position(Vec2 { x: p.0.x, y: clamped(p.0.y as int, height / 2) as i64 })),
            speed: Some(Speed(Vec2 { x: v.0.x, y: damped(v.0.y as int) as i64 })),
            ..c
        },
        _ => c,
    }
}

/// The store after the kinematics pass.
pub open spec fn spec_movement(s: Seq<Slot>) -> Seq<Slot> {
    Seq::new(
        s.len(),
        |i: int|
            match s[i].components {
                Some(c) => with_components(s[i], Some(moved(c))),
                None => s[i],
            },
    )
}

/// The store after the steering pass.
pub open spec fn spec_bird_movement_input(s: Seq<Slot>, jump_held: bool) -> Seq<Slot> {
    Seq::new(
        s.len(),
        |i: int|
            match s[i].components {
                Some(c) => with_components(s[i], Some(steered(c, jump_held))),
                None => s[i],
            },
    )
}

/// The store after the bird was confined to a viewport of the given height.
pub open spec fn spec_bird_movement(s: Seq<Slot>, height: int) -> Seq<Slot> {
    Seq::new(
        s.len(),
        |i: int|
            match s[i].components {
                Some(c) => with_components(s[i], Some(confined(c, height))),
                None => s[i],
            },
    )
}

fn move_one(c: Components) -> (r: Components)
    ensures
        r == moved(c),
{
    match (c.position, c.speed) {
        (Some(p), Some(v)) => Components {
            position: Some(
                Position(Vec2 { x: saturating_sum(p.0.x, v.0.x), y: saturating_sum(p.0.y, v.0.y) }),
            ),
            ..c
        },
        _ => c,
    }
}

fn steer_one(c: Components, jump_held: bool) -> (r: Components)
    ensures
        r == steered(c, jump_held),
{
    match (c.tag, c.speed) {
        (Some(Tag::Bird), Some(v)) => {
            let vy: i64 = if jump_held {
                JUMP_SPEED
            } else {
                saturating_sum(v.0.y, GRAVITY)
            };
            Components { speed: Some(Speed(Vec2 { x: v.0.x, y: vy })), ..c }
        },
        _ => c,
    }
}

/// Damps a vertical speed.
pub fn damp(vy: i64) -> (r: i64)
    ensures
        r == damped(vy as int),
{
    let wide: i128 = vy as i128 * DAMPING_NUMERATOR as i128;
    (wide / DAMPING_DENOMINATOR as i128) as i64
}

fn confine_one(c: Components, half_height: i64) -> (r: Components)
    requires
        0 <= half_height,
    ensures
        r.tag == c.tag && r.size == c.size,
        match (c.position, c.speed) {
            (Some(p), Some(v)) if c.tag == Some(Tag::Bird) => {
                &&& r.position == Some(
                    Position(Vec2 { x: p.0.x, y: clamped(p.0.y as int, half_height as int) as i64 }),
                )
                &&& r.speed == Some(Speed(Vec2 { x: v.0.x, y: damped(v.0.y as int) as i64 }))
            },
            _ => r == c,
        },
{
    match (c.tag, c.position, c.speed) {
        (Some(Tag::Bird), Some(p), Some(v)) => {
            let mut y: i64 = p.0.y;
            if y > half_height {
                y = half_height;
            }
            if y < -half_height {
                y = -half_height;
            }
            Components {
                position: Some(Position(Vec2 { x: p.0.x, y })),
                speed: Some(Speed(Vec2 { x: v.0.x, y: damp(v.0.y) })),
                ..c
            }
        },
        _ => c,
    }
}

/// The kinematics pass: every entity that has a position and a speed moves
/// by its speed. A coordinate that would leave the range of a scalar stops
/// at its end. Nothing else changes.
pub fn movement(world: &mut World)
    ensures
        final(world)@ == spec_movement(old(world)@),
{
    let n: usize = world.slot_count();
    let mut i: usize = 0;
    while i < n
        invariant
            i <= n,
            n == old(world)@.len(),
            world@.len() == n,
            forall|j: int| 0 <= j < i ==> world@[j] == spec_movement(old(world)@)[j],
            forall|j: int| i <= j < n ==> world@[j] == old(world)@[j],
        decreases n - i,
    {
        if let Some(id) = world.entity_at(i) {
            if let Some(c) = world.get(id) {
                world.set(id, move_one(c));
            }
        }
        i += 1;
    }
    assert(world@ =~= spec_movement(old(world)@));
}

/// The steering pass: while the jump key is held, every bird's vertical
/// speed is [`JUMP_SPEED`]; otherwise [`GRAVITY`] is added to it. Nothing
/// else changes.
pub fn bird_movement_input(world: &mut World, jump_held: bool)
    ensures
        final(world)@ == spec_bird_movement_input(old(world)@, jump_held),
{
    let n: usize = world.slot_count();
    let mut i: usize = 0;
    while i < n
        invariant
            i <= n,
            n == old(world)@.len(),
            world@.len() == n,
            forall|j: int| 0 <= j < i ==> world@[j] == spec_bird_movement_input(old(world)@, jump_held)[j],
            forall|j: int| i <= j < n ==> world@[j] == old(world)@[j],
        decreases n - i,
    {
        if let Some(id) = world.entity_at(i) {
            if let Some(c) = world.get(id) {
                world.set(id, steer_one(c, jump_held));
            }
        }
        i += 1;
    }
    assert(world@ =~= spec_bird_movement_input(old(world)@, jump_held));
}

/// Confines the bird: every bird that has a position and a speed has its
/// height clamped to the viewport, `-height/2 ..= height/2`, and its
/// vertical speed damped. Nothing else changes.
pub fn bird_movement(world: &mut World, viewport: Viewport)
    ensures
        final(world)@ == spec_bird_movement(old(world)@, viewport.height() as int),
{
    let half_height: i64 = viewport.half_height();
    let n: usize = world.slot_count();
    let mut i: usize = 0;
    while i < n
        invariant
            i <= n,
            n == old(world)@.len(),
            world@.len() == n,
            0 <= half_height == viewport.height() / 2,
            forall|j: int|
                0 <= j < i ==> world@[j] == spec_bird_movement(old(world)@, viewport.height() as int)[j],
            forall|j: int| i <= j < n ==> world@[j] == old(world)@[j],
        decreases n - i,
    {
        if let Some(id) = world.entity_at(i) {
            if let Some(c) = world.get(id) {
                world.set(id, confine_one(c, half_height));
            }
        }
        i += 1;
    }
    assert(world@ =~= spec_bird_movement(old(world)@, viewport.height() as int));
}

/// Where the sum of position and speed is a scalar, the kinematics pass
/// yields exactly that sum, and leaves the rest of the entity as it was.
pub proof fn law_movement_is_exact(c: Components, p: Position, v: Speed)
    requires
        c.position == Some(p),
        c.speed == Some(v),
        i64::MIN <= p.0.x + v.0.x <= i64::MAX,
        i64::MIN <= p.0.y + v.0.y <= i64::MAX,
    ensures
        moved(c).position matches Some(q) && q.0.x == p.0.x + v.0.x && q.0.y == p.0.y + v.0.y,
        moved(c).speed == c.speed,
        moved(c).tag == c.tag,
        moved(c).size == c.size,
{
}

/// After the bird was confined to a viewport, its height lies within the
/// viewport, whatever it was before.
pub proof fn law_bird_stays_in_viewport(s: Seq<Slot>, height: int, i: int)
    requires
        valid_extent(height),
        0 <= i < s.len(),
        s[i].components matches Some(c) && c.tag == Some(Tag::Bird) && c.position is Some
            && c.speed is Some,
    ensures
        ({
            &&& spec_bird_movement(s, height)[i].components matches Some(c)
            &&& c.tag == Some(Tag::Bird)
            &&& c.position matches Some(p)
            &&& -(height / 2) <= p.0.y <= height / 2
        }),
{
}

} // verus!
