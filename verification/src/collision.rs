//! The end of a round: the test for contact between the bird and a wall,
//! and what follows from it.

use crate::components::{size_to_vec2, Components, Position, Size, Tag, Vec2};
use crate::store::{
    count_tagged, lemma_count_none, lemma_count_same, slot_has_tag, with_components, Slot, World,
};
use vstd::prelude::*;

verus! {

/// The signal that the bird touched a wall. It lives for one frame: the
/// detector raises it, the handler later in the same frame consumes it.
#[derive(Clone, Copy, Debug, PartialEq, Eq)]
pub struct GameOverEvent;

/// Twice the coordinate of the lower edge of a box along one axis. Edges
/// are compared at twice their value, so that no half is ever rounded.
pub open spec fn low_edge(center: int, extent: int) -> int {
    2 * center - extent
}

/// Twice the coordinate of the upper edge of a box along one axis.
pub open spec fn high_edge(center: int, extent: int) -> int {
    2 * center + extent
}

/// Whether two boxes overlap. Each box is centred on its position. Boxes
/// that only touch do not overlap.
pub open spec fn overlaps(a: Position, a_size: Size, b: Position, b_size: Size) -> bool {
    &&& low_edge(a.0.x as int, a_size.width as int) < high_edge(b.0.x as int, b_size.width as int)
    &&& high_edge(a.0.x as int, a_size.width as int) > low_edge(b.0.x as int, b_size.width as int)
    &&& low_edge(a.0.y as int, a_size.height as int) < high_edge(b.0.y as int, b_size.height as int)
    &&& high_edge(a.0.y as int, a_size.height as int) > low_edge(b.0.y as int, b_size.height as int)
}

/// Whether `bird` is a bird and `wall` a wall, both with a position and a
/// size, whose boxes overlap.
pub open spec fn collides(bird: Components, wall: Components) -> bool {
    &&& bird.tag == Some(Tag::Bird)
    &&& wall.tag == Some(Tag::Wall)
    &&& bird.position matches Some(p)
    &&& bird.size matches Some(p_size)
    &&& wall.position matches Some(q)
    &&& wall.size matches Some(q_size)
    &&& overlaps(p, p_size, q, q_size)
}

/// Whether the entities in slots `i` and `j` are a bird and a wall that collide.
pub open spec fn pair_collides(s: Seq<Slot>, i: int, j: int) -> bool {
    &&& 0 <= i < s.len()
    &&& 0 <= j < s.len()
    &&& s[i].components matches Some(bird)
    &&& s[j].components matches Some(wall)
    &&& collides(bird, wall)
}

/// Whether any bird collides with any wall.
pub open spec fn spec_collision(s: Seq<Slot>) -> bool {
    exists|i: int, j: int| pair_collides(s, i, j)
}

/// The store after the round-over handler ran: if the signal was raised,
/// every wall is gone; everything else is as it was.
pub open spec fn spec_game_over(s: Seq<Slot>, signalled: bool) -> Seq<Slot> {
    if signalled {
        Seq::new(
            s.len(),
            |i: int|
                if slot_has_tag(s[i], Tag::Wall) {
                    with_components(s[i], None)
                } else {
                    s[i]
                },
        )
    } else {
        s
    }
}

/// Whether two boxes overlap.
pub fn boxes_overlap(a: Position, a_size: Size, b: Position, b_size: Size) -> (hit: bool)
    ensures
        hit == overlaps(a, a_size, b, b_size),
{
    let a_extent: Vec2 = size_to_vec2(&a_size);
    let b_extent: Vec2 = size_to_vec2(&b_size);
    let a_x: i128 = 2 * (a.0.x as i128);
    let a_y: i128 = 2 * (a.0.y as i128);
    let b_x: i128 = 2 * (b.0.x as i128);
    let b_y: i128 = 2 * (b.0.y as i128);
    let a_w: i128 = a_extent.x as i128;
    let a_h: i128 = a_extent.y as i128;
    let b_w: i128 = b_extent.x as i128;
    let b_h: i128 = b_extent.y as i128;
    a_x - a_w < b_x + b_w && a_x + a_w > b_x - b_w && a_y - a_h < b_y + b_h && a_y + a_h > b_y
        - b_h
}

fn components_collide(bird: Components, wall: Components) -> (hit: bool)
    ensures
        hit == collides(bird, wall),
{
    if !bird.has_tag(Tag::Bird) || !wall.has_tag(Tag::Wall) {
        return false;
    }
    match (bird.position, bird.size, wall.position, wall.size) {
        (Some(p), Some(p_size), Some(q), Some(q_size)) => boxes_overlap(p, p_size, q, q_size),
        _ => false,
    }
}

/// The collision detector: raises the signal if any bird overlaps any
/// wall, once, however many walls it overlaps.
pub fn collision(world: &World) -> (event: Option<GameOverEvent>)
    ensures
        event is Some <==> spec_collision(world@),
{
    let n: usize = world.slot_count();
    let mut i: usize = 0;
    while i < n
        invariant
            i <= n,
            n == world@.len(),
            forall|a: int, b: int| 0 <= a < i ==> !pair_collides(world@, a, b),
        decreases n - i,
    {
        if let Some(bird_id) = world.entity_at(i) {
            if let Some(bird) = world.get(bird_id) {
                if bird.has_tag(Tag::Bird) {
                    let mut j: usize = 0;
                    while j < n
                        invariant
                            j <= n,
                            i < n,
                            n == world@.len(),
                            world@[i as int].components == Some(bird),
                            forall|b: int| 0 <= b < j ==> !pair_collides(world@, i as int, b),
                        decreases n - j,
                    {
                        if let Some(wall_id) = world.entity_at(j) {
                            if let Some(wall) = world.get(wall_id) {
                                if components_collide(bird, wall) {
                                    assert(pair_collides(world@, i as int, j as int));
                                    return Some(GameOverEvent);
                                }
                            }
                        }
                        j += 1;
                    }
                }
            }
        }
        i += 1;
    }
    None
}

/// The round-over handler: consumes the signal. If it was raised, every
/// wall is removed; the bird and everything else stay as they are.
/// Without the signal nothing happens.
pub fn game_over(world: &mut World, event: Option<GameOverEvent>)
    ensures
        final(world)@ == spec_game_over(old(world)@, event is Some),
        event is Some ==> count_tagged(final(world)@, Tag::Wall) == 0,
        event is Some ==> !spec_collision(final(world)@),
        count_tagged(final(world)@, Tag::Bird) == count_tagged(old(world)@, Tag::Bird),
{
    if event.is_none() {
        return ;
    }
    proof {
        law_round_over_is_idempotent(world@);
    }
    let n: usize = world.slot_count();
    let mut i: usize = 0;
    while i < n
        invariant
            i <= n,
            n == old(world)@.len(),
            world@.len() == n,
            forall|j: int| 0 <= j < i ==> world@[j] == spec_game_over(old(world)@, true)[j],
            forall|j: int| i <= j < n ==> world@[j] == old(world)@[j],
        decreases n - i,
    {
        if let Some(id) = world.entity_at(i) {
            if let Some(c) = world.get(id) {
                if c.has_tag(Tag::Wall) {
                    world.remove(id);
                }
            }
        }
        i += 1;
    }
    assert(world@ =~= spec_game_over(old(world)@, true));
}

/// Boxes that share a boundary and nothing more do not overlap, along
/// whichever side they touch; and the test does not depend on the order of
/// the two boxes.
pub proof fn law_touching_is_no_overlap(a: Position, a_size: Size, b: Position, b_size: Size)
    ensures
        high_edge(a.0.x as int, a_size.width as int) == low_edge(b.0.x as int, b_size.width as int)
            ==> !overlaps(a, a_size, b, b_size),
        low_edge(a.0.x as int, a_size.width as int) == high_edge(b.0.x as int, b_size.width as int)
            ==> !overlaps(a, a_size, b, b_size),
        high_edge(a.0.y as int, a_size.height as int) == low_edge(
            b.0.y as int,
            b_size.height as int,
        ) ==> !overlaps(a, a_size, b, b_size),
        low_edge(a.0.y as int, a_size.height as int) == high_edge(
            b.0.y as int,
            b_size.height as int,
        ) ==> !overlaps(a, a_size, b, b_size),
        overlaps(a, a_size, b, b_size) == overlaps(b, b_size, a, a_size),
{
}

/// Once the signal was consumed, no wall is left: nothing collides, so the
/// detector raises no further signal, and the handler, run again with or
/// without one, removes nothing more.
pub proof fn law_round_over_is_idempotent(s: Seq<Slot>)
    ensures
        count_tagged(spec_game_over(s, true), Tag::Wall) == 0,
        count_tagged(spec_game_over(s, true), Tag::Bird) == count_tagged(s, Tag::Bird),
        !spec_collision(spec_game_over(s, true)),
        spec_game_over(spec_game_over(s, true), true) == spec_game_over(s, true),
        spec_game_over(spec_game_over(s, true), spec_collision(spec_game_over(s, true)))
            == spec_game_over(s, true),
{
    let cleared = spec_game_over(s, true);
    lemma_count_none(cleared, Tag::Wall);
    lemma_count_same(s, cleared, Tag::Bird);
    assert(spec_game_over(cleared, true) =~= cleared);
}

} // verus!
