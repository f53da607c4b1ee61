//! What the renderer gets to see.

use crate::components::{Position, Size, Tag};
use crate::store::{EntityId, Slot, World};
use vstd::prelude::*;

verus! {

/// What the renderer needs to draw one entity.
#[derive(Clone, Copy, Debug, PartialEq, Eq)]
pub struct Drawable {
    pub id: EntityId,
    /// Picks the colour.
    pub tag: Option<Tag>,
    pub position: Position,
    pub size: Size,
}

/// What is drawn for the entity in slot `index`: nothing, unless it has a
/// position and a size.
pub open spec fn slot_drawable(slot: Slot, index: int) -> Option<Drawable> {
    match slot.components {
        Some(c) => match (c.position, c.size) {
            (Some(position), Some(size)) => Some(
                Drawable {
                    id: EntityId { index: index as usize, generation: slot.generation },
                    tag: c.tag,
                    position,
                    size,
                },
            ),
            _ => None,
        },
        None => None,
    }
}

/// What is drawn, in the order of the slots.
pub open spec fn spec_drawables(s: Seq<Slot>) -> Seq<Drawable>
    decreases s.len(),
{
    if s.len() == 0 {
        Seq::empty()
    } else {
        match slot_drawable(s.last(), s.len() - 1) {
            Some(d) => spec_drawables(s.drop_last()).push(d),
            None => spec_drawables(s.drop_last()),
        }
    }
}

/// The snapshot for the renderer: every entity that has a position and a
/// size, in the order of the slots. The world is only read.
pub fn drawables(world: &World) -> (list: Vec<Drawable>)
    ensures
        list@ == spec_drawables(world@),
{
    let n: usize = world.slot_count();
    let mut list: Vec<Drawable> = Vec::new();
    let mut i: usize = 0;
    while i < n
        invariant
            i <= n,
            n == world@.len(),
            list@ == spec_drawables(world@.take(i as int)),
        decreases n - i,
    {
        proof {
            assert(world@.take(i + 1).drop_last() == world@.take(i as int));
        }
        if let Some(id) = world.entity_at(i) {
            if let Some(c) = world.get(id) {
                match (c.position, c.size) {
                    (Some(position), Some(size)) => {
                        list.push(Drawable { id, tag: c.tag, position, size });
                    },
                    _ => {},
                }
            }
        }
        i += 1;
    }
    proof {
        assert(world@.take(n as int) == world@);
    }
    list
}

} // verus!
