//! The walls: how a pair is laid out around a gap, how pairs enter the
//! world, and when a wall leaves it.
//!
//! A pair is made from two draws of 32 random bits. The upper 24 bits of a
//! draw count steps of `1 / DRAW_STEPS`, a fraction in `0 .. 1`.

use crate::components::{Components, Position, Size, Speed, Tag, Vec2};
use crate::fixed::{half, UNIT};
use crate::store::{
    count_tagged, law_spawn_adds_one, spec_spawn, spec_spawn_id, with_components, EntityId, Slot,
    World,
};
use crate::viewport::{valid_extent, Viewport, MAX_VIEWPORT};
use vstd::prelude::*;

verus! {

/// The smallest gap between the walls of a pair.
pub const MIN_GAP_SIZE: i64 = 150_000_000;

/// The bound that the gap between the walls of a pair stays below.
pub const MAX_GAP_SIZE: i64 = 350_000_000;

/// The width of a wall.
pub const WALL_WIDTH: i64 = 10_000_000;

/// The horizontal speed of a wall: two units per frame, leftward.
pub const WALL_SPEED: i64 = -2_000_000;

/// The number of steps that the fraction of a draw is counted in.
pub const DRAW_STEPS: i64 = 0x100_0000;

/// The fraction that `draw` stands for, in steps of `1 / DRAW_STEPS`.
pub open spec fn draw_steps(draw: u32) -> int {
    draw as int / 256
}

/// The size of the gap: `MIN_GAP_SIZE` plus the drawn fraction of the room
/// up to `MAX_GAP_SIZE`, rounded down.
pub open spec fn gap_size(draw: u32) -> int {
    MIN_GAP_SIZE + draw_steps(draw) * (MAX_GAP_SIZE - MIN_GAP_SIZE) / (DRAW_STEPS as int)
}

/// How far the centre of the gap lies below the centre of the viewport:
/// the drawn fraction less one half, times the height that the gap leaves
/// free, rounded down.
pub open spec fn gap_position(draw: u32, height: int, gap: int) -> int {
    (draw_steps(draw) - DRAW_STEPS / 2) * (height - gap) / (DRAW_STEPS as int)
}

/// The height of the wall above the gap.
pub open spec fn upper_height(height: int, gap: int, position: int) -> int {
    height / 2 + position - gap / 2
}

/// The height of the wall below the gap.
pub open spec fn lower_height(height: int, gap: int, position: int) -> int {
    height / 2 - position - gap / 2
}

/// The centre of the upper wall, which hangs from the top edge.
pub open spec fn upper_center(height: int, wall_height: int) -> int {
    (-height + wall_height) / 2
}

/// The centre of the lower wall, which stands on the bottom edge.
pub open spec fn lower_center(height: int, wall_height: int) -> int {
    (height - wall_height) / 2
}

/// A wall as it enters: at the right edge, `wall_height` high around
/// `center`, moving left.
pub open spec fn wall(width: int, center: int, wall_height: int) -> Components {
    Components {
        tag: Some(Tag::Wall),
        position: Some(Position(Vec2 { x: (width / 2) as i64, y: center as i64 })),
        speed: Some(Speed(Vec2 { x: WALL_SPEED, y: 0 })),
        size: Some(Size { width: WALL_WIDTH, height: wall_height as i64 }),
    }
}

/// The upper wall of the pair that the two draws give in a viewport.
pub open spec fn spec_upper_wall(
    width: int,
    height: int,
    size_draw: u32,
    position_draw: u32,
) -> Components {
    let gap = gap_size(size_draw);
    let wall_height = upper_height(height, gap, gap_position(position_draw, height, gap));
    wall(width, upper_center(height, wall_height), wall_height)
}

/// The lower wall of the pair that the two draws give in a viewport.
pub open spec fn spec_lower_wall(
    width: int,
    height: int,
    size_draw: u32,
    position_draw: u32,
) -> Components {
    let gap = gap_size(size_draw);
    let wall_height = lower_height(height, gap, gap_position(position_draw, height, gap));
    wall(width, lower_center(height, wall_height), wall_height)
}

/// The store after the pair was spawned: first the upper wall, then the lower.
pub open spec fn spec_spawn_walls(
    s: Seq<Slot>,
    width: int,
    height: int,
    size_draw: u32,
    position_draw: u32,
) -> Seq<Slot> {
    spec_spawn(
        spec_spawn(s, spec_upper_wall(width, height, size_draw, position_draw)),
        spec_lower_wall(width, height, size_draw, position_draw),
    )
}

/// Whether `after` and `ids` are what spawning the pair for the two draws
/// makes of `before`: the store with both walls added, and their
/// identifiers, the upper wall's first.
pub open spec fn spawns_pair(
    before: Seq<Slot>,
    after: Seq<Slot>,
    ids: (EntityId, EntityId),
    width: int,
    height: int,
    size_draw: u32,
    position_draw: u32,
) -> bool {
    &&& after == spec_spawn_walls(before, width, height, size_draw, position_draw)
    &&& ids.0 == spec_spawn_id(before)
    &&& ids.1 == spec_spawn_id(
        spec_spawn(before, spec_upper_wall(width, height, size_draw, position_draw)),
    )
}

/// Whether a wall has scrolled out: its centre lies left of the left edge.
/// The width of the wall is not taken into account.
pub open spec fn scrolled_out(c: Components, width: int) -> bool {
    &&& c.tag == Some(Tag::Wall)
    &&& c.position matches Some(p)
    &&& p.0.x < -(width / 2)
}

/// The store after the walls that scrolled out were removed.
pub open spec fn spec_wall_despawner(s: Seq<Slot>, width: int) -> Seq<Slot> {
    Seq::new(
        s.len(),
        |i: int|
            match s[i].components {
                Some(c) if scrolled_out(c, width) => with_components(s[i], None),
                _ => s[i],
            },
    )
}

fn gap_size_for(draw: u32) -> (gap: i64)
    ensures
        gap == gap_size(draw),
        MIN_GAP_SIZE <= gap < MAX_GAP_SIZE,
{
    let steps: i64 = (draw / 256) as i64;
    let room: i64 = MAX_GAP_SIZE - MIN_GAP_SIZE;
    assert(0 <= steps * room <= 16_777_215 * 200_000_000) by (nonlinear_arith)
        requires
            0 <= steps <= 16_777_215,
            room == 200_000_000,
    ;
    MIN_GAP_SIZE + steps * room / DRAW_STEPS
}

fn gap_position_for(draw: u32, viewport: Viewport, gap: i64) -> (position: i64)
    requires
        MIN_GAP_SIZE <= gap <= MAX_GAP_SIZE,
    ensures
        position == gap_position(draw, viewport.height() as int, gap as int),
        -(MAX_VIEWPORT / 2) <= position <= MAX_VIEWPORT / 2,
{
    let offset: i64 = (draw / 256) as i64 - DRAW_STEPS / 2;
    let room: i64 = viewport.height() - gap;
    assert(-8_388_608 * 1_000_000_000_000 <= offset * room <= 8_388_608 * 1_000_000_000_000)
        by (nonlinear_arith)
        requires
            -8_388_608 <= offset <= 8_388_608,
            -1_000_000_000_000 <= room <= 1_000_000_000_000,
    ;
    let product: i64 = offset * room;
    let quotient: i64 = product / DRAW_STEPS;
    if product % DRAW_STEPS < 0 {
        quotient - 1
    } else {
        quotient
    }
}

/// The opening between the two walls of a pair.
#[derive(Clone, Copy, Debug, PartialEq, Eq)]
pub struct Gap {
    /// How high the opening is.
    pub size: i64,
    /// How far its centre lies below the centre of the viewport.
    pub position: i64,
}

/// The gap that the two draws give in a viewport: the first draw sets its
/// size, the second its position.
pub fn gap_for(viewport: Viewport, size_draw: u32, position_draw: u32) -> (gap: Gap)
    ensures
        gap.size == gap_size(size_draw),
        gap.position == gap_position(position_draw, viewport.height() as int, gap.size as int),
        MIN_GAP_SIZE <= gap.size < MAX_GAP_SIZE,
        -(MAX_VIEWPORT / 2) <= gap.position <= MAX_VIEWPORT / 2,
{
    let size: i64 = gap_size_for(size_draw);
    Gap { size, position: gap_position_for(position_draw, viewport, size) }
}

/// The two walls, upper and lower, that the two draws give in a viewport.
pub fn wall_pair(
    viewport: Viewport,
    size_draw: u32,
    position_draw: u32,
) -> (pair: (Components, Components))
    ensures
        pair.0 == spec_upper_wall(
            viewport.width() as int,
            viewport.height() as int,
            size_draw,
            position_draw,
        ),
        pair.1 == spec_lower_wall(
            viewport.width() as int,
            viewport.height() as int,
            size_draw,
            position_draw,
        ),
{
    let height: i64 = viewport.height();
    let x: i64 = viewport.half_width();
    let gap: Gap = gap_for(viewport, size_draw, position_draw);
    let upper: i64 = half(height) + gap.position - half(gap.size);
    let lower: i64 = half(height) - gap.position - half(gap.size);
    let speed: Speed = Speed(Vec2 { x: WALL_SPEED, y: 0 });
    (
        Components::full(
            Tag::Wall,
            Position(Vec2 { x, y: half(-height + upper) }),
            speed,
            Size { width: WALL_WIDTH, height: upper },
        ),
        Components::full(
            Tag::Wall,
            Position(Vec2 { x, y: half(height - lower) }),
            speed,
            Size { width: WALL_WIDTH, height: lower },
        ),
    )
}

/// Spawns the pair of walls that the two draws give, the upper one first,
/// and returns their identifiers. Two walls more live in the world
/// afterwards, and nothing else has changed.
pub fn spawn_walls(
    world: &mut World,
    viewport: Viewport,
    size_draw: u32,
    position_draw: u32,
) -> (ids: (EntityId, EntityId))
    ensures
        spawns_pair(
            old(world)@,
            final(world)@,
            ids,
            viewport.width() as int,
            viewport.height() as int,
            size_draw,
            position_draw,
        ),
        count_tagged(final(world)@, Tag::Wall) == count_tagged(old(world)@, Tag::Wall) + 2,
        count_tagged(final(world)@, Tag::Bird) == count_tagged(old(world)@, Tag::Bird),
{
    let pair: (Components, Components) = wall_pair(viewport, size_draw, position_draw);
    proof {
        law_spawn_adds_one(world@, pair.0, Tag::Wall);
        law_spawn_adds_one(world@, pair.0, Tag::Bird);
        law_spawn_adds_one(spec_spawn(world@, pair.0), pair.1, Tag::Wall);
        law_spawn_adds_one(spec_spawn(world@, pair.0), pair.1, Tag::Bird);
    }
    let upper: EntityId = world.spawn(pair.0);
    let lower: EntityId = world.spawn(pair.1);
    (upper, lower)
}

/// Calls `rand::random::<u32>()`, which takes the next 32 bits from the
/// generator of the calling thread. Nothing is claimed of the value. The
/// generator is seeded by the operating system when the thread first uses
/// it; the call panics if that fails.
#[verifier::external_body]
fn random_draw() -> u32 {
    rand::random::<u32>()
}

/// The spawner: draws the size of a gap and, independently, its position,
/// and spawns the pair of walls around it. Whatever was drawn, the world is
/// the old one with the pair for some two draws added: two walls more.
pub fn wall_spawner(world: &mut World, viewport: Viewport) -> (ids: (EntityId, EntityId))
    ensures
        exists|size_draw: u32, position_draw: u32| #[trigger]
            spawns_pair(
                old(world)@,
                final(world)@,
                ids,
                viewport.width() as int,
                viewport.height() as int,
                size_draw,
                position_draw,
            ),
        count_tagged(final(world)@, Tag::Wall) == count_tagged(old(world)@, Tag::Wall) + 2,
        count_tagged(final(world)@, Tag::Bird) == count_tagged(old(world)@, Tag::Bird),
{
    let size_draw: u32 = random_draw();
    let position_draw: u32 = random_draw();
    spawn_walls(world, viewport, size_draw, position_draw)
}

/// The despawner: removes every wall whose centre lies left of the left
/// edge of the viewport. Nothing else changes.
pub fn wall_despawner(world: &mut World, viewport: Viewport)
    ensures
        final(world)@ == spec_wall_despawner(old(world)@, viewport.width() as int),
{
    let edge: i64 = -viewport.half_width();
    let n: usize = world.slot_count();
    let mut i: usize = 0;
    while i < n
        invariant
            i <= n,
            n == old(world)@.len(),
            world@.len() == n,
            edge == -(viewport.width() / 2),
            forall|j: int|
                0 <= j < i ==> world@[j] == spec_wall_despawner(old(world)@, viewport.width() as int)[j],
            forall|j: int| i <= j < n ==> world@[j] == old(world)@[j],
        decreases n - i,
    {
        if let Some(id) = world.entity_at(i) {
            if let Some(c) = world.get(id) {
                if let Some(p) = c.position {
                    if c.has_tag(Tag::Wall) && p.0.x < edge {
                        world.remove(id);
                    }
                }
            }
        }
        i += 1;
    }
    assert(world@ =~= spec_wall_despawner(old(world)@, viewport.width() as int));
}

/// The gap is at least `MIN_GAP_SIZE` and less than `MAX_GAP_SIZE`. The two
/// walls and the gap between them fill the height of the viewport, to
/// within one step of a scalar: halves are rounded down, so the sum is one
/// step short where only the height is odd, and one step over where only
/// the gap is odd. The walls are as high as they were computed: nothing is
/// lost when the heights are stored.
pub proof fn law_gap_geometry(width: int, height: int, size_draw: u32, position_draw: u32)
    requires
        valid_extent(height),
    ensures
        MIN_GAP_SIZE <= gap_size(size_draw) < MAX_GAP_SIZE,
        ({
            let gap = gap_size(size_draw);
            let position = gap_position(position_draw, height, gap);
            let upper = spec_upper_wall(width, height, size_draw, position_draw);
            let lower = spec_lower_wall(width, height, size_draw, position_draw);
            &&& upper.size matches Some(upper_size)
            &&& lower.size matches Some(lower_size)
            &&& upper_size.height == upper_height(height, gap, position)
            &&& lower_size.height == lower_height(height, gap, position)
            &&& upper_size.height + gap + lower_size.height == height - height % 2 + gap % 2
            &&& -1 <= upper_size.height + gap + lower_size.height - height <= 1
        }),
{
    lemma_wall_heights(height, size_draw, position_draw);
}

/// The pair frames the gap. The upper wall hangs from the top edge of
/// the viewport and the lower wall stands on its bottom edge, each to
/// within half a step; the opening between them is the gap, to within a
/// step and a half. Edges are taken at twice their value, as in the
/// collision test. Both walls enter at the same place with the same speed.
pub proof fn law_walls_frame_the_gap(width: int, height: int, size_draw: u32, position_draw: u32)
    requires
        valid_extent(width),
        valid_extent(height),
    ensures
        ({
            let gap = gap_size(size_draw);
            let upper = spec_upper_wall(width, height, size_draw, position_draw);
            let lower = spec_lower_wall(width, height, size_draw, position_draw);
            &&& upper.position matches Some(p)
            &&& upper.size matches Some(p_size)
            &&& lower.position matches Some(q)
            &&& lower.size matches Some(q_size)
            &&& -height - 1 <= 2 * p.0.y - p_size.height <= -height
            &&& height - 1 <= 2 * q.0.y + q_size.height <= height
            &&& 2 * gap - 3 <= (2 * q.0.y - q_size.height) - (2 * p.0.y + p_size.height) <= 2 * gap
                + 3
            &&& p.0.x == q.0.x == width / 2
            &&& upper.speed == lower.speed
            &&& p_size.width == q_size.width == WALL_WIDTH
        }),
{
    lemma_wall_heights(height, size_draw, position_draw);
}

/// How high the walls of a pair can be, in a viewport that is at least
/// `MAX_GAP_SIZE` high: no wall is taller than what the smallest gap leaves
/// free. The lower wall is never negative; the upper wall is at worst one
/// step below zero, where halves were rounded down. A wall can have no
/// height at all: the upper one has none for the lowest position draw.
pub proof fn law_wall_heights(height: int, size_draw: u32, position_draw: u32)
    requires
        valid_extent(height),
        height >= MAX_GAP_SIZE,
    ensures
        ({
            let gap = gap_size(size_draw);
            let position = gap_position(position_draw, height, gap);
            &&& -1 <= upper_height(height, gap, position) <= height - MIN_GAP_SIZE
            &&& 0 <= lower_height(height, gap, position) <= height - MIN_GAP_SIZE
        }),
{
    let gap = gap_size(size_draw);
    let steps = draw_steps(position_draw) - DRAW_STEPS / 2;
    let room = height - gap;
    assert(-8_388_608 * room <= steps * room <= 8_388_607 * room) by (nonlinear_arith)
        requires
            -8_388_608 <= steps <= 8_388_607,
            0 <= room,
    ;
}

/// The heights and centres of a pair are scalars: nothing is cut off when
/// they are stored.
proof fn lemma_wall_heights(height: int, size_draw: u32, position_draw: u32)
    requires
        valid_extent(height),
    ensures
        ({
            let gap = gap_size(size_draw);
            let position = gap_position(position_draw, height, gap);
            let upper = upper_height(height, gap, position);
            let lower = lower_height(height, gap, position);
            &&& -(2 * MAX_VIEWPORT) <= upper <= 2 * MAX_VIEWPORT
            &&& -(2 * MAX_VIEWPORT) <= lower <= 2 * MAX_VIEWPORT
            &&& -(2 * MAX_VIEWPORT) <= upper_center(height, upper) <= 2 * MAX_VIEWPORT
            &&& -(2 * MAX_VIEWPORT) <= lower_center(height, lower) <= 2 * MAX_VIEWPORT
        }),
{
    let gap = gap_size(size_draw);
    let steps = draw_steps(position_draw) - DRAW_STEPS / 2;
    let room = height - gap;
    assert(-8_388_608 * 1_000_000_000_000 <= steps * room <= 8_388_608 * 1_000_000_000_000)
        by (nonlinear_arith)
        requires
            -8_388_608 <= steps <= 8_388_608,
            -1_000_000_000_000 <= room <= 1_000_000_000_000,
    ;
}

/// A wall whose centre is one unit left of the left edge has scrolled out;
/// one whose centre is one unit right of it has not.
pub proof fn law_despawn_threshold(c: Components, p: Position, width: int)
    requires
        c.tag == Some(Tag::Wall),
        c.position == Some(p),
    ensures
        p.0.x == -(width / 2) - UNIT ==> scrolled_out(c, width),
        p.0.x == -(width / 2) + UNIT ==> !scrolled_out(c, width),
        scrolled_out(c, width) <==> p.0.x < -(width / 2),
{
}

} // verus!
