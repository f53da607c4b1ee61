//! The game: its setup, and the order of the passes within a frame.

use crate::collision::{
    collision, game_over, pair_collides, spec_collision, spec_game_over, GameOverEvent,
};
use crate::components::{Components, Position, Size, Speed, Tag, Vec2};
use crate::motion::{
    bird_movement, bird_movement_input, law_bird_stays_in_viewport, movement,
    spec_bird_movement, spec_bird_movement_input, spec_movement,
};
use crate::store::{
    count_tagged, follows, is_live, is_stale, law_spawn_adds_one, lemma_count_none,
    lemma_count_same, lemma_first_vacant, slot_has_tag, slot_tag, spec_get, spec_spawn,
    spec_spawn_id, EntityId, Slot, World,
};
use crate::timestep::FixedTimestep;
use crate::viewport::{valid_extent, Viewport};
use crate::walls::{
    spawns_pair, spec_lower_wall, spec_spawn_walls, spec_upper_wall, spec_wall_despawner,
    wall_despawner, wall_spawner,
};
use vstd::prelude::*;

verus! {

/// The time between two pairs of walls: two and a half seconds, in microseconds.
pub const WALL_INTERVAL: u64 = 2_500_000;

/// The side of the bird's box.
pub const BIRD_SIZE: i64 = 30_000_000;

/// Where the bird starts, horizontally. It never moves sideways.
pub const BIRD_START_X: i64 = -200_000_000;

/// Where the bird starts, vertically: below any viewport less than a
/// thousand units high, so that the first frame sets it on the bottom edge.
pub const BIRD_START_Y: i64 = 500_000_000;

/// The bird as it is set up: at its starting point, at rest.
pub open spec fn spec_bird() -> Components {
    Components {
        tag: Some(Tag::Bird),
        position: Some(Position(Vec2 { x: BIRD_START_X, y: BIRD_START_Y })),
        speed: Some(Speed(Vec2 { x: 0, y: 0 })),
        size: Some(Size { width: BIRD_SIZE, height: BIRD_SIZE }),
    }
}

/// Spawns the bird and returns its identifier.
pub fn spawn_bird(world: &mut World) -> (id: EntityId)
    ensures
        final(world)@ == spec_spawn(old(world)@, spec_bird()),
        id == spec_spawn_id(old(world)@),
        count_tagged(final(world)@, Tag::Bird) == count_tagged(old(world)@, Tag::Bird) + 1,
        count_tagged(final(world)@, Tag::Wall) == count_tagged(old(world)@, Tag::Wall),
{
    proof {
        law_spawn_adds_one(world@, spec_bird(), Tag::Bird);
        law_spawn_adds_one(world@, spec_bird(), Tag::Wall);
    }
    world.spawn(
        Components::full(
            Tag::Bird,
            Position(Vec2 { x: BIRD_START_X, y: BIRD_START_Y }),
            Speed(Vec2 { x: 0, y: 0 }),
            Size::square(BIRD_SIZE),
        ),
    )
}

/// The store after the first three passes of a frame, in their order:
/// steering, kinematics, confinement. Confinement comes last because it
/// reads what the other two wrote.
pub open spec fn spec_steer_and_move(s: Seq<Slot>, height: int, jump_held: bool) -> Seq<Slot> {
    spec_bird_movement(spec_movement(spec_bird_movement_input(s, jump_held)), height)
}

/// The store after one run of the wall interval: the spawner, then the
/// despawner.
pub open spec fn spec_wall_tick(s: Seq<Slot>, width: int, height: int, draws: (u32, u32)) -> Seq<
    Slot,
> {
    spec_wall_despawner(spec_spawn_walls(s, width, height, draws.0, draws.1), width)
}

/// The store after as many runs of the wall interval as there are pairs of
/// draws, each run with its own pair.
pub open spec fn spec_wall_ticks(s: Seq<Slot>, width: int, height: int, draws: Seq<(u32, u32)>) -> Seq<
    Slot,
>
    decreases draws.len(),
{
    if draws.len() == 0 {
        s
    } else {
        spec_wall_tick(spec_wall_ticks(s, width, height, draws.drop_last()), width, height, draws.last())
    }
}

/// The store as the collision detector finds it in a frame: after the
/// bird's passes and the runs of the wall interval.
pub open spec fn spec_before_round_end(
    s: Seq<Slot>,
    width: int,
    height: int,
    jump_held: bool,
    draws: Seq<(u32, u32)>,
) -> Seq<Slot> {
    spec_wall_ticks(spec_steer_and_move(s, height, jump_held), width, height, draws)
}

/// The store after the last two passes of a frame: the collision detector
/// and the round-over handler.
pub open spec fn spec_round_end(s: Seq<Slot>) -> Seq<Slot> {
    spec_game_over(s, spec_collision(s))
}

/// The store after a whole frame in which the wall interval ran once for
/// each pair of draws.
pub open spec fn spec_frame(
    s: Seq<Slot>,
    width: int,
    height: int,
    jump_held: bool,
    draws: Seq<(u32, u32)>,
) -> Seq<Slot> {
    spec_round_end(spec_before_round_end(s, width, height, jump_held, draws))
}

/// Whether `after` and `event` are what a frame makes of `before`, if the
/// wall interval runs once for each pair of `draws`: the store after all
/// passes, and the signal if the detector found the bird on a wall.
pub open spec fn frame_outcome(
    before: Seq<Slot>,
    after: Seq<Slot>,
    event: Option<GameOverEvent>,
    width: int,
    height: int,
    jump_held: bool,
    draws: Seq<(u32, u32)>,
) -> bool {
    &&& after == spec_frame(before, width, height, jump_held, draws)
    &&& event is Some <==> spec_collision(
        spec_before_round_end(before, width, height, jump_held, draws),
    )
}

/// Whether `id` names an entity whose height lies within a viewport of the
/// given height.
pub open spec fn is_within(s: Seq<Slot>, id: EntityId, height: int) -> bool {
    &&& spec_get(s, id) matches Some(c)
    &&& c.position matches Some(p)
    &&& -(height / 2) <= p.0.y <= height / 2
}

/// What happened in a frame.
#[derive(Clone, Copy, Debug, PartialEq, Eq)]
pub struct FrameReport {
    /// How many pairs of walls were spawned.
    pub wall_pairs: u64,
    /// The signal, if the bird touched a wall. The walls are gone by then.
    pub game_over: Option<GameOverEvent>,
}

/// A game in progress.
#[derive(Debug)]
pub struct Game {
    pub world: World,
    /// The one bird.
    pub bird: EntityId,
    /// Paces the spawner and the despawner.
    pub wall_timer: FixedTimestep,
}

impl Game {
    /// Whether the game is in order: its store is well formed, and `bird`
    /// names the bird in it.
    pub open spec fn valid(&self) -> bool {
        well_formed(self.world@) && is_bird(self.world@, self.bird)
    }

    /// Sets the game up: a world with the bird in it and no walls, and a
    /// wall interval of which nothing has passed yet.
    pub fn new() -> (game: Game)
        ensures
            game.world@ == spec_spawn(Seq::<Slot>::empty(), spec_bird()),
            game.bird == spec_spawn_id(Seq::<Slot>::empty()),
            game.wall_timer.step() == WALL_INTERVAL,
            game.wall_timer.accumulator() == 0,
            count_tagged(game.world@, Tag::Wall) == 0,
            game.valid(),
    {
        let mut world: World = World::new();
        let bird: EntityId = spawn_bird(&mut world);
        let wall_timer: FixedTimestep = FixedTimestep::new(WALL_INTERVAL).unwrap();
        Game { world, bird, wall_timer }
    }

    /// Runs one frame: steering, kinematics, confinement; then, once for
    /// each wall interval that has passed, the spawner and the despawner;
    /// then the collision detector and the round-over handler.
    ///
    /// `elapsed` is the time since the previous frame, in microseconds. The
    /// walls that are spawned depend on what is drawn; the world is what
    /// [`spec_frame`] gives for some draws, one pair for each run.
    pub fn frame(&mut self, viewport: Viewport, jump_held: bool, elapsed: u64) -> (report:
        FrameReport)
        ensures
            final(self).bird == old(self).bird,
            final(self).wall_timer.step() == old(self).wall_timer.step(),
            final(self).wall_timer.accumulator() == (old(self).wall_timer.accumulator() + elapsed) % (
            old(self).wall_timer.step() as int),
            report.wall_pairs == (old(self).wall_timer.accumulator() + elapsed) / (
            old(self).wall_timer.step() as int),
            exists|draws: Seq<(u32, u32)>|
                draws.len() == report.wall_pairs && #[trigger] frame_outcome(
                    old(self).world@,
                    final(self).world@,
                    report.game_over,
                    viewport.width() as int,
                    viewport.height() as int,
                    jump_held,
                    draws,
                ),
            count_tagged(final(self).world@, Tag::Bird) == count_tagged(old(self).world@, Tag::Bird),
            follows(final(self).world@, old(self).world@),
            old(self).valid() ==> final(self).valid(),
            old(self).valid() ==> is_within(
                final(self).world@,
                final(self).bird,
                viewport.height() as int,
            ),
    {
        let ghost width = viewport.width() as int;
        let ghost height = viewport.height() as int;
        bird_movement_input(&mut self.world, jump_held);
        movement(&mut self.world);
        bird_movement(&mut self.world, viewport);
        let ghost moved = self.world@;
        let runs: u64 = self.wall_timer.update(elapsed);
        let ghost mut draws: Seq<(u32, u32)> = Seq::empty();
        let mut run: u64 = 0;
        while run < runs
            invariant
                run <= runs,
                draws.len() == run,
                width == viewport.width(),
                height == viewport.height(),
                self.world@ == spec_wall_ticks(moved, width, height, draws),
                self.bird == old(self).bird,
                self.wall_timer.step() == old(self).wall_timer.step(),
                self.wall_timer.accumulator() == (old(self).wall_timer.accumulator() + elapsed) % (
                old(self).wall_timer.step() as int),
            decreases runs - run,
        {
            let ghost before = self.world@;
            let ids: (EntityId, EntityId) = wall_spawner(&mut self.world, viewport);
            proof {
                let pair = choose|size_draw: u32, position_draw: u32| #[trigger]
                    spawns_pair(before, self.world@, ids, width, height, size_draw, position_draw);
                assert(draws.push(pair).drop_last() == draws);
                draws = draws.push(pair);
            }
            wall_despawner(&mut self.world, viewport);
            run += 1;
        }
        let event: Option<GameOverEvent> = collision(&self.world);
        game_over(&mut self.world, event);
        proof {
            use_type_invariant(viewport);
            assert(frame_outcome(
                old(self).world@,
                self.world@,
                event,
                width,
                height,
                jump_held,
                draws,
            ));
            law_frame_keeps_well_formed(old(self).world@, width, height, jump_held, draws);
            lemma_frame_follows(old(self).world@, width, height, jump_held, draws);
            if old(self).valid() {
                law_frame_keeps_the_bird(
                    old(self).world@,
                    width,
                    height,
                    jump_held,
                    draws,
                    old(self).bird,
                );
                law_frame_confines_the_bird(
                    old(self).world@,
                    width,
                    height,
                    jump_held,
                    draws,
                    old(self).bird,
                );
            }
        }
        FrameReport { wall_pairs: runs, game_over: event }
    }
}

/// Whether every entity is complete: tagged, with a position, a speed and
/// a size. In particular whatever has a speed has a position.
pub open spec fn all_complete(s: Seq<Slot>) -> bool {
    forall|i: int|
        0 <= i < s.len() ==> ((#[trigger] s[i]).components matches Some(c) ==> {
            &&& c.tag is Some
            &&& c.position is Some
            &&& c.speed is Some
            &&& c.size is Some
        })
}

/// Whether the store is one that a game can be in: there is exactly one
/// bird, and every entity is complete.
pub open spec fn well_formed(s: Seq<Slot>) -> bool {
    count_tagged(s, Tag::Bird) == 1 && all_complete(s)
}

/// Whether `id` names a live entity that is tagged as a bird.
pub open spec fn is_bird(s: Seq<Slot>, id: EntityId) -> bool {
    is_live(s, id) && slot_tag(s[id.index as int]) == Some(Tag::Bird)
}

/// The bird's three passes change no tag, empty no slot and raise no count.
proof fn lemma_steer_and_move_keeps_shape(s: Seq<Slot>, height: int, jump_held: bool)
    ensures
        spec_steer_and_move(s, height, jump_held).len() == s.len(),
        forall|i: int|
            0 <= i < s.len() ==> slot_tag(#[trigger] spec_steer_and_move(s, height, jump_held)[i])
                == slot_tag(s[i]),
        forall|i: int|
            0 <= i < s.len() ==> (#[trigger] spec_steer_and_move(s, height, jump_held)[i]).generation
                == s[i].generation,
        forall|i: int|
            0 <= i < s.len() ==> ((#[trigger] spec_steer_and_move(
                s,
                height,
                jump_held,
            )[i]).components is None <==> s[i].components is None),
        all_complete(s) ==> all_complete(spec_steer_and_move(s, height, jump_held)),
{
    let a = spec_bird_movement_input(s, jump_held);
    let b = spec_movement(a);
    let c = spec_bird_movement(b, height);
    assert forall|i: int| 0 <= i < s.len() implies {
        &&& c[i].generation == s[i].generation
        &&& (c[i].components is None <==> s[i].components is None)
        &&& slot_tag(c[i]) == slot_tag(s[i])
        &&& (s[i].components matches Some(x) ==> c[i].components matches Some(y) && (x.tag
            is Some ==> y.tag is Some) && (x.position is Some ==> y.position is Some) && (x.speed
            is Some ==> y.speed is Some) && (x.size is Some ==> y.size is Some))
    } by {
        assert(a[i].generation == s[i].generation);
        assert(b[i].generation == a[i].generation);
        assert(c[i].generation == b[i].generation);
    }
}

/// One run of the wall interval adds no bird and removes none, leaves
/// every entity complete, and brings no removed entity back.
proof fn lemma_wall_tick_keeps_shape(s: Seq<Slot>, width: int, height: int, draws: (u32, u32))
    ensures
        count_tagged(spec_wall_tick(s, width, height, draws), Tag::Bird) == count_tagged(
            s,
            Tag::Bird,
        ),
        all_complete(s) ==> all_complete(spec_wall_tick(s, width, height, draws)),
        follows(spec_wall_tick(s, width, height, draws), s),
        forall|i: int|
            0 <= i < s.len() && slot_tag(s[i]) == Some(Tag::Bird) ==> #[trigger] spec_wall_tick(
                s,
                width,
                height,
                draws,
            )[i] == s[i],
{
    let upper = spec_upper_wall(width, height, draws.0, draws.1);
    let lower = spec_lower_wall(width, height, draws.0, draws.1);
    let a = spec_spawn(s, upper);
    let b = spec_spawn(a, lower);
    let c = spec_wall_despawner(b, width);
    law_spawn_adds_one(s, upper, Tag::Bird);
    law_spawn_adds_one(a, lower, Tag::Bird);
    lemma_count_same(b, c, Tag::Bird);
    lemma_first_vacant(s, 0);
    lemma_first_vacant(a, 0);
    assert(follows(a, s));
    assert(follows(b, a));
    assert(follows(c, b));
    if all_complete(s) {
        assert(all_complete(a));
        assert(all_complete(b));
        assert(all_complete(c));
    }
}

/// Any number of runs of the wall interval keep the shape of the store as
/// one run does.
proof fn lemma_wall_ticks_keep_shape(
    s: Seq<Slot>,
    width: int,
    height: int,
    draws: Seq<(u32, u32)>,
)
    ensures
        count_tagged(spec_wall_ticks(s, width, height, draws), Tag::Bird) == count_tagged(
            s,
            Tag::Bird,
        ),
        all_complete(s) ==> all_complete(spec_wall_ticks(s, width, height, draws)),
        follows(spec_wall_ticks(s, width, height, draws), s),
        forall|i: int|
            0 <= i < s.len() && slot_tag(s[i]) == Some(Tag::Bird) ==> #[trigger] spec_wall_ticks(
                s,
                width,
                height,
                draws,
            )[i] == s[i],
    decreases draws.len(),
{
    if draws.len() > 0 {
        lemma_wall_ticks_keep_shape(s, width, height, draws.drop_last());
        lemma_wall_tick_keeps_shape(
            spec_wall_ticks(s, width, height, draws.drop_last()),
            width,
            height,
            draws.last(),
        );
    }
}

/// A frame keeps the store well formed: the one bird is still the one bird,
/// and every entity, the new walls included, is complete. This holds
/// whatever is drawn and however often the wall interval runs.
pub proof fn law_frame_keeps_well_formed(
    s: Seq<Slot>,
    width: int,
    height: int,
    jump_held: bool,
    draws: Seq<(u32, u32)>,
)
    ensures
        count_tagged(spec_frame(s, width, height, jump_held, draws), Tag::Bird) == count_tagged(
            s,
            Tag::Bird,
        ),
        all_complete(s) ==> all_complete(spec_frame(s, width, height, jump_held, draws)),
        well_formed(s) ==> well_formed(spec_frame(s, width, height, jump_held, draws)),
{
    let a = spec_steer_and_move(s, height, jump_held);
    let b = spec_wall_ticks(a, width, height, draws);
    let c = spec_round_end(b);
    lemma_steer_and_move_keeps_shape(s, height, jump_held);
    lemma_count_same(s, a, Tag::Bird);
    lemma_wall_ticks_keep_shape(a, width, height, draws);
    lemma_count_same(b, c, Tag::Bird);
}

/// No frame removes a bird or changes what it is: an identifier that names
/// a live bird before a frame names a live bird after it.
pub proof fn law_frame_keeps_the_bird(
    s: Seq<Slot>,
    width: int,
    height: int,
    jump_held: bool,
    draws: Seq<(u32, u32)>,
    id: EntityId,
)
    requires
        is_bird(s, id),
    ensures
        is_bird(spec_frame(s, width, height, jump_held, draws), id),
{
    let a = spec_steer_and_move(s, height, jump_held);
    let b = spec_wall_ticks(a, width, height, draws);
    lemma_steer_and_move_keeps_shape(s, height, jump_held);
    assert(is_bird(a, id));
    lemma_wall_ticks_keep_shape(a, width, height, draws);
    assert(b[id.index as int] == a[id.index as int]);
}

/// After a frame the bird is inside the viewport, wherever it was before
/// and however fast it was: a complete bird ends every frame at a height
/// within `-height/2 ..= height/2`.
pub proof fn law_frame_confines_the_bird(
    s: Seq<Slot>,
    width: int,
    height: int,
    jump_held: bool,
    draws: Seq<(u32, u32)>,
    id: EntityId,
)
    requires
        valid_extent(height),
        is_bird(s, id),
        all_complete(s),
    ensures
        is_within(spec_frame(s, width, height, jump_held, draws), id, height),
{
    let a = spec_bird_movement_input(s, jump_held);
    let b = spec_movement(a);
    let c = spec_bird_movement(b, height);
    let d = spec_wall_ticks(c, width, height, draws);
    let i = id.index as int;
    assert(a[i].generation == s[i].generation);
    assert(b[i].generation == a[i].generation);
    law_bird_stays_in_viewport(b, height, i);
    lemma_steer_and_move_keeps_shape(s, height, jump_held);
    lemma_wall_ticks_keep_shape(c, width, height, draws);
    assert(d[i] == c[i]);
}

/// The store after a frame follows the store before it.
proof fn lemma_frame_follows(
    s: Seq<Slot>,
    width: int,
    height: int,
    jump_held: bool,
    draws: Seq<(u32, u32)>,
)
    ensures
        follows(spec_frame(s, width, height, jump_held, draws), s),
{
    let a = spec_steer_and_move(s, height, jump_held);
    let b = spec_wall_ticks(a, width, height, draws);
    let c = spec_round_end(b);
    lemma_steer_and_move_keeps_shape(s, height, jump_held);
    assert(follows(a, s));
    lemma_wall_ticks_keep_shape(a, width, height, draws);
    assert(follows(c, b));
}

/// An entity that was removed stays removed through every later frame: its
/// identifier never names a live entity again.
pub proof fn law_frame_revives_nothing(
    s: Seq<Slot>,
    width: int,
    height: int,
    jump_held: bool,
    draws: Seq<(u32, u32)>,
    id: EntityId,
)
    requires
        is_stale(s, id),
    ensures
        is_stale(spec_frame(s, width, height, jump_held, draws), id),
        !is_live(spec_frame(s, width, height, jump_held, draws), id),
{
    lemma_frame_follows(s, width, height, jump_held, draws);
}

/// After the signal was consumed, a frame in which the wall interval does
/// not run raises no further signal and removes nothing: there are no
/// walls, so the frame is the bird's three passes and nothing else.
pub proof fn law_quiet_frame_after_round_over(
    s: Seq<Slot>,
    width: int,
    height: int,
    jump_held: bool,
)
    ensures
        ({
            let cleared = spec_game_over(s, true);
            let no_draws = Seq::<(u32, u32)>::empty();
            &&& !spec_collision(spec_before_round_end(cleared, width, height, jump_held, no_draws))
            &&& spec_frame(cleared, width, height, jump_held, no_draws) == spec_steer_and_move(
                cleared,
                height,
                jump_held,
            )
            &&& count_tagged(spec_frame(cleared, width, height, jump_held, no_draws), Tag::Wall)
                == 0
        }),
{
    let cleared = spec_game_over(s, true);
    let moved = spec_steer_and_move(cleared, height, jump_held);
    lemma_steer_and_move_keeps_shape(cleared, height, jump_held);
    assert forall|i: int| 0 <= i < moved.len() implies !slot_has_tag(moved[i], Tag::Wall) by {
        assert(!slot_has_tag(cleared[i], Tag::Wall));
    }
    assert forall|i: int, j: int| !pair_collides(moved, i, j) by {
        if 0 <= j < moved.len() {
            assert(!slot_has_tag(moved[j], Tag::Wall));
        }
    }
    lemma_count_none(moved, Tag::Wall);
}

} // verus!
