//! The data that an entity can carry.

use vstd::prelude::*;

verus! {

/// A pair of scalars: a point or a displacement in the plane.
#[derive(Clone, Copy, Debug, PartialEq, Eq, Hash)]
pub struct Vec2 {
    pub x: i64,
    pub y: i64,
}

/// The centre of an entity.
#[derive(Clone, Copy, Debug, PartialEq, Eq, Hash)]
pub struct Position(pub Vec2);

/// The displacement of an entity per frame.
#[derive(Clone, Copy, Debug, PartialEq, Eq, Hash)]
pub struct Speed(pub Vec2);

/// The width and height of the box centred on an entity's position.
#[derive(Clone, Copy, Debug, PartialEq, Eq, Hash)]
pub struct Size {
    pub width: i64,
    pub height: i64,
}

impl Size {
    /// A box whose sides are both `x` long.
    pub fn square(x: i64) -> (s: Size)
        ensures
            s == (Size { width: x, height: x }),
    {
        Size { width: x, height: x }
    }
}

/// The sides of `s` as a vector: width along x, height along y.
pub fn size_to_vec2(s: &Size) -> (v: Vec2)
    ensures
        v == (Vec2 { x: s.width, y: s.height }),
{
    Vec2 { x: s.width, y: s.height }
}

/// What kind of thing an entity is. The passes pick their entities by it.
#[derive(Clone, Copy, Debug, PartialEq, Eq, Hash)]
pub enum Tag {
    /// The entity that the player steers.
    Bird,
    /// An obstacle.
    Wall,
}

/// One piece of data, ready to be attached to an entity.
#[derive(Clone, Copy, Debug, PartialEq, Eq, Hash)]
pub enum Component {
    Tag(Tag),
    Position(Position),
    Speed(Speed),
    Size(Size),
}

/// Everything one entity carries. Each part may be missing.
#[derive(Clone, Copy, Debug, PartialEq, Eq, Hash)]
pub struct Components {
    pub tag: Option<Tag>,
    pub position: Option<Position>,
    pub speed: Option<Speed>,
    pub size: Option<Size>,
}

impl Components {
    /// The bundle of an entity that carries nothing yet.
    pub open spec fn spec_empty() -> Components {
        Components { tag: None, position: None, speed: None, size: None }
    }

    /// This bundle with `component` put in the place of its kind.
    pub open spec fn spec_with(self, component: Component) -> Components {
        match component {
            Component::Tag(t) => Components { tag: Some(t), ..self },
            Component::Position(p) => Components { position: Some(p), ..self },
            Component::Speed(v) => Components { speed: Some(v), ..self },
            Component::Size(s) => Components { size: Some(s), ..self },
        }
    }

    /// Whether the bundle is tagged `tag`.
    pub open spec fn spec_has_tag(self, tag: Tag) -> bool {
        self.tag == Some(tag)
    }

    /// The bundle of an entity that carries nothing yet.
    #[verifier::when_used_as_spec(spec_empty)]
    pub fn empty() -> (c: Components)
        ensures
            c == Components::spec_empty(),
    {
        Components { tag: None, position: None, speed: None, size: None }
    }

    /// This bundle with `component` put in the place of its kind; a part of
    /// the same kind that was there before is replaced.
    #[verifier::when_used_as_spec(spec_with)]
    pub fn with(self, component: Component) -> (c: Components)
        ensures
            c == self.spec_with(component),
    {
        match component {
            Component::Tag(t) => Components { tag: Some(t), ..self },
            Component::Position(p) => Components { position: Some(p), ..self },
            Component::Speed(v) => Components { speed: Some(v), ..self },
            Component::Size(s) => Components { size: Some(s), ..self },
        }
    }

    /// Whether the bundle is tagged `tag`.
    #[verifier::when_used_as_spec(spec_has_tag)]
    pub fn has_tag(self, tag: Tag) -> (b: bool)
        ensures
            b == self.spec_has_tag(tag),
    {
        match (self.tag, tag) {
            (Some(Tag::Bird), Tag::Bird) => true,
            (Some(Tag::Wall), Tag::Wall) => true,
            _ => false,
        }
    }

    /// A complete bundle: all four parts present.
    pub fn full(tag: Tag, position: Position, speed: Speed, size: Size) -> (c: Components)
        ensures
            c == (Components {
                tag: Some(tag),
                position: Some(position),
                speed: Some(speed),
                size: Some(size),
            }),
    {
        Components { tag: Some(tag), position: Some(position), speed: Some(speed), size: Some(size) }
    }
}

} // verus!
