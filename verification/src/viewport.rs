//! The visible part of the world.

use crate::fixed::half;
use vstd::prelude::*;

verus! {

/// The largest width or height that a viewport can have: a million world units.
pub const MAX_VIEWPORT: i64 = 1_000_000_000_000;

/// Whether `extent` can be the width or the height of a viewport.
pub open spec fn valid_extent(extent: int) -> bool {
    0 <= extent <= MAX_VIEWPORT
}

/// The size of the window that shows the world. The world's origin is at
/// its centre, so it spans `-width/2 ..= width/2` by `-height/2 ..= height/2`.
#[derive(Clone, Copy, Debug, PartialEq, Eq)]
pub struct Viewport {
    width: i64,
    height: i64,
}

impl Viewport {
    /// Both sides are valid extents. This holds of every viewport.
    #[verifier::type_invariant]
    pub open spec fn in_range(self) -> bool {
        valid_extent(self.spec_width() as int) && valid_extent(self.spec_height() as int)
    }

    /// The width.
    pub closed spec fn spec_width(self) -> i64 {
        self.width
    }

    /// The height.
    pub closed spec fn spec_height(self) -> i64 {
        self.height
    }

    /// A viewport of the given size; `None` if a side is negative or longer
    /// than [`MAX_VIEWPORT`].
    pub fn new(width: i64, height: i64) -> (viewport: Option<Viewport>)
        ensures
            viewport is Some <==> valid_extent(width as int) && valid_extent(height as int),
            viewport matches Some(v) ==> v.spec_width() == width && v.spec_height() == height,
    {
        if 0 <= width && width <= MAX_VIEWPORT && 0 <= height && height <= MAX_VIEWPORT {
            Some(Viewport { width, height })
        } else {
            None
        }
    }

    /// The width.
    #[verifier::when_used_as_spec(spec_width)]
    pub fn width(self) -> (w: i64)
        ensures
            w == self.spec_width(),
            valid_extent(w as int),
    {
        proof {
            use_type_invariant(self);
        }
        self.width
    }

    /// The height.
    #[verifier::when_used_as_spec(spec_height)]
    pub fn height(self) -> (h: i64)
        ensures
            h == self.spec_height(),
            valid_extent(h as int),
    {
        proof {
            use_type_invariant(self);
        }
        self.height
    }

    /// The distance from the centre to the left and right edges, rounded down.
    pub fn half_width(self) -> (w: i64)
        ensures
            w == self.spec_width() / 2,
            0 <= w <= MAX_VIEWPORT / 2,
    {
        half(self.width())
    }

    /// The distance from the centre to the top and bottom edges, rounded down.
    pub fn half_height(self) -> (h: i64)
        ensures
            h == self.spec_height() / 2,
            0 <= h <= MAX_VIEWPORT / 2,
    {
        half(self.height())
    }
}

} // verus!
