//! The width a drag asks for, and the floor it is held to.

use vstd::prelude::*;

verus! {

/// The width that tells the layout to pick the sidebar's natural size.
/// It is also the smallest width a drag can ask for.
pub const NATURAL_WIDTH: i64 = -1;

/// The width asked for when the pointer went down at `start_x` and has
/// since moved by `offset_x` in total: their sum, but never less than
/// [`NATURAL_WIDTH`]. There is no upper limit.
pub open spec fn dragged_width(start_x: int, offset_x: int) -> int {
    if start_x + offset_x >= NATURAL_WIDTH {
        start_x + offset_x
    } else {
        NATURAL_WIDTH as int
    }
}

/// A requested sidebar width in pixels, at least [`NATURAL_WIDTH`].
#[derive(Clone, Copy, Debug, PartialEq, Eq)]
pub struct SidebarWidthRequest {
    px: i64,
}

impl View for SidebarWidthRequest {
    type V = int;

    closed spec fn view(&self) -> int {
        self.px as int
    }
}

impl SidebarWidthRequest {
    #[verifier::type_invariant]
    spec fn at_least_natural(self) -> bool {
        self.px >= NATURAL_WIDTH
    }

    /// The request for the sidebar's natural size.
    pub fn natural() -> (request: Self)
        ensures
            request@ == NATURAL_WIDTH,
    {
        SidebarWidthRequest { px: NATURAL_WIDTH }
    }

    /// The request a drag makes: see [`dragged_width`].
    pub fn from_drag(start_x: i32, offset_x: i32) -> (request: Self)
        ensures
            request@ == dragged_width(start_x as int, offset_x as int),
    {
        let raw: i64 = start_x as i64 + offset_x as i64;
        if raw < NATURAL_WIDTH {
            SidebarWidthRequest { px: NATURAL_WIDTH }
        } else {
            SidebarWidthRequest { px: raw }
        }
    }

    /// The requested width in pixels.
    pub fn pixels(&self) -> (px: i64)
        ensures
            px == self@,
            px >= NATURAL_WIDTH,
    {
        proof {
            use_type_invariant(self);
        }
        self.px
    }

    /// Whether this is the request for the natural size.
    pub fn is_natural(&self) -> (natural: bool)
        ensures
            natural == (self@ == NATURAL_WIDTH),
    {
        self.px == NATURAL_WIDTH
    }

    /// The requested width for a toolkit whose width property has 32
    /// bits: the width itself where it fits, and the largest 32-bit
    /// value above that.
    pub fn saturating_i32(&self) -> (px: i32)
        ensures
            self@ <= i32::MAX ==> px == self@,
            self@ > i32::MAX ==> px == i32::MAX,
            px >= NATURAL_WIDTH,
    {
        proof {
            use_type_invariant(self);
        }
        if self.px > i32::MAX as i64 {
            i32::MAX
        } else {
            self.px as i32
        }
    }
}

} // verus!
