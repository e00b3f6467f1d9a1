//! The screen-layout coordinate pair and its componentwise arithmetic.

use vstd::prelude::*;

verus! {

/// A two-dimensional size or position used by the screen layout.
#[derive(Clone, Copy, Debug, PartialEq, Eq, Structural)]
pub struct UiDims {
    pub x: i32,
    pub y: i32,
}

impl UiDims {
    /// A pair from its two components.
    pub fn new(x: i32, y: i32) -> (r: UiDims)
        ensures
            r == (UiDims { x, y }),
    {
        UiDims { x, y }
    }

    /// Componentwise sum.
    pub fn add(self, rhs: UiDims) -> (r: UiDims)
        requires
            i32::MIN <= self.x + rhs.x <= i32::MAX,
            i32::MIN <= self.y + rhs.y <= i32::MAX,
        ensures
            r.x == self.x + rhs.x,
            r.y == self.y + rhs.y,
    {
        UiDims { x: self.x + rhs.x, y: self.y + rhs.y }
    }

    /// Componentwise difference.
    pub fn sub(self, rhs: UiDims) -> (r: UiDims)
        requires
            i32::MIN <= self.x - rhs.x <= i32::MAX,
            i32::MIN <= self.y - rhs.y <= i32::MAX,
        ensures
            r.x == self.x - rhs.x,
            r.y == self.y - rhs.y,
    {
        UiDims { x: self.x - rhs.x, y: self.y - rhs.y }
    }

    /// Componentwise product.
    pub fn mul(self, rhs: UiDims) -> (r: UiDims)
        requires
            i32::MIN <= self.x * rhs.x <= i32::MAX,
            i32::MIN <= self.y * rhs.y <= i32::MAX,
        ensures
            r.x == self.x * rhs.x,
            r.y == self.y * rhs.y,
    {
        UiDims { x: self.x * rhs.x, y: self.y * rhs.y }
    }
}

impl From<(i32, i32)> for UiDims {
    /// The pair read as layout coordinates.
    fn from(d: (i32, i32)) -> (r: UiDims) {
        UiDims { x: d.0, y: d.1 }
    }
}

impl vstd::std_specs::convert::FromSpecImpl<(i32, i32)> for UiDims {
    open spec fn obeys_from_spec() -> bool {
        true
    }

    open spec fn from_spec(d: (i32, i32)) -> UiDims {
        UiDims { x: d.0, y: d.1 }
    }
}

/// Anything the layout can read as a `UiDims`.
pub trait IntoUidims: Sized {
    /// The coordinates this value stands for.
    spec fn spec_into_ui(self) -> UiDims;

    /// This value as layout coordinates.
    fn into_ui(self) -> (r: UiDims)
        ensures
            r == self.spec_into_ui(),
    ;
}

impl IntoUidims for (i32, i32) {
    open spec fn spec_into_ui(self) -> UiDims {
        UiDims { x: self.0, y: self.1 }
    }

    fn into_ui(self) -> (r: UiDims) {
        UiDims { x: self.0, y: self.1 }
    }
}

impl IntoUidims for UiDims {
    open spec fn spec_into_ui(self) -> UiDims {
        self
    }

    fn into_ui(self) -> (r: UiDims) {
        self
    }
}

} // verus!
