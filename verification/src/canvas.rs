use vstd::prelude::*;

verus! {

/// The part of a layer's frame the pointer grabs: the middle moves it, the
/// sides and corners resize it.
#[derive(Clone, Copy, PartialEq, Eq, Debug, Structural)]
pub enum Handle {
    Move,
    Left,
    Right,
    Top,
    Bottom,
    TopLeft,
    TopRight,
    BottomLeft,
    BottomRight,
}

impl Handle {
    /// Dragging this handle moves the left edge.
    pub fn moves_left(self) -> (moves: bool)
        ensures
            moves == (self == Handle::Left || self == Handle::TopLeft || self == Handle::BottomLeft),
    {
        matches!(self, Handle::Left | Handle::TopLeft | Handle::BottomLeft)
    }

    /// Dragging this handle moves the right edge.
    pub fn moves_right(self) -> (moves: bool)
        ensures
            moves == (self == Handle::Right || self == Handle::TopRight || self
                == Handle::BottomRight),
    {
        matches!(self, Handle::Right | Handle::TopRight | Handle::BottomRight)
    }

    /// Dragging this handle moves the top edge.
    pub fn moves_top(self) -> (moves: bool)
        ensures
            moves == (self == Handle::Top || self == Handle::TopLeft || self == Handle::TopRight),
    {
        matches!(self, Handle::Top | Handle::TopLeft | Handle::TopRight)
    }

    /// Dragging this handle moves the bottom edge.
    pub fn moves_bottom(self) -> (moves: bool)
        ensures
            moves == (self == Handle::Bottom || self == Handle::BottomLeft || self
                == Handle::BottomRight),
    {
        matches!(self, Handle::Bottom | Handle::BottomLeft | Handle::BottomRight)
    }
}

} // verus!
