//! What a widget receives from the pointer, apart from the position.
use vstd::prelude::*;

verus! {

/// The kind of a pointer event: the cursor moved, or the left button went
/// down or came up. Where it happened is decided apart, as whether the point
/// lies inside the widget.
#[derive(Clone, Copy, Debug, PartialEq, Eq, Structural)]
pub enum PointerKind {
    Move,
    Down,
    Up,
}

} // verus!
