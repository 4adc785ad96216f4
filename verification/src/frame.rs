//! The frame that one toolkit pass produces, as far as the adapter
//! determines it.

use vstd::prelude::*;
use crate::geometry::{Point, Rectangle, Size};

verus! {

/// What a frame holds.
pub struct FrameView {
    /// The identifier of the adapter state that produced the frame.
    pub state_id: usize,
    /// The size of the target buffer, in physical pixels.
    pub size: Size,
}

/// The damage that every frame reports: one rectangle from the origin
/// over the largest extent that can be written down.
pub open spec fn full_damage() -> Rectangle {
    Rectangle { loc: Point { x: 0, y: 0 }, size: Size { w: i32::MAX, h: i32::MAX } }
}

/// One frame of the user interface. It does not change once produced.
#[derive(Debug)]
pub struct EguiFrame {
    state_id: usize,
    size: Size,
}

impl View for EguiFrame {
    type V = FrameView;

    closed spec fn view(&self) -> FrameView {
        FrameView { state_id: self.state_id, size: self.size }
    }
}

impl EguiFrame {
    /// The frame of the state with identifier `state_id`, for a buffer of
    /// `size` physical pixels.
    pub(crate) fn new(state_id: usize, size: Size) -> (frame: EguiFrame)
        ensures
            frame@ == (FrameView { state_id, size }),
    {
        EguiFrame { state_id, size }
    }

    /// The identifier of the adapter state that produced this frame. Frames
    /// of one surface share it, so the host can tell which frames follow
    /// one another.
    pub fn id(&self) -> (id: usize)
        ensures
            id == self@.state_id,
    {
        self.state_id
    }

    /// The size of the buffer that this frame is painted into, in physical
    /// pixels.
    pub fn size(&self) -> (size: Size)
        ensures
            size == self@.size,
    {
        self.size
    }

    /// The damage of this frame, in logical units. Every frame reports the
    /// whole surface as damaged, however little has changed.
    pub fn accumulated_damage(&self) -> (damage: Vec<Rectangle>)
        ensures
            damage@ == seq![full_damage()],
    {
        let mut damage: Vec<Rectangle> = Vec::new();
        damage.push(Rectangle { loc: Point { x: 0, y: 0 }, size: Size { w: i32::MAX, h: i32::MAX } });
        assert(damage@ =~= seq![full_damage()]);
        damage
    }
}

} // verus!
