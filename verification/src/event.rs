//! The events that the adapter hands to the toolkit, and the input of one
//! toolkit pass.

use vstd::prelude::*;
use crate::geometry::{Point, Rectangle};
use crate::types::{Key, Modifiers, PointerButton};

verus! {

/// The frame rate that the toolkit is told to expect: its animations are
/// timed for a frame every sixtieth of a second, whatever the host's pace.
pub const PREDICTED_FRAMES_PER_SECOND: u32 = 60;

/// One input event in the toolkit's vocabulary.
#[derive(Clone, Copy, Debug, PartialEq, Eq, Structural)]
pub enum Event {
    /// A key went down or came up.
    Key { key: Key, pressed: bool, modifiers: Modifiers },
    /// The pointer moved to a position, in logical units.
    PointerMoved(Point),
    /// A pointer button went down or came up while the pointer was at `pos`.
    PointerButton { pos: Point, button: PointerButton, pressed: bool, modifiers: Modifiers },
    /// No pointer is left: hover and drag state is stale.
    PointerGone,
    /// The user scrolled. Each amount is the bit pattern of an IEEE 754
    /// single precision number; the adapter carries it and never reads it.
    Scroll { x_bits: u32, y_bits: u32 },
}

/// What one toolkit pass is fed.
#[derive(Debug, PartialEq, Eq)]
pub struct FrameInput {
    /// The area that the toolkit may use, in physical pixels.
    pub screen_rect: Rectangle,
    /// The frame rate from which the toolkit predicts the time to the next frame.
    pub frames_per_second: u32,
    /// The modifier keys that are down as the pass starts.
    pub modifiers: Modifiers,
    /// The events since the last pass, oldest first.
    pub events: Vec<Event>,
}

/// What a [`FrameInput`] holds, with its events as a sequence.
#[verifier::ext_equal]
pub struct FrameInputView {
    pub screen_rect: Rectangle,
    pub frames_per_second: u32,
    pub modifiers: Modifiers,
    pub events: Seq<Event>,
}

impl View for FrameInput {
    type V = FrameInputView;

    open spec fn view(&self) -> FrameInputView {
        FrameInputView {
            screen_rect: self.screen_rect,
            frames_per_second: self.frames_per_second,
            modifiers: self.modifiers,
            events: self.events@,
        }
    }
}

} // verus!
