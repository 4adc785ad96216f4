//! The adapter state of one surface: the toolkit context, the pointer
//! devices and the pointer position, and the queue of pending events.

use vstd::prelude::*;
use crate::context::{context_of, new_context};
use crate::event::{Event, FrameInput, PREDICTED_FRAMES_PER_SECOND};
use crate::frame::{EguiFrame, FrameView};
use crate::geometry::{Point, Rectangle, Size};
use crate::keysyms::Keysym;
use crate::model::StateView;
use crate::registry::{next_id, IdRegistry};
use crate::types::{convert_button, convert_key, convert_modifiers, ModifiersState, MouseButton};

verus! {

/// The state of one user interface surface.
pub struct EguiState {
    id: usize,
    ctx: egui::CtxRef,
    pointers: usize,
    last_pointer_position: Point,
    events: Vec<Event>,
}

impl View for EguiState {
    type V = StateView;

    closed spec fn view(&self) -> StateView {
        StateView {
            id: self.id,
            pointers: self.pointers as nat,
            last_pointer_position: self.last_pointer_position,
            events: self.events@,
        }
    }
}

impl EguiState {
    /// Creates the state of a new surface. Its identifier is allocated
    /// from `ids`, so it differs from that of every state made from the
    /// same registry before.
    pub fn new(ids: &mut IdRegistry) -> (state: EguiState)
        requires
            old(ids).wf(),
        ensures
            final(ids).wf(),
            final(ids)@ == old(ids)@.allocate(),
            !old(ids)@.live.contains(state@.id),
            state@ == StateView::new(old(ids)@.next_id()),
    {
        EguiState {
            id: next_id(ids),
            ctx: new_context(),
            pointers: 0,
            last_pointer_position: Point { x: 0, y: 0 },
            events: Vec::new(),
        }
    }

    /// The toolkit context of this surface.
    pub fn context(&self) -> &egui::Context {
        context_of(&self.ctx)
    }

    /// The handle to the toolkit context, for the code that runs the
    /// toolkit pass. It is this state's own handle: what the caller leaves
    /// in it is the handle of the state afterwards. The adapter's own state
    /// does not change through it.
    pub fn context_mut(&mut self) -> (ctx: &mut egui::CtxRef)
        ensures
            *ctx == old(self).toolkit(),
            final(self).toolkit() == *final(ctx),
            final(self)@ == old(self)@,
    {
        &mut self.ctx
    }

    /// The number of attached devices with pointer capability.
    pub fn pointers(&self) -> (pointers: usize)
        ensures
            pointers == self@.pointers,
    {
        self.pointers
    }

    /// The handle to the toolkit context that this state holds.
    pub closed spec fn toolkit(&self) -> egui::CtxRef {
        self.ctx
    }

    /// Records that an input device was attached. `pointer` says whether
    /// the device has pointer capability.
    pub fn handle_device_added(&mut self, pointer: bool)
        requires
            pointer ==> old(self)@.pointers < usize::MAX,
        ensures
            final(self)@ == old(self)@.device_added(pointer),
            final(self).toolkit() == old(self).toolkit(),
    {
        if pointer {
            self.pointers += 1;
        }
    }

    /// Records that an input device was detached. `pointer` says whether
    /// the device has pointer capability. A device without it changes
    /// nothing. Where the last pointer device goes, a pointer-gone event is
    /// queued, so that the toolkit drops its hover and drag state.
    pub fn handle_device_removed(&mut self, pointer: bool)
        requires
            pointer ==> old(self)@.pointers > 0,
        ensures
            final(self)@ == old(self)@.device_removed(pointer),
            final(self).toolkit() == old(self).toolkit(),
    {
        if pointer {
            self.pointers -= 1;
            if self.pointers == 0 {
                self.events.push(Event::PointerGone);
            }
        }
    }

    /// Passes a key press or release on. `raw_syms` are the candidate
    /// symbols of the key, `modifiers` is the modifier state at the time.
    ///
    /// Symbols that resolve to no toolkit key queue nothing. The host sees
    /// to it that every press is followed by a release of the same key.
    pub fn handle_keyboard(&mut self, raw_syms: &[Keysym], pressed: bool, modifiers: ModifiersState)
        ensures
            final(self)@ == old(self)@.keyboard(raw_syms@, pressed, modifiers),
            final(self).toolkit() == old(self).toolkit(),
    {
        match convert_key(raw_syms) {
            Some(key) => {
                self.events.push(Event::Key { key, pressed, modifiers: convert_modifiers(modifiers) });
            },
            None => {},
        }
    }

    /// Passes the new position of the pointer on, in logical units.
    pub fn handle_pointer_motion(&mut self, position: Point)
        ensures
            final(self)@ == old(self)@.pointer_motion(position),
            final(self).toolkit() == old(self).toolkit(),
    {
        self.last_pointer_position = position;
        self.events.push(Event::PointerMoved(position));
    }

    /// Passes a press or release of a mouse button on. The event is queued
    /// at the position of the last pointer motion, as the host reports
    /// buttons without one. A button that the toolkit does not know queues
    /// nothing.
    pub fn handle_pointer_button(&mut self, button: MouseButton, pressed: bool, modifiers: ModifiersState)
        ensures
            final(self)@ == old(self)@.pointer_button(button, pressed, modifiers),
            final(self).toolkit() == old(self).toolkit(),
    {
        match convert_button(button) {
            Some(button) => {
                self.events.push(
                    Event::PointerButton {
                        pos: self.last_pointer_position,
                        button,
                        pressed,
                        modifiers: convert_modifiers(modifiers),
                    },
                );
            },
            None => {},
        }
    }

    /// Passes a scroll on. Each amount is the bit pattern of an IEEE 754
    /// single precision number.
    pub fn handle_pointer_axis(&mut self, x_bits: u32, y_bits: u32)
        ensures
            final(self)@ == old(self)@.pointer_axis(x_bits, y_bits),
            final(self).toolkit() == old(self).toolkit(),
    {
        self.events.push(Event::Scroll { x_bits, y_bits });
    }

    /// Starts a new frame: takes every pending event out of the queue and
    /// returns the input of the toolkit pass together with the frame.
    ///
    /// - `area` is the space that the toolkit may use, in physical pixels;
    /// - `size` is the size of the buffer that the frame is painted into,
    ///   in physical pixels;
    /// - `modifiers` is the state of the modifier keys now.
    ///
    /// The input holds the events in the order in which they were queued;
    /// the queue is empty afterwards.
    pub fn run(&mut self, area: Rectangle, size: Size, modifiers: ModifiersState) -> (produced: (
        FrameInput,
        EguiFrame,
    ))
        ensures
            produced.0@ == old(self)@.frame_input(area, modifiers),
            produced.1@ == (FrameView { state_id: old(self)@.id, size }),
            final(self)@ == old(self)@.drained(),
            final(self).toolkit() == old(self).toolkit(),
    {
        let mut events: Vec<Event> = Vec::new();
        core::mem::swap(&mut self.events, &mut events);
        let input = FrameInput {
            screen_rect: area,
            frames_per_second: PREDICTED_FRAMES_PER_SECOND,
            modifiers: convert_modifiers(modifiers),
            events,
        };
        (input, EguiFrame::new(self.id, size))
    }
}

} // verus!
