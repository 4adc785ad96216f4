//! The adapter state as a mathematical value, what each input call makes
//! of it, and what follows for sequences of calls.

use vstd::prelude::*;
use crate::event::{Event, FrameInputView, PREDICTED_FRAMES_PER_SECOND};
use crate::geometry::{Point, Rectangle};
use crate::keysyms::Keysym;
use crate::types::{button_of, modifiers_of, resolve_key, Key, ModifiersState, MouseButton, PointerButton};

verus! {

/// What an adapter state holds.
#[verifier::ext_equal]
pub struct StateView {
    /// The identifier of the surface.
    pub id: usize,
    /// The number of attached devices with pointer capability.
    pub pointers: nat,
    /// Where the pointer was last seen, in logical units.
    pub last_pointer_position: Point,
    /// The events that no toolkit pass has consumed yet, oldest first.
    pub events: Seq<Event>,
}

/// One call of an input handler, with its arguments.
pub enum InputCall {
    DeviceAdded { pointer: bool },
    DeviceRemoved { pointer: bool },
    Keyboard { raw_syms: Seq<Keysym>, pressed: bool, modifiers: ModifiersState },
    PointerMotion { position: Point },
    PointerButton { button: MouseButton, pressed: bool, modifiers: ModifiersState },
    PointerAxis { x_bits: u32, y_bits: u32 },
}

impl StateView {
    /// The state of a new surface with identifier `id`: no pointer device,
    /// the pointer at the origin, nothing pending.
    pub open spec fn new(id: usize) -> StateView {
        StateView {
            id,
            pointers: 0,
            last_pointer_position: Point { x: 0, y: 0 },
            events: Seq::empty(),
        }
    }

    /// The state with `event` appended to the pending events.
    pub open spec fn emit(self, event: Event) -> StateView {
        StateView { events: self.events.push(event), ..self }
    }

    /// A device was attached. One with pointer capability is counted.
    pub open spec fn device_added(self, pointer: bool) -> StateView {
        StateView { pointers: if pointer { self.pointers + 1 } else { self.pointers }, ..self }
    }

    /// A device was detached. One without pointer capability changes
    /// nothing. One with pointer capability is no longer counted; where
    /// that brings the count to zero, the toolkit is told that the pointer
    /// is gone.
    pub open spec fn device_removed(self, pointer: bool) -> StateView {
        if pointer && self.pointers > 0 {
            let counted = StateView { pointers: (self.pointers - 1) as nat, ..self };
            if counted.pointers == 0 {
                counted.emit(Event::PointerGone)
            } else {
                counted
            }
        } else {
            self
        }
    }

    /// A key went down or came up. Where its symbols resolve to a toolkit
    /// key, a key event is emitted; where they do not, nothing happens.
    pub open spec fn keyboard(self, raw_syms: Seq<Keysym>, pressed: bool, modifiers: ModifiersState) -> StateView {
        match resolve_key(raw_syms) {
            Some(key) => self.emit(Event::Key { key, pressed, modifiers: modifiers_of(modifiers) }),
            None => self,
        }
    }

    /// The pointer moved: the position is kept and reported.
    pub open spec fn pointer_motion(self, position: Point) -> StateView {
        StateView { last_pointer_position: position, ..self }.emit(Event::PointerMoved(position))
    }

    /// A mouse button went down or came up. Where the toolkit knows the
    /// button, a button event at the last pointer position is emitted;
    /// where it does not, nothing happens.
    pub open spec fn pointer_button(self, button: MouseButton, pressed: bool, modifiers: ModifiersState) -> StateView {
        match button_of(button) {
            Some(button) => self.emit(
                Event::PointerButton {
                    pos: self.last_pointer_position,
                    button,
                    pressed,
                    modifiers: modifiers_of(modifiers),
                },
            ),
            None => self,
        }
    }

    /// The user scrolled: the amounts are reported as they came.
    pub open spec fn pointer_axis(self, x_bits: u32, y_bits: u32) -> StateView {
        self.emit(Event::Scroll { x_bits, y_bits })
    }

    /// The input of a toolkit pass over `area`: every pending event, oldest
    /// first.
    pub open spec fn frame_input(self, area: Rectangle, modifiers: ModifiersState) -> FrameInputView {
        FrameInputView {
            screen_rect: area,
            frames_per_second: PREDICTED_FRAMES_PER_SECOND,
            modifiers: modifiers_of(modifiers),
            events: self.events,
        }
    }

    /// The state after a toolkit pass: nothing is pending.
    pub open spec fn drained(self) -> StateView {
        StateView { events: Seq::empty(), ..self }
    }

    /// The state after one input call.
    pub open spec fn handle(self, call: InputCall) -> StateView {
        match call {
            InputCall::DeviceAdded { pointer } => self.device_added(pointer),
            InputCall::DeviceRemoved { pointer } => self.device_removed(pointer),
            InputCall::Keyboard { raw_syms, pressed, modifiers } => self.keyboard(raw_syms, pressed, modifiers),
            InputCall::PointerMotion { position } => self.pointer_motion(position),
            InputCall::PointerButton { button, pressed, modifiers } => self.pointer_button(button, pressed, modifiers),
            InputCall::PointerAxis { x_bits, y_bits } => self.pointer_axis(x_bits, y_bits),
        }
    }

    /// The events that one input call emits in this state: one or none.
    pub open spec fn emitted(self, call: InputCall) -> Seq<Event> {
        self.handle(call).events.skip(self.events.len() as int)
    }

    /// The state after a sequence of input calls, made in order.
    pub open spec fn handle_all(self, calls: Seq<InputCall>) -> StateView
        decreases calls.len(),
    {
        if calls.len() == 0 {
            self
        } else {
            self.handle(calls[0]).handle_all(calls.drop_first())
        }
    }

    /// The events that a sequence of input calls emits: those of the first
    /// call, then those of the second, and so on.
    pub open spec fn emitted_all(self, calls: Seq<InputCall>) -> Seq<Event>
        decreases calls.len(),
    {
        if calls.len() == 0 {
            Seq::empty()
        } else {
            self.emitted(calls[0]) + self.handle(calls[0]).emitted_all(calls.drop_first())
        }
    }
}

/// An input call appends at most one event to the pending events, and
/// changes none that was pending.
pub proof fn lemma_call_appends(s: StateView, call: InputCall)
    ensures
        s.handle(call).id == s.id,
        s.handle(call).events == s.events + s.emitted(call),
        s.emitted(call).len() <= 1,
{
    let after = s.handle(call).events;
    assert(after =~= s.events + after.skip(s.events.len() as int));
}

/// After any sequence of input calls the pending events
/// are those that were pending before, followed by what the calls emitted,
/// in the order of the calls. A toolkit pass is then fed exactly these
/// events in this order, and leaves nothing pending.
pub proof fn lemma_events_keep_call_order(
    s: StateView,
    calls: Seq<InputCall>,
    area: Rectangle,
    modifiers: ModifiersState,
)
    ensures
        s.handle_all(calls).events == s.events + s.emitted_all(calls),
        s.handle_all(calls).frame_input(area, modifiers).events == s.events + s.emitted_all(calls),
        s.handle_all(calls).drained().events == Seq::<Event>::empty(),
    decreases calls.len(),
{
    if calls.len() > 0 {
        let next = s.handle(calls[0]);
        lemma_call_appends(s, calls[0]);
        lemma_events_keep_call_order(next, calls.drop_first(), area, modifiers);
        assert(s.handle_all(calls).events =~= s.events + s.emitted_all(calls));
    } else {
        assert(s.events =~= s.events + s.emitted_all(calls));
    }
}

/// Where no pointer device is attached, a pointer device that is added
/// and then removed leaves a pointer-gone event as the last pending event.
pub proof fn lemma_last_device_removed_emits_pointer_gone(s: StateView)
    requires
        s.pointers == 0,
    ensures
        s.device_added(true).device_removed(true).events == s.events.push(Event::PointerGone),
        s.device_added(true).device_removed(true).events.last() == Event::PointerGone,
        s.device_added(true).device_removed(true).pointers == 0,
{
}

/// After two pointer devices were added, the removal of one device emits
/// nothing, as a pointer device is left.
pub proof fn lemma_one_of_two_removed_emits_nothing(s: StateView, removed_has_pointer: bool)
    ensures
        s.device_added(true).device_added(true).device_removed(removed_has_pointer).events == s.events,
        s.device_added(true).device_added(true).device_removed(removed_has_pointer).pointers >= 1,
{
}

/// A device without pointer capability comes and goes without a trace:
/// neither the count nor the pending events change.
pub proof fn lemma_device_without_pointer_is_inert(s: StateView)
    ensures
        s.device_added(false) == s,
        s.device_removed(false) == s,
{
}

/// A press and a release whose symbols resolve to the same
/// key emit exactly two key events, the first pressed, the second
/// released, whatever the symbols and the modifier state are at each of
/// the two.
pub proof fn lemma_press_and_release_emit_two_events(
    s: StateView,
    key: Key,
    press_syms: Seq<Keysym>,
    press_modifiers: ModifiersState,
    release_syms: Seq<Keysym>,
    release_modifiers: ModifiersState,
)
    requires
        resolve_key(press_syms) == Some(key),
        resolve_key(release_syms) == Some(key),
    ensures
        s.keyboard(press_syms, true, press_modifiers).keyboard(release_syms, false, release_modifiers).events
            == s.events + seq![
            Event::Key { key, pressed: true, modifiers: modifiers_of(press_modifiers) },
            Event::Key { key, pressed: false, modifiers: modifiers_of(release_modifiers) },
        ],
{
    let after = s.keyboard(press_syms, true, press_modifiers).keyboard(
        release_syms,
        false,
        release_modifiers,
    ).events;
    assert(after =~= s.events + seq![
        Event::Key { key, pressed: true, modifiers: modifiers_of(press_modifiers) },
        Event::Key { key, pressed: false, modifiers: modifiers_of(release_modifiers) },
    ]);
}

/// A button event that follows a motion carries
/// the position of that motion.
pub proof fn lemma_button_event_is_at_last_motion(
    s: StateView,
    position: Point,
    button: MouseButton,
    known: PointerButton,
    pressed: bool,
    modifiers: ModifiersState,
)
    requires
        button_of(button) == Some(known),
    ensures
        s.pointer_motion(position).pointer_button(button, pressed, modifiers).events == s.events + seq![
            Event::PointerMoved(position),
            Event::PointerButton { pos: position, button: known, pressed, modifiers: modifiers_of(modifiers) },
        ],
{
    let after = s.pointer_motion(position).pointer_button(button, pressed, modifiers).events;
    assert(after =~= s.events + seq![
        Event::PointerMoved(position),
        Event::PointerButton { pos: position, button: known, pressed, modifiers: modifiers_of(modifiers) },
    ]);
}

/// Key symbols that resolve to no key, and a
/// mouse button that the toolkit does not know, leave the state as it was.
pub proof fn lemma_unmapped_input_is_inert(
    s: StateView,
    raw_syms: Seq<Keysym>,
    button: MouseButton,
    pressed: bool,
    modifiers: ModifiersState,
)
    ensures
        resolve_key(raw_syms) is None ==> s.keyboard(raw_syms, pressed, modifiers) == s,
        button_of(button) is None ==> s.pointer_button(button, pressed, modifiers) == s,
{
}

} // verus!
