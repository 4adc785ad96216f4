//! The mapping of host input primitives (key symbols, mouse buttons,
//! modifier state) into the toolkit's vocabulary.

use vstd::prelude::*;
use crate::keysyms::{
    Keysym, KEY_0, KEY_9, KEY_A, KEY_BackSpace, KEY_Delete, KEY_Down, KEY_End, KEY_Escape,
    KEY_Home, KEY_Insert, KEY_KP_0, KEY_KP_9, KEY_Left, KEY_Page_Down, KEY_Page_Up, KEY_Return,
    KEY_Right, KEY_Tab, KEY_Up, KEY_Z, KEY_a, KEY_space, KEY_z,
};

verus! {

/// A key of the toolkit.
#[derive(Clone, Copy, Debug, PartialEq, Eq, Structural)]
pub enum Key {
    ArrowDown,
    ArrowLeft,
    ArrowRight,
    ArrowUp,
    Escape,
    Tab,
    Backspace,
    Enter,
    Space,
    Insert,
    Delete,
    Home,
    End,
    PageUp,
    PageDown,
    Num0,
    Num1,
    Num2,
    Num3,
    Num4,
    Num5,
    Num6,
    Num7,
    Num8,
    Num9,
    A,
    B,
    C,
    D,
    E,
    F,
    G,
    H,
    I,
    J,
    K,
    L,
    M,
    N,
    O,
    P,
    Q,
    R,
    S,
    T,
    U,
    V,
    W,
    X,
    Y,
    Z,
}

/// A pointer button of the toolkit.
#[derive(Clone, Copy, Debug, PartialEq, Eq, Structural)]
pub enum PointerButton {
    /// Usually the left button.
    Primary,
    /// Usually the right button.
    Secondary,
    /// Usually the wheel.
    Middle,
}

/// The toolkit's record of the modifier keys.
#[derive(Clone, Copy, Debug, PartialEq, Eq, Structural)]
pub struct Modifiers {
    pub alt: bool,
    pub ctrl: bool,
    pub shift: bool,
    /// The command key of a Mac; on every other platform `false`.
    pub mac_cmd: bool,
    /// The key that starts a keyboard shortcut.
    pub command: bool,
}

/// A mouse button as the host reports it.
#[derive(Clone, Copy, Debug, PartialEq, Eq, Structural)]
pub enum MouseButton {
    Left,
    Middle,
    Right,
    /// Any further button, by its index.
    Other(u8),
}

/// The modifier keys as the host reports them.
#[derive(Clone, Copy, Debug, PartialEq, Eq, Structural)]
pub struct ModifiersState {
    pub ctrl: bool,
    pub alt: bool,
    pub shift: bool,
    pub caps_lock: bool,
    /// The logo key, also known as super, meta or windows key.
    pub logo: bool,
    pub num_lock: bool,
}

/// The digit key with value `d`, for `0 <= d <= 9`.
pub open spec fn digit_key(d: int) -> Key {
    if d == 0 {
        Key::Num0
    } else if d == 1 {
        Key::Num1
    } else if d == 2 {
        Key::Num2
    } else if d == 3 {
        Key::Num3
    } else if d == 4 {
        Key::Num4
    } else if d == 5 {
        Key::Num5
    } else if d == 6 {
        Key::Num6
    } else if d == 7 {
        Key::Num7
    } else if d == 8 {
        Key::Num8
    } else {
        Key::Num9
    }
}

/// The letter key at place `n` of the alphabet, for `0 <= n <= 25`.
pub open spec fn letter_key(n: int) -> Key {
    if n == 0 {
        Key::A
    } else if n == 1 {
        Key::B
    } else if n == 2 {
        Key::C
    } else if n == 3 {
        Key::D
    } else if n == 4 {
        Key::E
    } else if n == 5 {
        Key::F
    } else if n == 6 {
        Key::G
    } else if n == 7 {
        Key::H
    } else if n == 8 {
        Key::I
    } else if n == 9 {
        Key::J
    } else if n == 10 {
        Key::K
    } else if n == 11 {
        Key::L
    } else if n == 12 {
        Key::M
    } else if n == 13 {
        Key::N
    } else if n == 14 {
        Key::O
    } else if n == 15 {
        Key::P
    } else if n == 16 {
        Key::Q
    } else if n == 17 {
        Key::R
    } else if n == 18 {
        Key::S
    } else if n == 19 {
        Key::T
    } else if n == 20 {
        Key::U
    } else if n == 21 {
        Key::V
    } else if n == 22 {
        Key::W
    } else if n == 23 {
        Key::X
    } else if n == 24 {
        Key::Y
    } else {
        Key::Z
    }
}

/// The key table: the toolkit key that one key symbol stands for, if any.
///
/// Digits map from the main row and from the keypad, letters from their
/// small and their capital symbol. Every other symbol but the fifteen
/// named here has no entry.
pub open spec fn key_of_sym(sym: Keysym) -> Option<Key> {
    if sym == KEY_Down {
        Some(Key::ArrowDown)
    } else if sym == KEY_Left {
        Some(Key::ArrowLeft)
    } else if sym == KEY_Right {
        Some(Key::ArrowRight)
    } else if sym == KEY_Up {
        Some(Key::ArrowUp)
    } else if sym == KEY_Escape {
        Some(Key::Escape)
    } else if sym == KEY_Tab {
        Some(Key::Tab)
    } else if sym == KEY_BackSpace {
        Some(Key::Backspace)
    } else if sym == KEY_Return {
        Some(Key::Enter)
    } else if sym == KEY_space {
        Some(Key::Space)
    } else if sym == KEY_Insert {
        Some(Key::Insert)
    } else if sym == KEY_Delete {
        Some(Key::Delete)
    } else if sym == KEY_Home {
        Some(Key::Home)
    } else if sym == KEY_End {
        Some(Key::End)
    } else if sym == KEY_Page_Up {
        Some(Key::PageUp)
    } else if sym == KEY_Page_Down {
        Some(Key::PageDown)
    } else if KEY_0 <= sym <= KEY_9 {
        Some(digit_key(sym - KEY_0))
    } else if KEY_KP_0 <= sym <= KEY_KP_9 {
        Some(digit_key(sym - KEY_KP_0))
    } else if KEY_a <= sym <= KEY_z {
        Some(letter_key(sym - KEY_a))
    } else if KEY_A <= sym <= KEY_Z {
        Some(letter_key(sym - KEY_A))
    } else {
        None
    }
}

/// The key that a list of candidate symbols resolves to: that of the first
/// symbol, in the order given, that the key table maps; none where the
/// table maps none of them.
pub open spec fn resolve_key(syms: Seq<Keysym>) -> Option<Key>
    decreases syms.len(),
{
    if syms.len() == 0 {
        None
    } else if key_of_sym(syms[0]) is Some {
        key_of_sym(syms[0])
    } else {
        resolve_key(syms.drop_first())
    }
}

/// The toolkit button that a host button stands for, if any.
pub open spec fn button_of(button: MouseButton) -> Option<PointerButton> {
    match button {
        MouseButton::Left => Some(PointerButton::Primary),
        MouseButton::Middle => Some(PointerButton::Middle),
        MouseButton::Right => Some(PointerButton::Secondary),
        MouseButton::Other(_) => None,
    }
}

/// The toolkit's modifier record for a host modifier state.
pub open spec fn modifiers_of(modifiers: ModifiersState) -> Modifiers {
    Modifiers {
        alt: modifiers.alt,
        ctrl: modifiers.ctrl,
        shift: modifiers.shift,
        mac_cmd: false,
        command: modifiers.logo,
    }
}

/// Where the first `i` symbols have no entry in the key table, the list
/// resolves as what is left of it does.
pub proof fn lemma_resolve_key_skips_unmapped(syms: Seq<Keysym>, i: int)
    requires
        0 <= i <= syms.len(),
        forall|j: int| 0 <= j < i ==> key_of_sym(#[trigger] syms[j]) is None,
    ensures
        resolve_key(syms) == resolve_key(syms.skip(i)),
    decreases i,
{
    if i == 0 {
        assert(syms.skip(0) =~= syms);
    } else {
        let rest = syms.drop_first();
        assert(key_of_sym(syms[0]) is None);
        assert forall|j: int| 0 <= j < i - 1 implies key_of_sym(#[trigger] rest[j]) is None by {
            assert(rest[j] == syms[j + 1]);
        }
        lemma_resolve_key_skips_unmapped(rest, i - 1);
        assert(rest.skip(i - 1) =~= syms.skip(i));
    }
}

/// A list resolves to a key exactly where one of its symbols is the first
/// that the key table maps, and to that symbol's key; it resolves to
/// nothing exactly where the table maps none of its symbols.
pub proof fn lemma_resolve_key_is_first_mapped(syms: Seq<Keysym>)
    ensures
        match resolve_key(syms) {
            Some(key) => exists|i: int|
                0 <= i < syms.len() && key_of_sym(#[trigger] syms[i]) == Some(key) && forall|j: int|
                    0 <= j < i ==> key_of_sym(#[trigger] syms[j]) is None,
            None => forall|i: int| 0 <= i < syms.len() ==> key_of_sym(#[trigger] syms[i]) is None,
        },
    decreases syms.len(),
{
    if syms.len() == 0 {
    } else if key_of_sym(syms[0]) is Some {
        assert(key_of_sym(syms[0]) == Some(resolve_key(syms)->0));
    } else {
        let rest = syms.drop_first();
        lemma_resolve_key_is_first_mapped(rest);
        match resolve_key(rest) {
            Some(key) => {
                let i = choose|i: int|
                    0 <= i < rest.len() && key_of_sym(#[trigger] rest[i]) == Some(key) && forall|j: int|
                        0 <= j < i ==> key_of_sym(#[trigger] rest[j]) is None;
                assert(syms[i + 1] == rest[i]);
                assert forall|j: int| 0 <= j < i + 1 implies key_of_sym(#[trigger] syms[j]) is None by {
                    if j > 0 {
                        assert(syms[j] == rest[j - 1]);
                    }
                }
                assert(key_of_sym(syms[i + 1]) == Some(key));
            },
            None => {
                assert forall|i: int| 0 <= i < syms.len() implies key_of_sym(#[trigger] syms[i]) is None by {
                    if i > 0 {
                        assert(syms[i] == rest[i - 1]);
                    }
                }
            },
        }
    }
}

fn digit(d: u32) -> (key: Key)
    requires
        d <= 9,
    ensures
        key == digit_key(d as int),
{
    if d == 0 {
        Key::Num0
    } else if d == 1 {
        Key::Num1
    } else if d == 2 {
        Key::Num2
    } else if d == 3 {
        Key::Num3
    } else if d == 4 {
        Key::Num4
    } else if d == 5 {
        Key::Num5
    } else if d == 6 {
        Key::Num6
    } else if d == 7 {
        Key::Num7
    } else if d == 8 {
        Key::Num8
    } else {
        Key::Num9
    }
}

fn letter(n: u32) -> (key: Key)
    requires
        n <= 25,
    ensures
        key == letter_key(n as int),
{
    if n == 0 {
        Key::A
    } else if n == 1 {
        Key::B
    } else if n == 2 {
        Key::C
    } else if n == 3 {
        Key::D
    } else if n == 4 {
        Key::E
    } else if n == 5 {
        Key::F
    } else if n == 6 {
        Key::G
    } else if n == 7 {
        Key::H
    } else if n == 8 {
        Key::I
    } else if n == 9 {
        Key::J
    } else if n == 10 {
        Key::K
    } else if n == 11 {
        Key::L
    } else if n == 12 {
        Key::M
    } else if n == 13 {
        Key::N
    } else if n == 14 {
        Key::O
    } else if n == 15 {
        Key::P
    } else if n == 16 {
        Key::Q
    } else if n == 17 {
        Key::R
    } else if n == 18 {
        Key::S
    } else if n == 19 {
        Key::T
    } else if n == 20 {
        Key::U
    } else if n == 21 {
        Key::V
    } else if n == 22 {
        Key::W
    } else if n == 23 {
        Key::X
    } else if n == 24 {
        Key::Y
    } else {
        Key::Z
    }
}

/// Looks one key symbol up in the key table.
pub fn lookup_key(sym: Keysym) -> (key: Option<Key>)
    ensures
        key == key_of_sym(sym),
{
    if sym == KEY_Down {
        Some(Key::ArrowDown)
    } else if sym == KEY_Left {
        Some(Key::ArrowLeft)
    } else if sym == KEY_Right {
        Some(Key::ArrowRight)
    } else if sym == KEY_Up {
        Some(Key::ArrowUp)
    } else if sym == KEY_Escape {
        Some(Key::Escape)
    } else if sym == KEY_Tab {
        Some(Key::Tab)
    } else if sym == KEY_BackSpace {
        Some(Key::Backspace)
    } else if sym == KEY_Return {
        Some(Key::Enter)
    } else if sym == KEY_space {
        Some(Key::Space)
    } else if sym == KEY_Insert {
        Some(Key::Insert)
    } else if sym == KEY_Delete {
        Some(Key::Delete)
    } else if sym == KEY_Home {
        Some(Key::Home)
    } else if sym == KEY_End {
        Some(Key::End)
    } else if sym == KEY_Page_Up {
        Some(Key::PageUp)
    } else if sym == KEY_Page_Down {
        Some(Key::PageDown)
    } else if KEY_0 <= sym && sym <= KEY_9 {
        Some(digit(sym - KEY_0))
    } else if KEY_KP_0 <= sym && sym <= KEY_KP_9 {
        Some(digit(sym - KEY_KP_0))
    } else if KEY_a <= sym && sym <= KEY_z {
        Some(letter(sym - KEY_a))
    } else if KEY_A <= sym && sym <= KEY_Z {
        Some(letter(sym - KEY_A))
    } else {
        None
    }
}

/// Resolves the candidate symbols of one physical key to a toolkit key:
/// the key of the first symbol, in the order given, that the key table
/// maps. Symbols without an entry are passed over.
pub fn convert_key(keys: &[Keysym]) -> (key: Option<Key>)
    ensures
        key == resolve_key(keys@),
{
    let mut i: usize = 0;
    while i < keys.len()
        invariant
            i <= keys@.len(),
            forall|j: int| 0 <= j < i ==> key_of_sym(#[trigger] keys@[j]) is None,
        decreases keys@.len() - i,
    {
        let found = lookup_key(keys[i]);
        if found.is_some() {
            proof {
                lemma_resolve_key_skips_unmapped(keys@, i as int);
                assert(keys@.skip(i as int)[0] == keys@[i as int]);
            }
            return found;
        }
        i += 1;
    }
    proof {
        lemma_resolve_key_skips_unmapped(keys@, i as int);
    }
    None
}

/// Maps a host mouse button to the toolkit's: left to primary, right to
/// secondary, middle to middle. Any other button has no counterpart.
pub fn convert_button(button: MouseButton) -> (converted: Option<PointerButton>)
    ensures
        converted == button_of(button),
{
    match button {
        MouseButton::Left => Some(PointerButton::Primary),
        MouseButton::Middle => Some(PointerButton::Middle),
        MouseButton::Right => Some(PointerButton::Secondary),
        MouseButton::Other(_) => None,
    }
}

/// Maps the host's modifier state to the toolkit's record. Alt, control
/// and shift carry over, the logo key is the toolkit's command key, and
/// the Mac command key is never down.
pub fn convert_modifiers(modifiers: ModifiersState) -> (converted: Modifiers)
    ensures
        converted == modifiers_of(modifiers),
{
    Modifiers {
        alt: modifiers.alt,
        ctrl: modifiers.ctrl,
        shift: modifiers.shift,
        mac_cmd: false,
        command: modifiers.logo,
    }
}

} // verus!
