//! Keys, key codes and the decisions of the low-level keyboard hook.
use vstd::prelude::*;

verus! {

/// A virtual-key code.
#[derive(Clone, Copy, Debug, PartialEq, Eq, Structural)]
pub struct KeyCode(pub u16);

/// A key of the keyboard. `Cmd`, `Win`, `Alt`, `Ctrl` and `Shift` stand for
/// either of the left and right keys of that kind and have no key code of
/// their own.
#[derive(Clone, Copy, Debug, PartialEq, Eq, Structural)]
pub enum Key {
    Cmd,
    Win,
    Alt,
    Ctrl,
    Shift,
    A,
    B,
    C,
    D,
    E,
    F,
    G,
    H,
    I,
    J,
    K,
    L,
    M,
    N,
    O,
    P,
    Q,
    R,
    S,
    T,
    U,
    V,
    W,
    X,
    Y,
    Z,
    D0,
    D1,
    D2,
    D3,
    D4,
    D5,
    D6,
    D7,
    D8,
    D9,
    F1,
    F2,
    F3,
    F4,
    F5,
    F6,
    F7,
    F8,
    F9,
    F10,
    F11,
    F12,
    LWin,
    RWin,
    LAlt,
    RAlt,
    LCtrl,
    RCtrl,
    LShift,
    RShift,
    Space,
    Enter,
    Escape,
    Tab,
    Backspace,
    Delete,
    Left,
    Up,
    Right,
    Down,
}

/// `VK_LWIN` and `VK_RWIN`.
pub const VK_LWIN: u16 = 0x5B;
pub const VK_RWIN: u16 = 0x5C;

/// `VK_LMENU` and `VK_RMENU` (the Alt keys).
pub const VK_LMENU: u16 = 0xA4;
pub const VK_RMENU: u16 = 0xA5;

/// `VK_LCONTROL` and `VK_RCONTROL`.
pub const VK_LCONTROL: u16 = 0xA2;
pub const VK_RCONTROL: u16 = 0xA3;

/// `VK_LSHIFT` and `VK_RSHIFT`.
pub const VK_LSHIFT: u16 = 0xA0;
pub const VK_RSHIFT: u16 = 0xA1;

/// `WM_KEYDOWN` and `WM_SYSKEYDOWN`: the messages of a key press.
pub const WM_KEYDOWN: u32 = 0x0100;
pub const WM_SYSKEYDOWN: u32 = 0x0104;

/// The virtual-key code of a key, if it has one of its own.
pub open spec fn spec_key_code(key: Key) -> Option<u16> {
    match key {
        Key::A => Some(0x41u16),
        Key::B => Some(0x42u16),
        Key::C => Some(0x43u16),
        Key::D => Some(0x44u16),
        Key::E => Some(0x45u16),
        Key::F => Some(0x46u16),
        Key::G => Some(0x47u16),
        Key::H => Some(0x48u16),
        Key::I => Some(0x49u16),
        Key::J => Some(0x4Au16),
        Key::K => Some(0x4Bu16),
        Key::L => Some(0x4Cu16),
        Key::M => Some(0x4Du16),
        Key::N => Some(0x4Eu16),
        Key::O => Some(0x4Fu16),
        Key::P => Some(0x50u16),
        Key::Q => Some(0x51u16),
        Key::R => Some(0x52u16),
        Key::S => Some(0x53u16),
        Key::T => Some(0x54u16),
        Key::U => Some(0x55u16),
        Key::V => Some(0x56u16),
        Key::W => Some(0x57u16),
        Key::X => Some(0x58u16),
        Key::Y => Some(0x59u16),
        Key::Z => Some(0x5Au16),
        Key::D0 => Some(0x30u16),
        Key::D1 => Some(0x31u16),
        Key::D2 => Some(0x32u16),
        Key::D3 => Some(0x33u16),
        Key::D4 => Some(0x34u16),
        Key::D5 => Some(0x35u16),
        Key::D6 => Some(0x36u16),
        Key::D7 => Some(0x37u16),
        Key::D8 => Some(0x38u16),
        Key::D9 => Some(0x39u16),
        Key::F1 => Some(0x70u16),
        Key::F2 => Some(0x71u16),
        Key::F3 => Some(0x72u16),
        Key::F4 => Some(0x73u16),
        Key::F5 => Some(0x74u16),
        Key::F6 => Some(0x75u16),
        Key::F7 => Some(0x76u16),
        Key::F8 => Some(0x77u16),
        Key::F9 => Some(0x78u16),
        Key::F10 => Some(0x79u16),
        Key::F11 => Some(0x7Au16),
        Key::F12 => Some(0x7Bu16),
        Key::LWin => Some(0x5Bu16),
        Key::RWin => Some(0x5Cu16),
        Key::LAlt => Some(0xA4u16),
        Key::RAlt => Some(0xA5u16),
        Key::LCtrl => Some(0xA2u16),
        Key::RCtrl => Some(0xA3u16),
        Key::LShift => Some(0xA0u16),
        Key::RShift => Some(0xA1u16),
        Key::Space => Some(0x20u16),
        Key::Enter => Some(0x0Du16),
        Key::Escape => Some(0x1Bu16),
        Key::Tab => Some(0x09u16),
        Key::Backspace => Some(0x08u16),
        Key::Delete => Some(0x2Eu16),
        Key::Left => Some(0x25u16),
        Key::Up => Some(0x26u16),
        Key::Right => Some(0x27u16),
        Key::Down => Some(0x28u16),
        Key::Cmd | Key::Win | Key::Alt | Key::Ctrl | Key::Shift => None,
    }
}

/// The key of a virtual-key code, if the code names one.
pub open spec fn spec_key_of_code(code: u16) -> Option<Key> {
    match code {
        0x41u16 => Some(Key::A),
        0x42u16 => Some(Key::B),
        0x43u16 => Some(Key::C),
        0x44u16 => Some(Key::D),
        0x45u16 => Some(Key::E),
        0x46u16 => Some(Key::F),
        0x47u16 => Some(Key::G),
        0x48u16 => Some(Key::H),
        0x49u16 => Some(Key::I),
        0x4Au16 => Some(Key::J),
        0x4Bu16 => Some(Key::K),
        0x4Cu16 => Some(Key::L),
        0x4Du16 => Some(Key::M),
        0x4Eu16 => Some(Key::N),
        0x4Fu16 => Some(Key::O),
        0x50u16 => Some(Key::P),
        0x51u16 => Some(Key::Q),
        0x52u16 => Some(Key::R),
        0x53u16 => Some(Key::S),
        0x54u16 => Some(Key::T),
        0x55u16 => Some(Key::U),
        0x56u16 => Some(Key::V),
        0x57u16 => Some(Key::W),
        0x58u16 => Some(Key::X),
        0x59u16 => Some(Key::Y),
        0x5Au16 => Some(Key::Z),
        0x30u16 => Some(Key::D0),
        0x31u16 => Some(Key::D1),
        0x32u16 => Some(Key::D2),
        0x33u16 => Some(Key::D3),
        0x34u16 => Some(Key::D4),
        0x35u16 => Some(Key::D5),
        0x36u16 => Some(Key::D6),
        0x37u16 => Some(Key::D7),
        0x38u16 => Some(Key::D8),
        0x39u16 => Some(Key::D9),
        0x70u16 => Some(Key::F1),
        0x71u16 => Some(Key::F2),
        0x72u16 => Some(Key::F3),
        0x73u16 => Some(Key::F4),
        0x74u16 => Some(Key::F5),
        0x75u16 => Some(Key::F6),
        0x76u16 => Some(Key::F7),
        0x77u16 => Some(Key::F8),
        0x78u16 => Some(Key::F9),
        0x79u16 => Some(Key::F10),
        0x7Au16 => Some(Key::F11),
        0x7Bu16 => Some(Key::F12),
        0x5Bu16 => Some(Key::LWin),
        0x5Cu16 => Some(Key::RWin),
        0xA4u16 => Some(Key::LAlt),
        0xA5u16 => Some(Key::RAlt),
        0xA2u16 => Some(Key::LCtrl),
        0xA3u16 => Some(Key::RCtrl),
        0xA0u16 => Some(Key::LShift),
        0xA1u16 => Some(Key::RShift),
        0x20u16 => Some(Key::Space),
        0x0Du16 => Some(Key::Enter),
        0x1Bu16 => Some(Key::Escape),
        0x09u16 => Some(Key::Tab),
        0x08u16 => Some(Key::Backspace),
        0x2Eu16 => Some(Key::Delete),
        0x25u16 => Some(Key::Left),
        0x26u16 => Some(Key::Up),
        0x27u16 => Some(Key::Right),
        0x28u16 => Some(Key::Down),
        _ => None,
    }
}

impl Key {
    /// The key's virtual-key code, if it has one of its own.
    pub fn to_key_code(&self) -> (r: Option<KeyCode>)
        ensures
            r == match spec_key_code(*self) {
                Some(c) => Some(KeyCode(c)),
                None => None::<KeyCode>,
            },
    {
        match self {
            Key::A => Some(KeyCode(0x41)),
            Key::B => Some(KeyCode(0x42)),
            Key::C => Some(KeyCode(0x43)),
            Key::D => Some(KeyCode(0x44)),
            Key::E => Some(KeyCode(0x45)),
            Key::F => Some(KeyCode(0x46)),
            Key::G => Some(KeyCode(0x47)),
            Key::H => Some(KeyCode(0x48)),
            Key::I => Some(KeyCode(0x49)),
            Key::J => Some(KeyCode(0x4A)),
            Key::K => Some(KeyCode(0x4B)),
            Key::L => Some(KeyCode(0x4C)),
            Key::M => Some(KeyCode(0x4D)),
            Key::N => Some(KeyCode(0x4E)),
            Key::O => Some(KeyCode(0x4F)),
            Key::P => Some(KeyCode(0x50)),
            Key::Q => Some(KeyCode(0x51)),
            Key::R => Some(KeyCode(0x52)),
            Key::S => Some(KeyCode(0x53)),
            Key::T => Some(KeyCode(0x54)),
            Key::U => Some(KeyCode(0x55)),
            Key::V => Some(KeyCode(0x56)),
            Key::W => Some(KeyCode(0x57)),
            Key::X => Some(KeyCode(0x58)),
            Key::Y => Some(KeyCode(0x59)),
            Key::Z => Some(KeyCode(0x5A)),
            Key::D0 => Some(KeyCode(0x30)),
            Key::D1 => Some(KeyCode(0x31)),
            Key::D2 => Some(KeyCode(0x32)),
            Key::D3 => Some(KeyCode(0x33)),
            Key::D4 => Some(KeyCode(0x34)),
            Key::D5 => Some(KeyCode(0x35)),
            Key::D6 => Some(KeyCode(0x36)),
            Key::D7 => Some(KeyCode(0x37)),
            Key::D8 => Some(KeyCode(0x38)),
            Key::D9 => Some(KeyCode(0x39)),
            Key::F1 => Some(KeyCode(0x70)),
            Key::F2 => Some(KeyCode(0x71)),
            Key::F3 => Some(KeyCode(0x72)),
            Key::F4 => Some(KeyCode(0x73)),
            Key::F5 => Some(KeyCode(0x74)),
            Key::F6 => Some(KeyCode(0x75)),
            Key::F7 => Some(KeyCode(0x76)),
            Key::F8 => Some(KeyCode(0x77)),
            Key::F9 => Some(KeyCode(0x78)),
            Key::F10 => Some(KeyCode(0x79)),
            Key::F11 => Some(KeyCode(0x7A)),
            Key::F12 => Some(KeyCode(0x7B)),
            Key::LWin => Some(KeyCode(0x5B)),
            Key::RWin => Some(KeyCode(0x5C)),
            Key::LAlt => Some(KeyCode(0xA4)),
            Key::RAlt => Some(KeyCode(0xA5)),
            Key::LCtrl => Some(KeyCode(0xA2)),
            Key::RCtrl => Some(KeyCode(0xA3)),
            Key::LShift => Some(KeyCode(0xA0)),
            Key::RShift => Some(KeyCode(0xA1)),
            Key::Space => Some(KeyCode(0x20)),
            Key::Enter => Some(KeyCode(0x0D)),
            Key::Escape => Some(KeyCode(0x1B)),
            Key::Tab => Some(KeyCode(0x09)),
            Key::Backspace => Some(KeyCode(0x08)),
            Key::Delete => Some(KeyCode(0x2E)),
            Key::Left => Some(KeyCode(0x25)),
            Key::Up => Some(KeyCode(0x26)),
            Key::Right => Some(KeyCode(0x27)),
            Key::Down => Some(KeyCode(0x28)),
            Key::Cmd | Key::Win | Key::Alt | Key::Ctrl | Key::Shift => None,
        }
    }

    /// The key that a virtual-key code names, if any.
    pub fn from_key_code(code: KeyCode) -> (r: Option<Key>)
        ensures
            r == spec_key_of_code(code.0),
    {
        match code.0 {
            0x41 => Some(Key::A),
            0x42 => Some(Key::B),
            0x43 => Some(Key::C),
            0x44 => Some(Key::D),
            0x45 => Some(Key::E),
            0x46 => Some(Key::F),
            0x47 => Some(Key::G),
            0x48 => Some(Key::H),
            0x49 => Some(Key::I),
            0x4A => Some(Key::J),
            0x4B => Some(Key::K),
            0x4C => Some(Key::L),
            0x4D => Some(Key::M),
            0x4E => Some(Key::N),
            0x4F => Some(Key::O),
            0x50 => Some(Key::P),
            0x51 => Some(Key::Q),
            0x52 => Some(Key::R),
            0x53 => Some(Key::S),
            0x54 => Some(Key::T),
            0x55 => Some(Key::U),
            0x56 => Some(Key::V),
            0x57 => Some(Key::W),
            0x58 => Some(Key::X),
            0x59 => Some(Key::Y),
            0x5A => Some(Key::Z),
            0x30 => Some(Key::D0),
            0x31 => Some(Key::D1),
            0x32 => Some(Key::D2),
            0x33 => Some(Key::D3),
            0x34 => Some(Key::D4),
            0x35 => Some(Key::D5),
            0x36 => Some(Key::D6),
            0x37 => Some(Key::D7),
            0x38 => Some(Key::D8),
            0x39 => Some(Key::D9),
            0x70 => Some(Key::F1),
            0x71 => Some(Key::F2),
            0x72 => Some(Key::F3),
            0x73 => Some(Key::F4),
            0x74 => Some(Key::F5),
            0x75 => Some(Key::F6),
            0x76 => Some(Key::F7),
            0x77 => Some(Key::F8),
            0x78 => Some(Key::F9),
            0x79 => Some(Key::F10),
            0x7A => Some(Key::F11),
            0x7B => Some(Key::F12),
            0x5B => Some(Key::LWin),
            0x5C => Some(Key::RWin),
            0xA4 => Some(Key::LAlt),
            0xA5 => Some(Key::RAlt),
            0xA2 => Some(Key::LCtrl),
            0xA3 => Some(Key::RCtrl),
            0xA0 => Some(Key::LShift),
            0xA1 => Some(Key::RShift),
            0x20 => Some(Key::Space),
            0x0D => Some(Key::Enter),
            0x1B => Some(Key::Escape),
            0x09 => Some(Key::Tab),
            0x08 => Some(Key::Backspace),
            0x2E => Some(Key::Delete),
            0x25 => Some(Key::Left),
            0x26 => Some(Key::Up),
            0x27 => Some(Key::Right),
            0x28 => Some(Key::Down),
            _ => None,
        }
    }
}

/// Key codes and keys translate into each other: the key of a key's code is
/// that key, and the code of a code's key is that code.
pub proof fn lemma_key_code_round_trip(key: Key, code: u16)
    ensures
        spec_key_code(key) matches Some(c) ==> spec_key_of_code(c) == Some(key),
        spec_key_of_code(code) matches Some(k) ==> spec_key_code(k) == Some(code),
{
}

/// A keyboard event.
#[derive(Clone, Copy, Debug, PartialEq, Eq, Structural)]
pub struct KeyEvent {
    /// The key that was pressed or released.
    pub key: Key,
    /// Key code that generated this event.
    pub key_code: KeyCode,
    /// Whether the event is for a key press or release.
    pub is_keypress: bool,
}

/// The key codes whose state tells whether `key` is down: both keys of a
/// left/right pair for `Cmd`, `Win`, `Alt`, `Ctrl` and `Shift`, the key's
/// own code for any other key, and none for a key without a code.
pub open spec fn spec_codes_to_check(key: Key) -> Seq<u16> {
    match key {
        Key::Cmd | Key::Win => seq![VK_LWIN, VK_RWIN],
        Key::Alt => seq![VK_LMENU, VK_RMENU],
        Key::Ctrl => seq![VK_LCONTROL, VK_RCONTROL],
        Key::Shift => seq![VK_LSHIFT, VK_RSHIFT],
        _ => match spec_key_code(key) {
            Some(c) => seq![c],
            None => seq![],
        },
    }
}

/// Whether a key state from `GetKeyState` says the key is down (bit 0x80).
pub open spec fn spec_state_is_down(state: i16) -> bool {
    state & 0x80 == 0x80
}

impl KeyEvent {
    /// Creates a keyboard event.
    pub fn new(key: Key, key_code: KeyCode, is_keypress: bool) -> (r: KeyEvent)
        ensures
            r == (KeyEvent { key, key_code, is_keypress }),
    {
        KeyEvent { is_keypress, key_code, key }
    }

    /// The key codes whose state is read to tell whether `key` is down; the
    /// key is down when any of them is.
    pub fn key_codes_to_check(key: Key) -> (r: Vec<u16>)
        ensures
            r@ == spec_codes_to_check(key),
            !(key is Cmd || key is Win || key is Alt || key is Ctrl || key is Shift) ==> r@
                == match spec_key_code(key) {
                Some(c) => seq![c],
                None => Seq::<u16>::empty(),
            },
    {
        let mut codes: Vec<u16> = Vec::new();
        match key {
            Key::Cmd | Key::Win => {
                codes.push(VK_LWIN);
                codes.push(VK_RWIN);
            },
            Key::Alt => {
                codes.push(VK_LMENU);
                codes.push(VK_RMENU);
            },
            Key::Ctrl => {
                codes.push(VK_LCONTROL);
                codes.push(VK_RCONTROL);
            },
            Key::Shift => {
                codes.push(VK_LSHIFT);
                codes.push(VK_RSHIFT);
            },
            _ => {
                match key.to_key_code() {
                    Some(code) => codes.push(code.0),
                    None => {},
                }
            },
        }
        assert(codes@ =~= spec_codes_to_check(key));
        codes
    }

    /// Whether the key is down, from the `GetKeyState` values of the codes
    /// that `key_codes_to_check` gives: it is when any of them has bit 0x80.
    pub fn is_key_down(&self, key_states: &[i16]) -> (r: bool)
        ensures
            r == exists|i: int| 0 <= i < key_states@.len() && spec_state_is_down(#[trigger] key_states@[i]),
    {
        let mut i: usize = 0;
        while i < key_states.len()
            invariant
                i <= key_states@.len(),
                forall|k: int| 0 <= k < i ==> !spec_state_is_down(#[trigger] key_states@[k]),
            decreases key_states@.len() - i,
        {
            if key_states[i] & 0x80 == 0x80 {
                return true;
            }
            i = i + 1;
        }
        false
    }
}

/// The keyboard event that the hook procedure hands to the callback, from
/// the hook code, the `vkCode` of the `KBDLLHOOKSTRUCT` and the message:
/// none when the code is not 0 (the event is passed on untouched) or when
/// the key code names no key; otherwise an event that is a key press when
/// the message is `WM_KEYDOWN` or `WM_SYSKEYDOWN`.
pub fn hook_key_event(code: i32, vk_code: u32, message: usize) -> (r: Option<KeyEvent>)
    ensures
        code != 0 ==> r is None,
        code == 0 ==> r == match spec_key_of_code(vk_code as u16) {
            None => None,
            Some(key) => Some(
                KeyEvent {
                    key,
                    key_code: KeyCode(vk_code as u16),
                    is_keypress: message as u32 == WM_KEYDOWN || message as u32 == WM_SYSKEYDOWN,
                },
            ),
        },
{
    if code != 0 {
        return None;
    }
    let key_code = KeyCode(vk_code as u16);
    let is_keydown = message as u32 == WM_KEYDOWN || message as u32 == WM_SYSKEYDOWN;
    match Key::from_key_code(key_code) {
        Some(key) => Some(KeyEvent::new(key, key_code, is_keydown)),
        None => None,
    }
}

/// A key with a code of its own (a left or right modifier among them) is
/// down exactly when that one code is: its own code is the only code
/// checked. `Cmd`, `Win`, `Alt`, `Ctrl` and `Shift` check the codes of their
/// left and right keys.
pub proof fn lemma_codes_to_check(key: Key)
    ensures
        !(key is Cmd || key is Win || key is Alt || key is Ctrl || key is Shift) && spec_key_code(
            key,
        ) is Some ==> spec_codes_to_check(key) == seq![spec_key_code(key)->0],
        spec_codes_to_check(Key::Shift) == seq![
            spec_key_code(Key::LShift)->0,
            spec_key_code(Key::RShift)->0,
        ],
        spec_codes_to_check(Key::Ctrl) == seq![
            spec_key_code(Key::LCtrl)->0,
            spec_key_code(Key::RCtrl)->0,
        ],
        spec_codes_to_check(Key::Alt) == seq![
            spec_key_code(Key::LAlt)->0,
            spec_key_code(Key::RAlt)->0,
        ],
        spec_codes_to_check(Key::Win) == seq![
            spec_key_code(Key::LWin)->0,
            spec_key_code(Key::RWin)->0,
        ],
        spec_codes_to_check(Key::Cmd) == spec_codes_to_check(Key::Win),
{
}

} // verus!
