use vstd::prelude::*;

verus! {

/// A mouse button.
#[derive(Clone, Copy, Debug, PartialEq, Eq, Structural)]
pub enum MouseButton {
    Left,
    Right,
    Middle,
}

/// A keyboard key represented by its physical position on a standard US layout.
///
/// Letter variants follow US QWERTY positions and may produce different
/// characters with another active keyboard layout. Typing text is layout
/// independent.
#[derive(Clone, Copy, Debug, PartialEq, Eq, Structural)]
pub enum Key {
    A,
    B,
    C,
    D,
    E,
    F,
    G,
    H,
    I,
    J,
    K,
    L,
    M,
    N,
    O,
    P,
    Q,
    R,
    S,
    T,
    U,
    V,
    W,
    X,
    Y,
    Z,
    Backspace,
    Tab,
    Return,
    Escape,
    Space,
    Delete,
    Home,
    End,
    PageUp,
    PageDown,
    Left,
    Right,
    Down,
    Up,
    Shift,
    Control,
    Option,
    Command,
}

/// The macOS virtual key code of each key (its position on an ANSI keyboard).
pub open spec fn mac_key_code(key: Key) -> u16 {
    match key {
        Key::A => 0,
        Key::B => 11,
        Key::C => 8,
        Key::D => 2,
        Key::E => 14,
        Key::F => 3,
        Key::G => 5,
        Key::H => 4,
        Key::I => 34,
        Key::J => 38,
        Key::K => 40,
        Key::L => 37,
        Key::M => 46,
        Key::N => 45,
        Key::O => 31,
        Key::P => 35,
        Key::Q => 12,
        Key::R => 15,
        Key::S => 1,
        Key::T => 17,
        Key::U => 32,
        Key::V => 9,
        Key::W => 13,
        Key::X => 7,
        Key::Y => 16,
        Key::Z => 6,
        Key::Backspace => 51,
        Key::Tab => 48,
        Key::Return => 36,
        Key::Escape => 53,
        Key::Space => 49,
        Key::Delete => 117,
        Key::Home => 115,
        Key::End => 119,
        Key::PageUp => 116,
        Key::PageDown => 121,
        Key::Left => 123,
        Key::Right => 124,
        Key::Down => 125,
        Key::Up => 126,
        Key::Shift => 56,
        Key::Control => 59,
        Key::Option => 58,
        Key::Command => 55,
    }
}

/// Returns the macOS virtual key code of `key`.
pub fn key_code(key: Key) -> (code: u16)
    ensures
        code == mac_key_code(key),
{
    match key {
        Key::A => 0,
        Key::B => 11,
        Key::C => 8,
        Key::D => 2,
        Key::E => 14,
        Key::F => 3,
        Key::G => 5,
        Key::H => 4,
        Key::I => 34,
        Key::J => 38,
        Key::K => 40,
        Key::L => 37,
        Key::M => 46,
        Key::N => 45,
        Key::O => 31,
        Key::P => 35,
        Key::Q => 12,
        Key::R => 15,
        Key::S => 1,
        Key::T => 17,
        Key::U => 32,
        Key::V => 9,
        Key::W => 13,
        Key::X => 7,
        Key::Y => 16,
        Key::Z => 6,
        Key::Backspace => 51,
        Key::Tab => 48,
        Key::Return => 36,
        Key::Escape => 53,
        Key::Space => 49,
        Key::Delete => 117,
        Key::Home => 115,
        Key::End => 119,
        Key::PageUp => 116,
        Key::PageDown => 121,
        Key::Left => 123,
        Key::Right => 124,
        Key::Down => 125,
        Key::Up => 126,
        Key::Shift => 56,
        Key::Control => 59,
        Key::Option => 58,
        Key::Command => 55,
    }
}

/// Distinct keys have distinct key codes, so every key event names exactly
/// one key.
pub proof fn lemma_key_codes_distinct(a: Key, b: Key)
    requires
        mac_key_code(a) == mac_key_code(b),
    ensures
        a == b,
{
}

/// A key on Windows: its set-1 keyboard scan code, and whether it is one of
/// the extended keys that the scan code alone does not tell apart.
#[derive(Clone, Copy, Debug, PartialEq, Eq, Structural)]
pub struct WindowsKey {
    pub scan: u16,
    pub extended: bool,
}

/// The Windows scan code of each key (its position on a US keyboard); the
/// Option key is the left Alt key and the Command key the left Windows key.
pub open spec fn windows_key_of(key: Key) -> WindowsKey {
    match key {
        Key::A => WindowsKey { scan: 0x1E, extended: false },
        Key::B => WindowsKey { scan: 0x30, extended: false },
        Key::C => WindowsKey { scan: 0x2E, extended: false },
        Key::D => WindowsKey { scan: 0x20, extended: false },
        Key::E => WindowsKey { scan: 0x12, extended: false },
        Key::F => WindowsKey { scan: 0x21, extended: false },
        Key::G => WindowsKey { scan: 0x22, extended: false },
        Key::H => WindowsKey { scan: 0x23, extended: false },
        Key::I => WindowsKey { scan: 0x17, extended: false },
        Key::J => WindowsKey { scan: 0x24, extended: false },
        Key::K => WindowsKey { scan: 0x25, extended: false },
        Key::L => WindowsKey { scan: 0x26, extended: false },
        Key::M => WindowsKey { scan: 0x32, extended: false },
        Key::N => WindowsKey { scan: 0x31, extended: false },
        Key::O => WindowsKey { scan: 0x18, extended: false },
        Key::P => WindowsKey { scan: 0x19, extended: false },
        Key::Q => WindowsKey { scan: 0x10, extended: false },
        Key::R => WindowsKey { scan: 0x13, extended: false },
        Key::S => WindowsKey { scan: 0x1F, extended: false },
        Key::T => WindowsKey { scan: 0x14, extended: false },
        Key::U => WindowsKey { scan: 0x16, extended: false },
        Key::V => WindowsKey { scan: 0x2F, extended: false },
        Key::W => WindowsKey { scan: 0x11, extended: false },
        Key::X => WindowsKey { scan: 0x2D, extended: false },
        Key::Y => WindowsKey { scan: 0x15, extended: false },
        Key::Z => WindowsKey { scan: 0x2C, extended: false },
        Key::Backspace => WindowsKey { scan: 0x0E, extended: false },
        Key::Tab => WindowsKey { scan: 0x0F, extended: false },
        Key::Return => WindowsKey { scan: 0x1C, extended: false },
        Key::Escape => WindowsKey { scan: 0x01, extended: false },
        Key::Space => WindowsKey { scan: 0x39, extended: false },
        Key::Delete => WindowsKey { scan: 0x53, extended: true },
        Key::Home => WindowsKey { scan: 0x47, extended: true },
        Key::End => WindowsKey { scan: 0x4F, extended: true },
        Key::PageUp => WindowsKey { scan: 0x49, extended: true },
        Key::PageDown => WindowsKey { scan: 0x51, extended: true },
        Key::Left => WindowsKey { scan: 0x4B, extended: true },
        Key::Right => WindowsKey { scan: 0x4D, extended: true },
        Key::Down => WindowsKey { scan: 0x50, extended: true },
        Key::Up => WindowsKey { scan: 0x48, extended: true },
        Key::Shift => WindowsKey { scan: 0x2A, extended: false },
        Key::Control => WindowsKey { scan: 0x1D, extended: false },
        Key::Option => WindowsKey { scan: 0x38, extended: false },
        Key::Command => WindowsKey { scan: 0x5B, extended: true },
    }
}

/// Returns the Windows scan code of `key`.
pub fn windows_key(key: Key) -> (code: WindowsKey)
    ensures
        code == windows_key_of(key),
{
    match key {
        Key::A => WindowsKey { scan: 0x1E, extended: false },
        Key::B => WindowsKey { scan: 0x30, extended: false },
        Key::C => WindowsKey { scan: 0x2E, extended: false },
        Key::D => WindowsKey { scan: 0x20, extended: false },
        Key::E => WindowsKey { scan: 0x12, extended: false },
        Key::F => WindowsKey { scan: 0x21, extended: false },
        Key::G => WindowsKey { scan: 0x22, extended: false },
        Key::H => WindowsKey { scan: 0x23, extended: false },
        Key::I => WindowsKey { scan: 0x17, extended: false },
        Key::J => WindowsKey { scan: 0x24, extended: false },
        Key::K => WindowsKey { scan: 0x25, extended: false },
        Key::L => WindowsKey { scan: 0x26, extended: false },
        Key::M => WindowsKey { scan: 0x32, extended: false },
        Key::N => WindowsKey { scan: 0x31, extended: false },
        Key::O => WindowsKey { scan: 0x18, extended: false },
        Key::P => WindowsKey { scan: 0x19, extended: false },
        Key::Q => WindowsKey { scan: 0x10, extended: false },
        Key::R => WindowsKey { scan: 0x13, extended: false },
        Key::S => WindowsKey { scan: 0x1F, extended: false },
        Key::T => WindowsKey { scan: 0x14, extended: false },
        Key::U => WindowsKey { scan: 0x16, extended: false },
        Key::V => WindowsKey { scan: 0x2F, extended: false },
        Key::W => WindowsKey { scan: 0x11, extended: false },
        Key::X => WindowsKey { scan: 0x2D, extended: false },
        Key::Y => WindowsKey { scan: 0x15, extended: false },
        Key::Z => WindowsKey { scan: 0x2C, extended: false },
        Key::Backspace => WindowsKey { scan: 0x0E, extended: false },
        Key::Tab => WindowsKey { scan: 0x0F, extended: false },
        Key::Return => WindowsKey { scan: 0x1C, extended: false },
        Key::Escape => WindowsKey { scan: 0x01, extended: false },
        Key::Space => WindowsKey { scan: 0x39, extended: false },
        Key::Delete => WindowsKey { scan: 0x53, extended: true },
        Key::Home => WindowsKey { scan: 0x47, extended: true },
        Key::End => WindowsKey { scan: 0x4F, extended: true },
        Key::PageUp => WindowsKey { scan: 0x49, extended: true },
        Key::PageDown => WindowsKey { scan: 0x51, extended: true },
        Key::Left => WindowsKey { scan: 0x4B, extended: true },
        Key::Right => WindowsKey { scan: 0x4D, extended: true },
        Key::Down => WindowsKey { scan: 0x50, extended: true },
        Key::Up => WindowsKey { scan: 0x48, extended: true },
        Key::Shift => WindowsKey { scan: 0x2A, extended: false },
        Key::Control => WindowsKey { scan: 0x1D, extended: false },
        Key::Option => WindowsKey { scan: 0x38, extended: false },
        Key::Command => WindowsKey { scan: 0x5B, extended: true },
    }
}

/// Distinct keys have distinct Windows scan codes.
pub proof fn lemma_windows_keys_distinct(a: Key, b: Key)
    requires
        windows_key_of(a) == windows_key_of(b),
    ensures
        a == b,
{
}

/// The button that a macOS mouse event carries.
#[derive(Clone, Copy, Debug, PartialEq, Eq, Structural)]
pub enum PointerButton {
    Left,
    Right,
    Center,
}

/// The kinds of macOS mouse events.
#[derive(Clone, Copy, Debug, PartialEq, Eq, Structural)]
pub enum MouseEventKind {
    LeftMouseDown,
    LeftMouseUp,
    LeftMouseDragged,
    RightMouseDown,
    RightMouseUp,
    RightMouseDragged,
    OtherMouseDown,
    OtherMouseUp,
    OtherMouseDragged,
    MouseMoved,
}

/// The macOS events that press, release and drag one mouse button.
#[derive(Clone, Copy, Debug, PartialEq, Eq, Structural)]
pub struct ButtonEvents {
    pub button: PointerButton,
    pub down: MouseEventKind,
    pub up: MouseEventKind,
    pub dragged: MouseEventKind,
}

/// The macOS button and event kinds of each mouse button.
pub open spec fn mac_button_events(button: MouseButton) -> ButtonEvents {
    match button {
        MouseButton::Left => ButtonEvents {
            button: PointerButton::Left,
            down: MouseEventKind::LeftMouseDown,
            up: MouseEventKind::LeftMouseUp,
            dragged: MouseEventKind::LeftMouseDragged,
        },
        MouseButton::Right => ButtonEvents {
            button: PointerButton::Right,
            down: MouseEventKind::RightMouseDown,
            up: MouseEventKind::RightMouseUp,
            dragged: MouseEventKind::RightMouseDragged,
        },
        MouseButton::Middle => ButtonEvents {
            button: PointerButton::Center,
            down: MouseEventKind::OtherMouseDown,
            up: MouseEventKind::OtherMouseUp,
            dragged: MouseEventKind::OtherMouseDragged,
        },
    }
}

/// Returns the macOS button and event kinds for `button`.
pub fn mouse_events(button: MouseButton) -> (events: ButtonEvents)
    ensures
        events == mac_button_events(button),
{
    match button {
        MouseButton::Left => ButtonEvents {
            button: PointerButton::Left,
            down: MouseEventKind::LeftMouseDown,
            up: MouseEventKind::LeftMouseUp,
            dragged: MouseEventKind::LeftMouseDragged,
        },
        MouseButton::Right => ButtonEvents {
            button: PointerButton::Right,
            down: MouseEventKind::RightMouseDown,
            up: MouseEventKind::RightMouseUp,
            dragged: MouseEventKind::RightMouseDragged,
        },
        MouseButton::Middle => ButtonEvents {
            button: PointerButton::Center,
            down: MouseEventKind::OtherMouseDown,
            up: MouseEventKind::OtherMouseUp,
            dragged: MouseEventKind::OtherMouseDragged,
        },
    }
}

/// The Windows mouse input flags used to press and release buttons.
#[derive(Clone, Copy, Debug, PartialEq, Eq, Structural)]
pub enum WindowsMouseFlag {
    LeftDown,
    LeftUp,
    RightDown,
    RightUp,
    MiddleDown,
    MiddleUp,
}

/// The Windows flags that press and release each mouse button.
pub open spec fn windows_button_flags(button: MouseButton) -> (WindowsMouseFlag, WindowsMouseFlag) {
    match button {
        MouseButton::Left => (WindowsMouseFlag::LeftDown, WindowsMouseFlag::LeftUp),
        MouseButton::Right => (WindowsMouseFlag::RightDown, WindowsMouseFlag::RightUp),
        MouseButton::Middle => (WindowsMouseFlag::MiddleDown, WindowsMouseFlag::MiddleUp),
    }
}

/// Returns the Windows flags that press and release `button`.
pub fn windows_mouse_flags(button: MouseButton) -> (flags: (WindowsMouseFlag, WindowsMouseFlag))
    ensures
        flags == windows_button_flags(button),
{
    match button {
        MouseButton::Left => (WindowsMouseFlag::LeftDown, WindowsMouseFlag::LeftUp),
        MouseButton::Right => (WindowsMouseFlag::RightDown, WindowsMouseFlag::RightUp),
        MouseButton::Middle => (WindowsMouseFlag::MiddleDown, WindowsMouseFlag::MiddleUp),
    }
}

/// The UTF-16 encoding of one character: one code unit, or a surrogate pair.
#[derive(Clone, Copy, Debug, PartialEq, Eq, Structural)]
pub struct Utf16Char {
    pub first: u16,
    pub second: Option<u16>,
}

/// The UTF-16 code units of a character, as the Unicode standard defines them.
pub open spec fn utf16_of(c: char) -> Utf16Char {
    let value = c as int;
    if value < 0x10000 {
        Utf16Char { first: value as u16, second: None }
    } else {
        let offset = value - 0x10000;
        Utf16Char {
            first: (0xD800 + offset / 0x400) as u16,
            second: Some((0xDC00 + offset % 0x400) as u16),
        }
    }
}

/// Encodes `c` as UTF-16.
pub fn encode_utf16(c: char) -> (units: Utf16Char)
    ensures
        units == utf16_of(c),
{
    let value: u32 = c as u32;
    if value < 0x10000 {
        Utf16Char { first: value as u16, second: None }
    } else {
        let offset: u32 = value - 0x10000;
        Utf16Char { first: (0xD800 + offset / 0x400) as u16, second: Some((0xDC00 + offset % 0x400) as u16) }
    }
}

/// The character value that a UTF-16 encoding stands for.
pub open spec fn utf16_value(units: Utf16Char) -> int {
    match units.second {
        None => units.first as int,
        Some(low) => 0x10000 + (units.first as int - 0xD800) * 0x400 + (low as int - 0xDC00),
    }
}

/// Encoding is undone by decoding: every character's UTF-16 code units stand
/// for that character, and a surrogate pair is a high surrogate followed by a
/// low surrogate.
pub proof fn lemma_utf16_round_trip(c: char)
    ensures
        utf16_value(utf16_of(c)) == c as int,
        utf16_of(c).second is Some ==> {
            &&& 0xD800 <= utf16_of(c).first <= 0xDBFF
            &&& 0xDC00 <= utf16_of(c).second->0 <= 0xDFFF
        },
{
    let value = c as int;
    if value >= 0x10000 {
        let offset = value - 0x10000;
        assert(0 <= offset < 0x100000);
        assert(offset == (offset / 0x400) * 0x400 + offset % 0x400);
    }
}

/// The UTF-16 code units of a character as a sequence.
pub open spec fn utf16_units_of(c: char) -> Seq<u16> {
    match utf16_of(c).second {
        None => seq![utf16_of(c).first],
        Some(low) => seq![utf16_of(c).first, low],
    }
}

/// The UTF-16 encoding of a text: the code units of its characters in order.
pub open spec fn utf16_text(text: Seq<char>) -> Seq<u16>
    decreases text.len(),
{
    if text.len() == 0 {
        seq![]
    } else {
        utf16_text(text.drop_last()) + utf16_units_of(text.last())
    }
}

/// Encodes `text` as UTF-16 followed by a terminating zero code unit, the
/// form in which Windows stores text on the clipboard.
pub fn encode_utf16_text(text: &str) -> (units: Vec<u16>)
    ensures
        units@ == utf16_text(text@).push(0),
{
    let mut units: Vec<u16> = Vec::new();
    for character in it: text.chars()
        invariant
            it.seq() == text@,
            units@ == utf16_text(text@.take(it.index() as int)),
    {
        let encoded = encode_utf16(character);
        units.push(encoded.first);
        match encoded.second {
            Some(low) => units.push(low),
            None => {},
        }
        proof {
            let done = text@.take(it.index() as int + 1);
            assert(done.drop_last() =~= text@.take(it.index() as int));
            assert(done.last() == character);
            assert(units@ =~= utf16_text(done));
        }
    }
    proof {
        assert(text@.take(text@.len() as int) =~= text@);
    }
    units.push(0);
    units
}

/// The Windows wheel movement for a number of lines: 120 units per line,
/// saturating at the range of an `i32`.
pub open spec fn wheel_delta_of(lines: i32) -> i32 {
    let units = lines as int * 120;
    if units > i32::MAX {
        i32::MAX
    } else if units < i32::MIN {
        i32::MIN
    } else {
        units as i32
    }
}

/// Returns the Windows wheel movement for `lines` lines.
pub fn wheel_delta(lines: i32) -> (delta: i32)
    ensures
        delta == wheel_delta_of(lines),
{
    let units: i64 = lines as i64 * 120;
    if units > i32::MAX as i64 {
        i32::MAX
    } else if units < i32::MIN as i64 {
        i32::MIN
    } else {
        units as i32
    }
}

/// Every key has the macOS virtual key code of its physical key on an ANSI
/// keyboard (the `kVK_ANSI_*` and `kVK_*` constants of the system's key
/// code table): letters by their QWERTY position, the arrows 123 (left) to
/// 126 (up), the modifiers by their left-hand keys.
pub proof fn lemma_mac_key_codes_are_ansi_positions()
    ensures
        mac_key_code(Key::A) == 0,
        mac_key_code(Key::B) == 11,
        mac_key_code(Key::C) == 8,
        mac_key_code(Key::D) == 2,
        mac_key_code(Key::E) == 14,
        mac_key_code(Key::F) == 3,
        mac_key_code(Key::G) == 5,
        mac_key_code(Key::H) == 4,
        mac_key_code(Key::I) == 34,
        mac_key_code(Key::J) == 38,
        mac_key_code(Key::K) == 40,
        mac_key_code(Key::L) == 37,
        mac_key_code(Key::M) == 46,
        mac_key_code(Key::N) == 45,
        mac_key_code(Key::O) == 31,
        mac_key_code(Key::P) == 35,
        mac_key_code(Key::Q) == 12,
        mac_key_code(Key::R) == 15,
        mac_key_code(Key::S) == 1,
        mac_key_code(Key::T) == 17,
        mac_key_code(Key::U) == 32,
        mac_key_code(Key::V) == 9,
        mac_key_code(Key::W) == 13,
        mac_key_code(Key::X) == 7,
        mac_key_code(Key::Y) == 16,
        mac_key_code(Key::Z) == 6,
        mac_key_code(Key::Backspace) == 51,
        mac_key_code(Key::Tab) == 48,
        mac_key_code(Key::Return) == 36,
        mac_key_code(Key::Escape) == 53,
        mac_key_code(Key::Space) == 49,
        mac_key_code(Key::Delete) == 117,
        mac_key_code(Key::Home) == 115,
        mac_key_code(Key::End) == 119,
        mac_key_code(Key::PageUp) == 116,
        mac_key_code(Key::PageDown) == 121,
        mac_key_code(Key::Left) == 123,
        mac_key_code(Key::Right) == 124,
        mac_key_code(Key::Down) == 125,
        mac_key_code(Key::Up) == 126,
        mac_key_code(Key::Shift) == 56,
        mac_key_code(Key::Control) == 59,
        mac_key_code(Key::Option) == 58,
        mac_key_code(Key::Command) == 55,
{
}

/// Every key has the set-1 scan code of its physical key on a US keyboard;
/// the navigation keys, the arrows and the Windows key are extended keys,
/// every other key is not.
pub proof fn lemma_windows_scan_codes_are_us_positions(key: Key)
    ensures
        windows_key_of(Key::A).scan == 0x1E,
        windows_key_of(Key::B).scan == 0x30,
        windows_key_of(Key::C).scan == 0x2E,
        windows_key_of(Key::D).scan == 0x20,
        windows_key_of(Key::E).scan == 0x12,
        windows_key_of(Key::F).scan == 0x21,
        windows_key_of(Key::G).scan == 0x22,
        windows_key_of(Key::H).scan == 0x23,
        windows_key_of(Key::I).scan == 0x17,
        windows_key_of(Key::J).scan == 0x24,
        windows_key_of(Key::K).scan == 0x25,
        windows_key_of(Key::L).scan == 0x26,
        windows_key_of(Key::M).scan == 0x32,
        windows_key_of(Key::N).scan == 0x31,
        windows_key_of(Key::O).scan == 0x18,
        windows_key_of(Key::P).scan == 0x19,
        windows_key_of(Key::Q).scan == 0x10,
        windows_key_of(Key::R).scan == 0x13,
        windows_key_of(Key::S).scan == 0x1F,
        windows_key_of(Key::T).scan == 0x14,
        windows_key_of(Key::U).scan == 0x16,
        windows_key_of(Key::V).scan == 0x2F,
        windows_key_of(Key::W).scan == 0x11,
        windows_key_of(Key::X).scan == 0x2D,
        windows_key_of(Key::Y).scan == 0x15,
        windows_key_of(Key::Z).scan == 0x2C,
        windows_key_of(Key::Backspace).scan == 0x0E,
        windows_key_of(Key::Tab).scan == 0x0F,
        windows_key_of(Key::Return).scan == 0x1C,
        windows_key_of(Key::Escape).scan == 0x01,
        windows_key_of(Key::Space).scan == 0x39,
        windows_key_of(Key::Delete).scan == 0x53,
        windows_key_of(Key::Home).scan == 0x47,
        windows_key_of(Key::End).scan == 0x4F,
        windows_key_of(Key::PageUp).scan == 0x49,
        windows_key_of(Key::PageDown).scan == 0x51,
        windows_key_of(Key::Left).scan == 0x4B,
        windows_key_of(Key::Right).scan == 0x4D,
        windows_key_of(Key::Down).scan == 0x50,
        windows_key_of(Key::Up).scan == 0x48,
        windows_key_of(Key::Shift).scan == 0x2A,
        windows_key_of(Key::Control).scan == 0x1D,
        windows_key_of(Key::Option).scan == 0x38,
        windows_key_of(Key::Command).scan == 0x5B,
        windows_key_of(key).extended <==> (key == Key::Delete || key == Key::Home || key
            == Key::End || key == Key::PageUp || key == Key::PageDown || key == Key::Left || key
            == Key::Right || key == Key::Down || key == Key::Up || key == Key::Command),
{
}

/// What a mouse event does, whatever button it carries.
#[derive(Clone, Copy, Debug, PartialEq, Eq, Structural)]
pub enum MouseMotion {
    Press,
    Release,
    Drag,
    Move,
}

/// The button whose press, release or drag a macOS mouse event kind reports;
/// `None` for a plain move.
pub open spec fn event_button(kind: MouseEventKind) -> Option<PointerButton> {
    match kind {
        MouseEventKind::LeftMouseDown | MouseEventKind::LeftMouseUp
        | MouseEventKind::LeftMouseDragged => Some(PointerButton::Left),
        MouseEventKind::RightMouseDown | MouseEventKind::RightMouseUp
        | MouseEventKind::RightMouseDragged => Some(PointerButton::Right),
        MouseEventKind::OtherMouseDown | MouseEventKind::OtherMouseUp
        | MouseEventKind::OtherMouseDragged => Some(PointerButton::Center),
        MouseEventKind::MouseMoved => None,
    }
}

/// What a macOS mouse event kind does.
pub open spec fn event_motion(kind: MouseEventKind) -> MouseMotion {
    match kind {
        MouseEventKind::LeftMouseDown | MouseEventKind::RightMouseDown
        | MouseEventKind::OtherMouseDown => MouseMotion::Press,
        MouseEventKind::LeftMouseUp | MouseEventKind::RightMouseUp
        | MouseEventKind::OtherMouseUp => MouseMotion::Release,
        MouseEventKind::LeftMouseDragged | MouseEventKind::RightMouseDragged
        | MouseEventKind::OtherMouseDragged => MouseMotion::Drag,
        MouseEventKind::MouseMoved => MouseMotion::Move,
    }
}

/// The macOS events of a mouse button all belong to that button: the left
/// button is the left pointer button, the right one the right, the middle
/// one the center button; and the press, release and drag events report a
/// press, a release and a drag of exactly that button.
pub proof fn lemma_button_events_belong_to_their_button(button: MouseButton)
    ensures
        button == MouseButton::Left ==> mac_button_events(button).button == PointerButton::Left,
        button == MouseButton::Right ==> mac_button_events(button).button == PointerButton::Right,
        button == MouseButton::Middle ==> mac_button_events(button).button
            == PointerButton::Center,
        event_button(mac_button_events(button).down) == Some(mac_button_events(button).button),
        event_button(mac_button_events(button).up) == Some(mac_button_events(button).button),
        event_button(mac_button_events(button).dragged) == Some(mac_button_events(button).button),
        event_motion(mac_button_events(button).down) == MouseMotion::Press,
        event_motion(mac_button_events(button).up) == MouseMotion::Release,
        event_motion(mac_button_events(button).dragged) == MouseMotion::Drag,
{
}

/// The button that a Windows mouse flag presses or releases.
pub open spec fn flag_button(flag: WindowsMouseFlag) -> MouseButton {
    match flag {
        WindowsMouseFlag::LeftDown | WindowsMouseFlag::LeftUp => MouseButton::Left,
        WindowsMouseFlag::RightDown | WindowsMouseFlag::RightUp => MouseButton::Right,
        WindowsMouseFlag::MiddleDown | WindowsMouseFlag::MiddleUp => MouseButton::Middle,
    }
}

/// Whether a Windows mouse flag presses (rather than releases) its button.
pub open spec fn flag_presses(flag: WindowsMouseFlag) -> bool {
    match flag {
        WindowsMouseFlag::LeftDown | WindowsMouseFlag::RightDown | WindowsMouseFlag::MiddleDown => true,
        _ => false,
    }
}

/// The Windows flags of a button press and then release that very button.
pub proof fn lemma_windows_flags_belong_to_their_button(button: MouseButton)
    ensures
        flag_button(windows_button_flags(button).0) == button,
        flag_button(windows_button_flags(button).1) == button,
        flag_presses(windows_button_flags(button).0),
        !flag_presses(windows_button_flags(button).1),
{
}

/// The wheel movement is 120 units per line, in the direction of the lines,
/// whenever that fits an `i32`, and never points the other way.
pub proof fn lemma_wheel_delta_scales_lines(lines: i32)
    ensures
        i32::MIN <= lines * 120 <= i32::MAX ==> wheel_delta_of(lines) == lines * 120,
        lines > 0 ==> wheel_delta_of(lines) > 0,
        lines < 0 ==> wheel_delta_of(lines) < 0,
        lines == 0 ==> wheel_delta_of(lines) == 0,
        lines * 120 > i32::MAX ==> wheel_delta_of(lines) == i32::MAX,
        lines * 120 < i32::MIN ==> wheel_delta_of(lines) == i32::MIN,
{
}

/// A character's UTF-16 units are one unit below 0x10000 and two above, the
/// encoding described by `utf16_of`, in order.
pub proof fn lemma_utf16_units_of_char(c: char)
    ensures
        (c as int) < 0x10000 ==> utf16_units_of(c) == seq![c as u16],
        (c as int) >= 0x10000 ==> utf16_units_of(c).len() == 2 && 0xD800 <= utf16_units_of(c)[0]
            <= 0xDBFF && 0xDC00 <= utf16_units_of(c)[1] <= 0xDFFF && 0x10000 + (
        utf16_units_of(c)[0] - 0xD800) * 0x400 + (utf16_units_of(c)[1] - 0xDC00) == c as int,
{
    lemma_utf16_round_trip(c);
}

/// Encoding a text is encoding its parts one after the other.
pub proof fn lemma_utf16_text_concat(a: Seq<char>, b: Seq<char>)
    ensures
        utf16_text(a + b) == utf16_text(a) + utf16_text(b),
    decreases b.len(),
{
    if b.len() == 0 {
        assert(a + b =~= a);
        assert(utf16_text(b) =~= seq![]);
        assert(utf16_text(a) + utf16_text(b) =~= utf16_text(a));
    } else {
        lemma_utf16_text_concat(a, b.drop_last());
        assert((a + b).drop_last() =~= a + b.drop_last());
        assert((a + b).last() == b.last());
        assert(utf16_text(a + b) =~= utf16_text(a) + utf16_text(b));
    }
}

/// A one-character text encodes as that character's units.
pub proof fn lemma_utf16_text_single(c: char)
    ensures
        utf16_text(seq![c]) == utf16_units_of(c),
{
    assert(seq![c].drop_last() =~= Seq::<char>::empty());
    assert(utf16_text(Seq::<char>::empty()) + utf16_units_of(c) =~= utf16_units_of(c));
}

} // verus!
