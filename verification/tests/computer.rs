use tactum::computer::{clipboard_write_result, require_permission};
use tactum::input::{
    encode_utf16, encode_utf16_text, key_code, mouse_events, wheel_delta, windows_key,
    windows_mouse_flags, MouseEventKind, PointerButton, Utf16Char, WindowsKey, WindowsMouseFlag,
};
use tactum::{ClipboardRequest, Computer, Error, InputStep, Key, MouseButton, Platform, PointRole};

fn mac() -> Computer {
    Computer::new(Platform::MacOs).unwrap()
}

fn windows() -> Computer {
    Computer::new(Platform::Windows).unwrap()
}

#[test]
fn unsupported_platforms_have_no_computer() {
    assert!(matches!(Computer::new(Platform::Unsupported), Err(Error::UnsupportedPlatform)));
    assert_eq!(mac().platform(), Platform::MacOs);
}

#[test]
fn clipboard_round_trips_unicode_text() {
    let text = "Tactum clipboard test\n世界 🚀";
    match mac().write_clipboard(text).unwrap() {
        ClipboardRequest::Write(stored) => assert_eq!(stored.as_str(), text),
        ClipboardRequest::Read => panic!("writing must store the text"),
    }
    assert!(matches!(mac().read_clipboard(), Ok(ClipboardRequest::Read)));
    assert!(matches!(windows().read_clipboard(), Ok(ClipboardRequest::Read)));
    match windows().write_clipboard(text).unwrap() {
        ClipboardRequest::Write(stored) => assert_eq!(stored.as_str(), text),
        ClipboardRequest::Read => panic!("writing must store the text"),
    }
    let mut expected: Vec<u16> = text.encode_utf16().collect();
    expected.push(0);
    assert_eq!(encode_utf16_text(text), expected);
    assert_eq!(clipboard_write_result(true), Ok(()));
    assert_eq!(clipboard_write_result(false), Err(Error::OperationFailed));
}

#[test]
fn key_codes_follow_the_ansi_layout() {
    assert_eq!(key_code(Key::A), 0);
    assert_eq!(key_code(Key::Z), 6);
    assert_eq!(key_code(Key::Return), 36);
    assert_eq!(key_code(Key::Tab), 48);
    assert_eq!(key_code(Key::Up), 126);
    assert_eq!(key_code(Key::Command), 55);
}

#[test]
fn key_press_goes_down_then_up() {
    let plan = mac().key_press(Key::Space).unwrap();
    assert!(plan.acquire_source);
    assert_eq!(
        plan.batches,
        vec![vec![
            InputStep::Key { code: 49, pressed: true },
            InputStep::Key { code: 49, pressed: false },
        ]]
    );
    let down = mac().key_down(Key::Shift).unwrap();
    assert_eq!(down.batches, vec![vec![InputStep::Key { code: 56, pressed: true }]]);
    let up = mac().key_up(Key::Shift).unwrap();
    assert_eq!(up.batches, vec![vec![InputStep::Key { code: 56, pressed: false }]]);
    let a = WindowsKey { scan: 0x1E, extended: false };
    assert_eq!(
        windows().key_press(Key::A).unwrap().batches,
        vec![vec![
            InputStep::ScanKey { key: a, pressed: true },
            InputStep::ScanKey { key: a, pressed: false },
        ]]
    );
    let up_arrow = WindowsKey { scan: 0x48, extended: true };
    let down = windows().key_down(Key::Up).unwrap();
    assert!(!down.acquire_source);
    assert_eq!(down.batches, vec![vec![InputStep::ScanKey { key: up_arrow, pressed: true }]]);
    assert_eq!(
        windows().key_up(Key::Up).unwrap().batches,
        vec![vec![InputStep::ScanKey { key: up_arrow, pressed: false }]]
    );
}

#[test]
fn typing_maps_characters_to_events() {
    let plan = mac().type_text("a\n\t😀").unwrap();
    assert!(plan.acquire_source);
    let a = Utf16Char { first: 0x61, second: None };
    let smile = Utf16Char { first: 0xD83D, second: Some(0xDE00) };
    assert_eq!(
        plan.batches,
        vec![
            vec![InputStep::Text { units: a, pressed: true }, InputStep::Text { units: a, pressed: false }],
            vec![InputStep::Key { code: 36, pressed: true }, InputStep::Key { code: 36, pressed: false }],
            vec![InputStep::Key { code: 48, pressed: true }, InputStep::Key { code: 48, pressed: false }],
            vec![
                InputStep::Text { units: smile, pressed: true },
                InputStep::Text { units: smile, pressed: false },
            ],
        ]
    );
    let windows_plan = windows().type_text("a\r😀").unwrap();
    assert!(!windows_plan.acquire_source);
    let enter = WindowsKey { scan: 0x1C, extended: false };
    assert_eq!(
        windows_plan.batches,
        vec![
            vec![InputStep::Text { units: a, pressed: true }, InputStep::Text { units: a, pressed: false }],
            vec![
                InputStep::ScanKey { key: enter, pressed: true },
                InputStep::ScanKey { key: enter, pressed: false },
            ],
            vec![
                InputStep::Text { units: smile, pressed: true },
                InputStep::Text { units: smile, pressed: false },
            ],
        ]
    );
    let empty = mac().type_text("").unwrap();
    assert!(empty.acquire_source);
    assert!(empty.batches.is_empty());
}

#[test]
fn utf16_encoding_matches_std() {
    for c in ['a', 'é', '世', '\u{FFFF}', '🚀', '\u{10FFFF}'] {
        let mut expected = [0u16; 2];
        let expected = c.encode_utf16(&mut expected);
        let units = encode_utf16(c);
        assert_eq!(units.first, expected[0]);
        assert_eq!(units.second, expected.get(1).copied());
    }
}

#[test]
fn scrolling_plans() {
    let none = mac().scroll(0, 0).unwrap();
    assert!(!none.acquire_source);
    assert!(none.batches.is_empty());
    let vertical = mac().scroll(0, -3).unwrap();
    assert!(vertical.acquire_source);
    assert_eq!(
        vertical.batches,
        vec![vec![InputStep::Scroll { wheel_count: 1, vertical: -3, horizontal: 0 }]]
    );
    let horizontal = mac().scroll(4, 0).unwrap();
    assert_eq!(
        horizontal.batches,
        vec![vec![InputStep::Scroll { wheel_count: 2, vertical: 0, horizontal: 4 }]]
    );
    let both = mac().scroll(4, 5).unwrap();
    assert_eq!(
        both.batches,
        vec![vec![
            InputStep::Scroll { wheel_count: 1, vertical: 5, horizontal: 0 },
            InputStep::Scroll { wheel_count: 2, vertical: 0, horizontal: 4 },
        ]]
    );
    let none = windows().scroll(0, 0).unwrap();
    assert!(!none.acquire_source);
    assert!(none.batches.is_empty());
    assert_eq!(
        windows().scroll(-2, 3).unwrap().batches,
        vec![vec![
            InputStep::Wheel { horizontal: false, delta: 360 },
            InputStep::Wheel { horizontal: true, delta: -240 },
        ]]
    );
    assert_eq!(
        windows().scroll(0, i32::MAX).unwrap().batches,
        vec![vec![InputStep::Wheel { horizontal: false, delta: i32::MAX }]]
    );
    assert_eq!(
        windows().scroll(i32::MIN, 0).unwrap().batches,
        vec![vec![InputStep::Wheel { horizontal: true, delta: i32::MIN }]]
    );
    assert_eq!(wheel_delta(1), 120);
}

#[test]
fn clicks_and_drags() {
    let events = mouse_events(MouseButton::Middle);
    assert_eq!(events.button, PointerButton::Center);
    assert_eq!(events.down, MouseEventKind::OtherMouseDown);

    let click = mac().click(MouseButton::Right).unwrap();
    assert_eq!(
        click.batches,
        vec![vec![
            InputStep::Mouse {
                kind: MouseEventKind::RightMouseDown,
                button: PointerButton::Right,
                at: PointRole::Start,
                click_state: Some(1),
            },
            InputStep::Mouse {
                kind: MouseEventKind::RightMouseUp,
                button: PointerButton::Right,
                at: PointRole::Start,
                click_state: Some(1),
            },
        ]]
    );

    let double = mac().double_click(MouseButton::Left).unwrap();
    assert_eq!(double.batches[0].len(), 5);
    assert_eq!(double.batches[0][2], InputStep::Pause);
    assert_eq!(
        double.batches[0][3],
        InputStep::Mouse {
            kind: MouseEventKind::LeftMouseDown,
            button: PointerButton::Left,
            at: PointRole::Start,
            click_state: Some(2),
        }
    );

    let drag = mac().drag(MouseButton::Left).unwrap();
    assert_eq!(
        drag.batches,
        vec![vec![
            InputStep::Mouse {
                kind: MouseEventKind::LeftMouseDown,
                button: PointerButton::Left,
                at: PointRole::Start,
                click_state: None,
            },
            InputStep::Pause,
            InputStep::Mouse {
                kind: MouseEventKind::LeftMouseDragged,
                button: PointerButton::Left,
                at: PointRole::End,
                click_state: None,
            },
            InputStep::Pause,
            InputStep::Mouse {
                kind: MouseEventKind::LeftMouseUp,
                button: PointerButton::Left,
                at: PointRole::End,
                click_state: None,
            },
        ]]
    );

    let moved = mac().move_to().unwrap();
    assert_eq!(
        moved.batches,
        vec![vec![InputStep::Mouse {
            kind: MouseEventKind::MouseMoved,
            button: PointerButton::Left,
            at: PointRole::Start,
            click_state: None,
        }]]
    );

    let windows_click = windows().click(MouseButton::Middle).unwrap();
    assert!(!windows_click.acquire_source);
    assert_eq!(
        windows_click.batches,
        vec![vec![
            InputStep::MoveCursor { at: PointRole::Start },
            InputStep::SendClick { down: WindowsMouseFlag::MiddleDown, up: WindowsMouseFlag::MiddleUp },
        ]]
    );
    assert_eq!(
        windows_mouse_flags(MouseButton::Left),
        (WindowsMouseFlag::LeftDown, WindowsMouseFlag::LeftUp)
    );
    assert_eq!(
        windows().drag(MouseButton::Left).unwrap().batches,
        vec![vec![
            InputStep::MoveCursor { at: PointRole::Start },
            InputStep::SendButton { flag: WindowsMouseFlag::LeftDown },
            InputStep::Pause,
            InputStep::MoveCursor { at: PointRole::End },
            InputStep::Pause,
            InputStep::SendButton { flag: WindowsMouseFlag::LeftUp },
        ]]
    );
    assert_eq!(
        windows().mouse_down(MouseButton::Right).unwrap().batches,
        vec![vec![
            InputStep::MoveCursor { at: PointRole::Start },
            InputStep::SendButton { flag: WindowsMouseFlag::RightDown },
        ]]
    );
    assert_eq!(
        windows().mouse_up(MouseButton::Right).unwrap().batches,
        vec![vec![
            InputStep::MoveCursor { at: PointRole::Start },
            InputStep::SendButton { flag: WindowsMouseFlag::RightUp },
        ]]
    );
    assert_eq!(
        windows().move_to().unwrap().batches,
        vec![vec![InputStep::MoveCursor { at: PointRole::Start }]]
    );
    let click = InputStep::SendClick { down: WindowsMouseFlag::LeftDown, up: WindowsMouseFlag::LeftUp };
    assert_eq!(
        windows().double_click(MouseButton::Left).unwrap().batches,
        vec![vec![InputStep::MoveCursor { at: PointRole::Start }, click, InputStep::Pause, click]]
    );
    let down = mac().mouse_down(MouseButton::Middle).unwrap();
    assert_eq!(
        down.batches,
        vec![vec![InputStep::Mouse {
            kind: MouseEventKind::OtherMouseDown,
            button: PointerButton::Center,
            at: PointRole::Start,
            click_state: None,
        }]]
    );
    let up = mac().mouse_up(MouseButton::Middle).unwrap();
    assert_eq!(
        up.batches[0][0],
        InputStep::Mouse {
            kind: MouseEventKind::OtherMouseUp,
            button: PointerButton::Center,
            at: PointRole::Start,
            click_state: None,
        }
    );
}

#[test]
fn permissions_and_messages() {
    assert_eq!(require_permission(true), Ok(()));
    assert_eq!(require_permission(false), Err(Error::PermissionDenied));
    assert_eq!(Error::UnsupportedPlatform.message(), "this platform is not supported yet");
    assert_eq!(Error::OperationFailed.message(), "the computer-control operation failed");
    assert_eq!(Error::InvalidPoint.message(), "coordinates are invalid for this operation");
    assert_eq!(
        Error::PermissionDenied.message(),
        "operating system permission is required for this operation"
    );
}

#[test]
fn every_key_has_its_own_code() {
    let keys = [
        Key::A, Key::B, Key::C, Key::D, Key::E, Key::F, Key::G, Key::H, Key::I, Key::J, Key::K,
        Key::L, Key::M, Key::N, Key::O, Key::P, Key::Q, Key::R, Key::S, Key::T, Key::U, Key::V,
        Key::W, Key::X, Key::Y, Key::Z, Key::Backspace, Key::Tab, Key::Return, Key::Escape,
        Key::Space, Key::Delete, Key::Home, Key::End, Key::PageUp, Key::PageDown, Key::Left,
        Key::Right, Key::Down, Key::Up, Key::Shift, Key::Control, Key::Option, Key::Command,
    ];
    let mut codes: Vec<u16> = keys.iter().map(|key| key_code(*key)).collect();
    codes.sort();
    codes.dedup();
    assert_eq!(codes.len(), keys.len());
    let mut scans: Vec<(u16, bool)> = keys
        .iter()
        .map(|key| {
            let code = windows_key(*key);
            (code.scan, code.extended)
        })
        .collect();
    scans.sort();
    scans.dedup();
    assert_eq!(scans.len(), keys.len());
}
