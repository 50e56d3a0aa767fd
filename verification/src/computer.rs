use vstd::prelude::*;

use crate::error::Error;
use crate::input::{
    encode_utf16, key_code, mac_button_events, mac_key_code, mouse_events, utf16_of,
    windows_button_flags, windows_mouse_flags, Key, MouseButton, MouseEventKind, PointerButton,
    Utf16Char, WindowsMouseFlag, wheel_delta, wheel_delta_of, windows_key, windows_key_of,
    WindowsKey, utf16_value, lemma_utf16_round_trip,
};

verus! {

/// The operating systems that have a backend.
#[derive(Clone, Copy, Debug, PartialEq, Eq, Structural)]
pub enum Platform {
    MacOs,
    Windows,
    Unsupported,
}

/// Which point of a request an event happens at: the only point of a click,
/// or the start and end of a drag.
#[derive(Clone, Copy, Debug, PartialEq, Eq, Structural)]
pub enum PointRole {
    Start,
    End,
}

/// One step that a backend carries out.
#[derive(Clone, Copy, Debug, PartialEq, Eq, Structural)]
pub enum InputStep {
    /// A macOS mouse event at a point, with the click count of a click if any.
    Mouse { kind: MouseEventKind, button: PointerButton, at: PointRole, click_state: Option<i64> },
    /// A macOS key event with a virtual key code; pressed or released.
    Key { code: u16, pressed: bool },
    /// A macOS key event that carries a character instead of a key code.
    Text { units: Utf16Char, pressed: bool },
    /// A macOS scroll event in lines.
    Scroll { wheel_count: u32, vertical: i32, horizontal: i32 },
    /// The delay that lets the system tell two input events apart.
    Pause,
    /// A Windows cursor move to a point.
    MoveCursor { at: PointRole },
    /// A Windows press and release of a mouse button sent as one input batch.
    SendClick { down: WindowsMouseFlag, up: WindowsMouseFlag },
    /// A Windows press or release of one mouse button.
    SendButton { flag: WindowsMouseFlag },
    /// A Windows wheel movement, horizontal or vertical, in wheel units
    /// (positive is right or up).
    Wheel { horizontal: bool, delta: i32 },
    /// A Windows key event by scan code; pressed or released.
    ScanKey { key: WindowsKey, pressed: bool },
}

/// The events that a request turns into.
///
/// The backend first obtains an input event source when `acquire_source`
/// holds: without the system's input permission it fails with the result of
/// `require_permission`, and when the source cannot be created it fails with
/// `Error::OperationFailed`.
/// Then it handles the batches in order: it creates all events of a batch,
/// failing if one cannot be created, and only then posts them in order.
/// Windows plans need no event source; their steps are sent one by one, and
/// a step that the system does not take fails with `Error::OperationFailed`.
pub struct InputPlan {
    pub acquire_source: bool,
    pub batches: Vec<Vec<InputStep>>,
}

impl InputPlan {
    /// The batches of the plan as sequences of steps.
    pub open spec fn steps(&self) -> Seq<Seq<InputStep>> {
        self.batches@.map_values(|batch: Vec<InputStep>| batch@)
    }
}

/// A request to the system clipboard.
pub enum ClipboardRequest {
    /// Read plain text from the clipboard.
    Read,
    /// Clear the clipboard and store this plain text on it.
    Write(String),
}

/// A controller for the local computer.
pub struct Computer {
    platform: Platform,
}

impl View for Computer {
    type V = Platform;

    closed spec fn view(&self) -> Platform {
        self.platform
    }
}

/// A mouse event of `button`'s kind at a point.
pub open spec fn mouse_step(
    kind: MouseEventKind,
    button: PointerButton,
    at: PointRole,
    click_state: Option<i64>,
) -> InputStep {
    InputStep::Mouse { kind, button, at, click_state }
}

/// The press and release of `button` at the request's point with a click count.
pub open spec fn click_steps(button: MouseButton, click_state: i64) -> Seq<InputStep> {
    let events = mac_button_events(button);
    seq![
        mouse_step(events.down, events.button, PointRole::Start, Some(click_state)),
        mouse_step(events.up, events.button, PointRole::Start, Some(click_state)),
    ]
}

/// A key press: the key goes down and then up.
pub open spec fn key_press_steps(code: u16) -> Seq<InputStep> {
    seq![InputStep::Key { code, pressed: true }, InputStep::Key { code, pressed: false }]
}

/// The events that type one character: line breaks press Return, tabs press
/// Tab, and every other character is sent as its UTF-16 code units.
pub open spec fn typing_steps(c: char) -> Seq<InputStep> {
    if c == '\n' || c == '\r' {
        key_press_steps(mac_key_code(Key::Return))
    } else if c == '\t' {
        key_press_steps(mac_key_code(Key::Tab))
    } else {
        seq![
            InputStep::Text { units: utf16_of(c), pressed: true },
            InputStep::Text { units: utf16_of(c), pressed: false },
        ]
    }
}

/// A scroll event; a horizontal delta needs a second wheel.
pub open spec fn scroll_step(horizontal: i32, vertical: i32) -> InputStep {
    InputStep::Scroll { wheel_count: if horizontal == 0 { 1 } else { 2 }, vertical, horizontal }
}

/// The batches that scroll by the given deltas: nothing for no movement, one
/// event for movement along one axis, and a vertical then a horizontal event
/// for movement along both.
pub open spec fn scroll_batches(horizontal: i32, vertical: i32) -> Seq<Seq<InputStep>> {
    if horizontal == 0 && vertical == 0 {
        seq![]
    } else if horizontal != 0 && vertical != 0 {
        seq![seq![scroll_step(0, vertical), scroll_step(horizontal, 0)]]
    } else {
        seq![seq![scroll_step(horizontal, vertical)]]
    }
}

/// A Windows key press: the key goes down and then up.
pub open spec fn scan_key_press_steps(key: WindowsKey) -> Seq<InputStep> {
    seq![InputStep::ScanKey { key, pressed: true }, InputStep::ScanKey { key, pressed: false }]
}

/// The Windows events that type one character: line breaks press Return,
/// tabs press Tab, and every other character is sent as its UTF-16 code
/// units.
pub open spec fn windows_typing_steps(c: char) -> Seq<InputStep> {
    if c == '\n' || c == '\r' {
        scan_key_press_steps(windows_key_of(Key::Return))
    } else if c == '\t' {
        scan_key_press_steps(windows_key_of(Key::Tab))
    } else {
        seq![
            InputStep::Text { units: utf16_of(c), pressed: true },
            InputStep::Text { units: utf16_of(c), pressed: false },
        ]
    }
}

/// The Windows batches that scroll by the given numbers of lines: nothing
/// for no movement, one wheel event for movement along one axis, and a
/// vertical then a horizontal wheel event for movement along both.
pub open spec fn wheel_batches(horizontal: i32, vertical: i32) -> Seq<Seq<InputStep>> {
    let vertical_step = InputStep::Wheel { horizontal: false, delta: wheel_delta_of(vertical) };
    let horizontal_step = InputStep::Wheel { horizontal: true, delta: wheel_delta_of(horizontal) };
    if horizontal == 0 && vertical == 0 {
        seq![]
    } else if horizontal != 0 && vertical != 0 {
        seq![seq![vertical_step, horizontal_step]]
    } else if horizontal == 0 {
        seq![seq![vertical_step]]
    } else {
        seq![seq![horizontal_step]]
    }
}

/// A Windows click of `button`: press and release sent together.
pub open spec fn windows_click_step(button: MouseButton) -> InputStep {
    InputStep::SendClick { down: windows_button_flags(button).0, up: windows_button_flags(button).1 }
}

/// The Windows cursor move to the request's point.
pub open spec fn cursor_to(at: PointRole) -> InputStep {
    InputStep::MoveCursor { at }
}

/// The result of a request that the platform does not implement.
pub open spec fn unsupported<T>() -> Result<T, Error> {
    Err(Error::UnsupportedPlatform)
}

/// `plan` obtains an event source and consists of exactly `batches`.
pub open spec fn plan_is(plan: InputPlan, acquire_source: bool, batches: Seq<Seq<InputStep>>) -> bool {
    plan.acquire_source == acquire_source && plan.steps() == batches
}

/// `result` is a plan that obtains an event source exactly when
/// `acquire_source` holds and consists of exactly `batches`.
pub open spec fn planned(
    result: Result<InputPlan, Error>,
    acquire_source: bool,
    batches: Seq<Seq<InputStep>>,
) -> bool {
    result matches Ok(plan) && plan_is(plan, acquire_source, batches)
}

fn single_batch(acquire_source: bool, batch: Vec<InputStep>) -> (plan: InputPlan)
    ensures
        plan_is(plan, acquire_source, seq![batch@]),
{
    let mut batches: Vec<Vec<InputStep>> = Vec::new();
    batches.push(batch);
    let plan = InputPlan { acquire_source, batches };
    proof {
        assert(plan.steps() =~= seq![batch@]);
    }
    plan
}

fn one_step(step: InputStep) -> (batch: Vec<InputStep>)
    ensures
        batch@ == seq![step],
{
    let mut batch: Vec<InputStep> = Vec::new();
    batch.push(step);
    proof {
        assert(batch@ =~= seq![step]);
    }
    batch
}

fn mouse(kind: MouseEventKind, button: PointerButton, at: PointRole, click_state: Option<i64>) -> (step: InputStep)
    ensures
        step == mouse_step(kind, button, at, click_state),
{
    InputStep::Mouse { kind, button, at, click_state }
}

impl Computer {
    /// Connects to the computer-control backend of `platform`.
    pub fn new(platform: Platform) -> (result: Result<Computer, Error>)
        ensures
            platform == Platform::Unsupported ==> result is Err && result->Err_0
                == Error::UnsupportedPlatform,
            platform != Platform::Unsupported ==> (result matches Ok(computer) && computer@
                == platform),
    {
        match platform {
            Platform::Unsupported => Err(Error::UnsupportedPlatform),
            _ => Ok(Computer { platform }),
        }
    }

    /// The platform whose backend this computer uses.
    pub fn platform(&self) -> (platform: Platform)
        ensures
            platform == self@,
    {
        self.platform
    }

    /// Clicks `button` at the request's point.
    pub fn click(&self, button: MouseButton) -> (result: Result<InputPlan, Error>)
        ensures
            self@ == Platform::MacOs ==> planned(result, true, seq![click_steps(button, 1)]),
            self@ == Platform::Windows ==> planned(
                result,
                false,
                seq![seq![cursor_to(PointRole::Start), windows_click_step(button)]],
            ),
            self@ == Platform::Unsupported ==> result == unsupported::<InputPlan>(),
    {
        match self.platform {
            Platform::MacOs => {
                let events = mouse_events(button);
                let batch = vec![
                    mouse(events.down, events.button, PointRole::Start, Some(1)),
                    mouse(events.up, events.button, PointRole::Start, Some(1)),
                ];
                Ok(single_batch(true, batch))
            },
            Platform::Windows => {
                let (down, up) = windows_mouse_flags(button);
                let batch = vec![
                    InputStep::MoveCursor { at: PointRole::Start },
                    InputStep::SendClick { down, up },
                ];
                Ok(single_batch(false, batch))
            },
            Platform::Unsupported => Err(Error::UnsupportedPlatform),
        }
    }

    /// Double-clicks `button` at the request's point: two clicks a pause
    /// apart, on macOS the second with a click count of two.
    pub fn double_click(&self, button: MouseButton) -> (result: Result<InputPlan, Error>)
        ensures
            self@ == Platform::MacOs ==> planned(
                result,
                true,
                seq![click_steps(button, 1) + seq![InputStep::Pause] + click_steps(button, 2)],
            ),
            self@ == Platform::Windows ==> planned(
                result,
                false,
                seq![
                    seq![
                        cursor_to(PointRole::Start),
                        windows_click_step(button),
                        InputStep::Pause,
                        windows_click_step(button),
                    ],
                ],
            ),
            self@ == Platform::Unsupported ==> result == unsupported::<InputPlan>(),
    {
        match self.platform {
            Platform::MacOs => {
                let events = mouse_events(button);
                let batch = vec![
                    mouse(events.down, events.button, PointRole::Start, Some(1)),
                    mouse(events.up, events.button, PointRole::Start, Some(1)),
                    InputStep::Pause,
                    mouse(events.down, events.button, PointRole::Start, Some(2)),
                    mouse(events.up, events.button, PointRole::Start, Some(2)),
                ];
                proof {
                    assert(batch@ =~= click_steps(button, 1) + seq![InputStep::Pause]
                        + click_steps(button, 2));
                }
                Ok(single_batch(true, batch))
            },
            Platform::Windows => {
                let (down, up) = windows_mouse_flags(button);
                let batch = vec![
                    InputStep::MoveCursor { at: PointRole::Start },
                    InputStep::SendClick { down, up },
                    InputStep::Pause,
                    InputStep::SendClick { down, up },
                ];
                Ok(single_batch(false, batch))
            },
            Platform::Unsupported => Err(Error::UnsupportedPlatform),
        }
    }

    /// Moves the mouse cursor to the request's point.
    pub fn move_to(&self) -> (result: Result<InputPlan, Error>)
        ensures
            self@ == Platform::MacOs ==> planned(
                result,
                true,
                seq![
                    seq![
                        mouse_step(
                            MouseEventKind::MouseMoved,
                            PointerButton::Left,
                            PointRole::Start,
                            None,
                        ),
                    ],
                ],
            ),
            self@ == Platform::Windows ==> planned(
                result,
                false,
                seq![seq![cursor_to(PointRole::Start)]],
            ),
            self@ == Platform::Unsupported ==> result == unsupported::<InputPlan>(),
    {
        match self.platform {
            Platform::MacOs => {
                let batch = one_step(
                    mouse(MouseEventKind::MouseMoved, PointerButton::Left, PointRole::Start, None),
                );
                Ok(single_batch(true, batch))
            },
            Platform::Windows => {
                Ok(single_batch(false, one_step(InputStep::MoveCursor { at: PointRole::Start })))
            },
            Platform::Unsupported => Err(Error::UnsupportedPlatform),
        }
    }

    /// Drags `button` from the request's start point to its end point: press
    /// at the start, move to the end, release at the end, a pause apart.
    pub fn drag(&self, button: MouseButton) -> (result: Result<InputPlan, Error>)
        ensures
            self@ == Platform::MacOs ==> planned(
                result,
                true,
                seq![
                    seq![
                        mouse_step(
                            mac_button_events(button).down,
                            mac_button_events(button).button,
                            PointRole::Start,
                            None,
                        ),
                        InputStep::Pause,
                        mouse_step(
                            mac_button_events(button).dragged,
                            mac_button_events(button).button,
                            PointRole::End,
                            None,
                        ),
                        InputStep::Pause,
                        mouse_step(
                            mac_button_events(button).up,
                            mac_button_events(button).button,
                            PointRole::End,
                            None,
                        ),
                    ],
                ],
            ),
            self@ == Platform::Windows ==> planned(
                result,
                false,
                seq![
                    seq![
                        cursor_to(PointRole::Start),
                        InputStep::SendButton { flag: windows_button_flags(button).0 },
                        InputStep::Pause,
                        cursor_to(PointRole::End),
                        InputStep::Pause,
                        InputStep::SendButton { flag: windows_button_flags(button).1 },
                    ],
                ],
            ),
            self@ == Platform::Unsupported ==> result == unsupported::<InputPlan>(),
    {
        match self.platform {
            Platform::MacOs => {
                let events = mouse_events(button);
                let batch = vec![
                    mouse(events.down, events.button, PointRole::Start, None),
                    InputStep::Pause,
                    mouse(events.dragged, events.button, PointRole::End, None),
                    InputStep::Pause,
                    mouse(events.up, events.button, PointRole::End, None),
                ];
                Ok(single_batch(true, batch))
            },
            Platform::Windows => {
                let (down, up) = windows_mouse_flags(button);
                let batch = vec![
                    InputStep::MoveCursor { at: PointRole::Start },
                    InputStep::SendButton { flag: down },
                    InputStep::Pause,
                    InputStep::MoveCursor { at: PointRole::End },
                    InputStep::Pause,
                    InputStep::SendButton { flag: up },
                ];
                Ok(single_batch(false, batch))
            },
            Platform::Unsupported => Err(Error::UnsupportedPlatform),
        }
    }

    /// Presses `button` at the request's point.
    pub fn mouse_down(&self, button: MouseButton) -> (result: Result<InputPlan, Error>)
        ensures
            self@ == Platform::MacOs ==> planned(
                result,
                true,
                seq![
                    seq![
                        mouse_step(
                            mac_button_events(button).down,
                            mac_button_events(button).button,
                            PointRole::Start,
                            None,
                        ),
                    ],
                ],
            ),
            self@ == Platform::Windows ==> planned(
                result,
                false,
                seq![
                    seq![
                        cursor_to(PointRole::Start),
                        InputStep::SendButton { flag: windows_button_flags(button).0 },
                    ],
                ],
            ),
            self@ == Platform::Unsupported ==> result == unsupported::<InputPlan>(),
    {
        match self.platform {
            Platform::MacOs => {
                let events = mouse_events(button);
                Ok(
                    single_batch(
                        true,
                        one_step(mouse(events.down, events.button, PointRole::Start, None)),
                    ),
                )
            },
            Platform::Windows => {
                let (down, _) = windows_mouse_flags(button);
                let batch = vec![
                    InputStep::MoveCursor { at: PointRole::Start },
                    InputStep::SendButton { flag: down },
                ];
                Ok(single_batch(false, batch))
            },
            Platform::Unsupported => Err(Error::UnsupportedPlatform),
        }
    }

    /// Releases `button` at the request's point.
    pub fn mouse_up(&self, button: MouseButton) -> (result: Result<InputPlan, Error>)
        ensures
            self@ == Platform::MacOs ==> planned(
                result,
                true,
                seq![
                    seq![
                        mouse_step(
                            mac_button_events(button).up,
                            mac_button_events(button).button,
                            PointRole::Start,
                            None,
                        ),
                    ],
                ],
            ),
            self@ == Platform::Windows ==> planned(
                result,
                false,
                seq![
                    seq![
                        cursor_to(PointRole::Start),
                        InputStep::SendButton { flag: windows_button_flags(button).1 },
                    ],
                ],
            ),
            self@ == Platform::Unsupported ==> result == unsupported::<InputPlan>(),
    {
        match self.platform {
            Platform::MacOs => {
                let events = mouse_events(button);
                Ok(
                    single_batch(
                        true,
                        one_step(mouse(events.up, events.button, PointRole::Start, None)),
                    ),
                )
            },
            Platform::Windows => {
                let (_, up) = windows_mouse_flags(button);
                let batch = vec![
                    InputStep::MoveCursor { at: PointRole::Start },
                    InputStep::SendButton { flag: up },
                ];
                Ok(single_batch(false, batch))
            },
            Platform::Unsupported => Err(Error::UnsupportedPlatform),
        }
    }

    /// Scrolls the focused target by signed logical deltas.
    ///
    /// Positive horizontal values scroll right; positive vertical values
    /// scroll up. No movement sends nothing and needs no event source.
    pub fn scroll(&self, horizontal: i32, vertical: i32) -> (result: Result<InputPlan, Error>)
        ensures
            self@ == Platform::MacOs ==> planned(
                result,
                !(horizontal == 0 && vertical == 0),
                scroll_batches(horizontal, vertical),
            ),
            self@ == Platform::Windows ==> planned(
                result,
                false,
                wheel_batches(horizontal, vertical),
            ),
            self@ == Platform::Unsupported ==> result == unsupported::<InputPlan>(),
    {
        match self.platform {
            Platform::MacOs => {
                if horizontal == 0 && vertical == 0 {
                    let plan = InputPlan { acquire_source: false, batches: Vec::new() };
                    proof {
                        assert(plan.steps() =~= scroll_batches(horizontal, vertical));
                    }
                    return Ok(plan);
                }
                let batch = if horizontal != 0 && vertical != 0 {
                    vec![
                        InputStep::Scroll { wheel_count: 1, vertical, horizontal: 0 },
                        InputStep::Scroll { wheel_count: 2, vertical: 0, horizontal },
                    ]
                } else {
                    let wheel_count: u32 = if horizontal == 0 {
                        1
                    } else {
                        2
                    };
                    one_step(InputStep::Scroll { wheel_count, vertical, horizontal })
                };
                proof {
                    assert(seq![batch@] =~= scroll_batches(horizontal, vertical));
                }
                Ok(single_batch(true, batch))
            },
            Platform::Windows => {
                if horizontal == 0 && vertical == 0 {
                    let plan = InputPlan { acquire_source: false, batches: Vec::new() };
                    proof {
                        assert(plan.steps() =~= wheel_batches(horizontal, vertical));
                    }
                    return Ok(plan);
                }
                let vertical_step = InputStep::Wheel {
                    horizontal: false,
                    delta: wheel_delta(vertical),
                };
                let horizontal_step = InputStep::Wheel {
                    horizontal: true,
                    delta: wheel_delta(horizontal),
                };
                let batch = if horizontal != 0 && vertical != 0 {
                    vec![vertical_step, horizontal_step]
                } else if horizontal == 0 {
                    one_step(vertical_step)
                } else {
                    one_step(horizontal_step)
                };
                proof {
                    assert(seq![batch@] =~= wheel_batches(horizontal, vertical));
                }
                Ok(single_batch(false, batch))
            },
            Platform::Unsupported => Err(Error::UnsupportedPlatform),
        }
    }

    /// Presses and releases `key`.
    pub fn key_press(&self, key: Key) -> (result: Result<InputPlan, Error>)
        ensures
            self@ == Platform::MacOs ==> planned(
                result,
                true,
                seq![key_press_steps(mac_key_code(key))],
            ),
            self@ == Platform::Windows ==> planned(
                result,
                false,
                seq![scan_key_press_steps(windows_key_of(key))],
            ),
            self@ == Platform::Unsupported ==> result == unsupported::<InputPlan>(),
    {
        match self.platform {
            Platform::MacOs => {
                let code = key_code(key);
                let batch = vec![
                    InputStep::Key { code, pressed: true },
                    InputStep::Key { code, pressed: false },
                ];
                Ok(single_batch(true, batch))
            },
            Platform::Windows => {
                let code = windows_key(key);
                let batch = vec![
                    InputStep::ScanKey { key: code, pressed: true },
                    InputStep::ScanKey { key: code, pressed: false },
                ];
                Ok(single_batch(false, batch))
            },
            Platform::Unsupported => Err(Error::UnsupportedPlatform),
        }
    }

    /// Presses `key` until it is released.
    pub fn key_down(&self, key: Key) -> (result: Result<InputPlan, Error>)
        ensures
            self@ == Platform::MacOs ==> planned(
                result,
                true,
                seq![seq![InputStep::Key { code: mac_key_code(key), pressed: true }]],
            ),
            self@ == Platform::Windows ==> planned(
                result,
                false,
                seq![seq![InputStep::ScanKey { key: windows_key_of(key), pressed: true }]],
            ),
            self@ == Platform::Unsupported ==> result == unsupported::<InputPlan>(),
    {
        match self.platform {
            Platform::MacOs => {
                let code = key_code(key);
                Ok(single_batch(true, one_step(InputStep::Key { code, pressed: true })))
            },
            Platform::Windows => {
                let code = windows_key(key);
                Ok(single_batch(false, one_step(InputStep::ScanKey { key: code, pressed: true })))
            },
            Platform::Unsupported => Err(Error::UnsupportedPlatform),
        }
    }

    /// Releases `key`.
    pub fn key_up(&self, key: Key) -> (result: Result<InputPlan, Error>)
        ensures
            self@ == Platform::MacOs ==> planned(
                result,
                true,
                seq![seq![InputStep::Key { code: mac_key_code(key), pressed: false }]],
            ),
            self@ == Platform::Windows ==> planned(
                result,
                false,
                seq![seq![InputStep::ScanKey { key: windows_key_of(key), pressed: false }]],
            ),
            self@ == Platform::Unsupported ==> result == unsupported::<InputPlan>(),
    {
        match self.platform {
            Platform::MacOs => {
                let code = key_code(key);
                Ok(single_batch(true, one_step(InputStep::Key { code, pressed: false })))
            },
            Platform::Windows => {
                let code = windows_key(key);
                Ok(single_batch(false, one_step(InputStep::ScanKey { key: code, pressed: false })))
            },
            Platform::Unsupported => Err(Error::UnsupportedPlatform),
        }
    }

    /// Types Unicode text into the focused application, one batch of events
    /// per character.
    pub fn type_text(&self, text: &str) -> (result: Result<InputPlan, Error>)
        ensures
            self@ == Platform::MacOs ==> planned(
                result,
                true,
                text@.map_values(|c: char| typing_steps(c)),
            ),
            self@ == Platform::Windows ==> planned(
                result,
                false,
                text@.map_values(|c: char| windows_typing_steps(c)),
            ),
            self@ == Platform::Unsupported ==> result == unsupported::<InputPlan>(),
    {
        if self.platform == Platform::Unsupported {
            return Err(Error::UnsupportedPlatform);
        }
        let mac = self.platform == Platform::MacOs;
        let mut batches: Vec<Vec<InputStep>> = Vec::new();
        let return_code = key_code(Key::Return);
        let tab_code = key_code(Key::Tab);
        let return_key = windows_key(Key::Return);
        let tab_key = windows_key(Key::Tab);
        for character in it: text.chars()
            invariant
                mac == (self@ == Platform::MacOs),
                return_code == mac_key_code(Key::Return),
                tab_code == mac_key_code(Key::Tab),
                return_key == windows_key_of(Key::Return),
                tab_key == windows_key_of(Key::Tab),
                it.seq() == text@,
                batches@.len() == it.index(),
                forall|i: int|
                    0 <= i < batches@.len() ==> #[trigger] batches@[i]@ == (if mac {
                        typing_steps(text@[i])
                    } else {
                        windows_typing_steps(text@[i])
                    }),
        {
            let batch = if character == '\n' || character == '\r' {
                if mac {
                    vec![
                        InputStep::Key { code: return_code, pressed: true },
                        InputStep::Key { code: return_code, pressed: false },
                    ]
                } else {
                    vec![
                        InputStep::ScanKey { key: return_key, pressed: true },
                        InputStep::ScanKey { key: return_key, pressed: false },
                    ]
                }
            } else if character == '\t' {
                if mac {
                    vec![
                        InputStep::Key { code: tab_code, pressed: true },
                        InputStep::Key { code: tab_code, pressed: false },
                    ]
                } else {
                    vec![
                        InputStep::ScanKey { key: tab_key, pressed: true },
                        InputStep::ScanKey { key: tab_key, pressed: false },
                    ]
                }
            } else {
                let units = encode_utf16(character);
                vec![
                    InputStep::Text { units, pressed: true },
                    InputStep::Text { units, pressed: false },
                ]
            };
            proof {
                if mac {
                    assert(batch@ =~= typing_steps(character));
                } else {
                    assert(batch@ =~= windows_typing_steps(character));
                }
            }
            batches.push(batch);
        }
        let plan = InputPlan { acquire_source: mac, batches };
        proof {
            if mac {
                assert(plan.steps() =~= text@.map_values(|c: char| typing_steps(c)));
            } else {
                assert(plan.steps() =~= text@.map_values(|c: char| windows_typing_steps(c)));
            }
        }
        Ok(plan)
    }

    /// Reads plain text from the system clipboard.
    pub fn read_clipboard(&self) -> (result: Result<ClipboardRequest, Error>)
        ensures
            self@ != Platform::Unsupported ==> result matches Ok(ClipboardRequest::Read),
            self@ == Platform::Unsupported ==> result == unsupported::<ClipboardRequest>(),
    {
        match self.platform {
            Platform::Unsupported => Err(Error::UnsupportedPlatform),
            _ => Ok(ClipboardRequest::Read),
        }
    }

    /// Replaces the system clipboard with plain text.
    pub fn write_clipboard(&self, text: &str) -> (result: Result<ClipboardRequest, Error>)
        ensures
            self@ != Platform::Unsupported ==> (result matches Ok(ClipboardRequest::Write(stored))
                && stored@ == text@),
            self@ == Platform::Unsupported ==> result == unsupported::<ClipboardRequest>(),
    {
        match self.platform {
            Platform::Unsupported => Err(Error::UnsupportedPlatform),
            _ => Ok(ClipboardRequest::Write(text.to_string())),
        }
    }
}

/// The result of asking for a permission that the operating system grants
/// or refuses.
pub fn require_permission(granted: bool) -> (result: Result<(), Error>)
    ensures
        granted <==> result is Ok,
        !granted ==> result == Err::<(), Error>(Error::PermissionDenied),
{
    if granted {
        Ok(())
    } else {
        Err(Error::PermissionDenied)
    }
}

/// The result of storing text on the clipboard, given whether the system
/// reported it stored.
pub fn clipboard_write_result(written: bool) -> (result: Result<(), Error>)
    ensures
        written <==> result is Ok,
        !written ==> result == Err::<(), Error>(Error::OperationFailed),
{
    if written {
        Ok(())
    } else {
        Err(Error::OperationFailed)
    }
}

/// Typing never leaves a key held: every character is one key or text event
/// that goes down and the same event going up right after it.
pub proof fn lemma_typing_releases_every_key(c: char)
    ensures
        typing_steps(c).len() == 2,
        typing_steps(c)[0] matches InputStep::Key { code, pressed } ==> pressed
            && typing_steps(c)[1] == (InputStep::Key { code, pressed: false }),
        typing_steps(c)[0] matches InputStep::Text { units, pressed } ==> pressed
            && typing_steps(c)[1] == (InputStep::Text { units, pressed: false }),
        typing_steps(c)[0] is Key || typing_steps(c)[0] is Text,
{
}

/// Typing on Windows never leaves a key held either.
pub proof fn lemma_windows_typing_releases_every_key(c: char)
    ensures
        windows_typing_steps(c).len() == 2,
        windows_typing_steps(c)[0] matches InputStep::ScanKey { key, pressed } ==> pressed
            && windows_typing_steps(c)[1] == (InputStep::ScanKey { key, pressed: false }),
        windows_typing_steps(c)[0] matches InputStep::Text { units, pressed } ==> pressed
            && windows_typing_steps(c)[1] == (InputStep::Text { units, pressed: false }),
        windows_typing_steps(c)[0] is ScanKey || windows_typing_steps(c)[0] is Text,
{
}

/// A click presses and releases the same button at the same point with the
/// same click count, in that order; on Windows the press and release are
/// sent together after the cursor reached the point.
pub proof fn lemma_click_releases_its_button(button: MouseButton, click_state: i64)
    ensures
        click_steps(button, click_state) == seq![
            InputStep::Mouse {
                kind: mac_button_events(button).down,
                button: mac_button_events(button).button,
                at: PointRole::Start,
                click_state: Some(click_state),
            },
            InputStep::Mouse {
                kind: mac_button_events(button).up,
                button: mac_button_events(button).button,
                at: PointRole::Start,
                click_state: Some(click_state),
            },
        ],
        mac_button_events(button).down != mac_button_events(button).up,
        windows_click_step(button) == (InputStep::SendClick {
            down: windows_button_flags(button).0,
            up: windows_button_flags(button).1,
        }),
        cursor_to(PointRole::Start) == (InputStep::MoveCursor { at: PointRole::Start }),
        cursor_to(PointRole::End) == (InputStep::MoveCursor { at: PointRole::End }),
{
}

/// A key press on Windows is the key's scan code going down and then the
/// same scan code coming up.
pub proof fn lemma_scan_key_press_is_down_then_up(key: WindowsKey)
    ensures
        scan_key_press_steps(key) == seq![
            InputStep::ScanKey { key, pressed: true },
            InputStep::ScanKey { key, pressed: false },
        ],
{
}

/// How a macOS scroll by `horizontal` and `vertical` lines is sent: nothing
/// without movement; a vertical movement as one single-wheel event; a
/// horizontal movement, of either sign, as one two-wheel event carrying it
/// as the second wheel; and a movement along both axes as the vertical event
/// followed by the horizontal one, created together.
pub proof fn lemma_mac_scroll_events(horizontal: i32, vertical: i32)
    ensures
        horizontal == 0 && vertical == 0 ==> scroll_batches(horizontal, vertical).len() == 0,
        horizontal == 0 && vertical != 0 ==> scroll_batches(horizontal, vertical) == seq![
            seq![InputStep::Scroll { wheel_count: 1, vertical, horizontal: 0 }],
        ],
        horizontal != 0 && vertical == 0 ==> scroll_batches(horizontal, vertical) == seq![
            seq![InputStep::Scroll { wheel_count: 2, vertical: 0, horizontal }],
        ],
        horizontal != 0 && vertical != 0 ==> scroll_batches(horizontal, vertical) == seq![
            seq![
                InputStep::Scroll { wheel_count: 1, vertical, horizontal: 0 },
                InputStep::Scroll { wheel_count: 2, vertical: 0, horizontal },
            ],
        ],
{
}

/// How a Windows scroll is sent: nothing without movement; each moving axis
/// as one wheel event of 120 units per line (saturating), the vertical one
/// first.
pub proof fn lemma_windows_scroll_events(horizontal: i32, vertical: i32)
    ensures
        horizontal == 0 && vertical == 0 ==> wheel_batches(horizontal, vertical).len() == 0,
        horizontal == 0 && vertical != 0 ==> wheel_batches(horizontal, vertical) == seq![
            seq![InputStep::Wheel { horizontal: false, delta: wheel_delta_of(vertical) }],
        ],
        horizontal != 0 && vertical == 0 ==> wheel_batches(horizontal, vertical) == seq![
            seq![InputStep::Wheel { horizontal: true, delta: wheel_delta_of(horizontal) }],
        ],
        horizontal != 0 && vertical != 0 ==> wheel_batches(horizontal, vertical) == seq![
            seq![
                InputStep::Wheel { horizontal: false, delta: wheel_delta_of(vertical) },
                InputStep::Wheel { horizontal: true, delta: wheel_delta_of(horizontal) },
            ],
        ],
{
}

/// A key press on macOS is the key's code going down and then the same code
/// coming up.
pub proof fn lemma_key_press_is_down_then_up(code: u16)
    ensures
        key_press_steps(code) == seq![
            InputStep::Key { code, pressed: true },
            InputStep::Key { code, pressed: false },
        ],
{
}

/// Typing on macOS: both line breaks, `'\n'` and `'\r'`, press and release
/// the Return key (virtual key code 36); a tab presses and releases Tab (48);
/// every other character is sent as text whose UTF-16 code units stand for
/// exactly that character, going down and then up.
pub proof fn lemma_mac_typing(c: char)
    ensures
        c == '\n' || c == '\r' ==> typing_steps(c) == seq![
            InputStep::Key { code: 36, pressed: true },
            InputStep::Key { code: 36, pressed: false },
        ],
        c == '\t' ==> typing_steps(c) == seq![
            InputStep::Key { code: 48, pressed: true },
            InputStep::Key { code: 48, pressed: false },
        ],
        c != '\n' && c != '\r' && c != '\t' ==> {
            &&& typing_steps(c).len() == 2
            &&& typing_steps(c)[0] matches InputStep::Text { units, pressed }
            &&& pressed
            &&& utf16_value(units) == c as int
            &&& typing_steps(c)[1] == (InputStep::Text { units, pressed: false })
        },
{
    lemma_utf16_round_trip(c);
}

/// Typing on Windows: both line breaks press and release the Return key
/// (scan code 0x1C); a tab presses and releases Tab (0x0F); every other
/// character is sent as text whose UTF-16 code units stand for exactly that
/// character, going down and then up.
pub proof fn lemma_windows_typing(c: char)
    ensures
        c == '\n' || c == '\r' ==> windows_typing_steps(c) == seq![
            InputStep::ScanKey { key: WindowsKey { scan: 0x1C, extended: false }, pressed: true },
            InputStep::ScanKey { key: WindowsKey { scan: 0x1C, extended: false }, pressed: false },
        ],
        c == '\t' ==> windows_typing_steps(c) == seq![
            InputStep::ScanKey { key: WindowsKey { scan: 0x0F, extended: false }, pressed: true },
            InputStep::ScanKey { key: WindowsKey { scan: 0x0F, extended: false }, pressed: false },
        ],
        c != '\n' && c != '\r' && c != '\t' ==> {
            &&& windows_typing_steps(c).len() == 2
            &&& windows_typing_steps(c)[0] matches InputStep::Text { units, pressed }
            &&& pressed
            &&& utf16_value(units) == c as int
            &&& windows_typing_steps(c)[1] == (InputStep::Text { units, pressed: false })
        },
{
    lemma_utf16_round_trip(c);
}

/// Typing a text sends exactly one batch per character, in order; each line
/// break of the text becomes a Return key press on macOS.
pub proof fn lemma_typing_follows_the_text(text: Seq<char>, i: int)
    requires
        0 <= i < text.len(),
    ensures
        text.map_values(|c: char| typing_steps(c)).len() == text.len(),
        text.map_values(|c: char| typing_steps(c))[i] == typing_steps(text[i]),
        text[i] == '\n' || text[i] == '\r' ==> text.map_values(|c: char| typing_steps(c))[i]
            == seq![
            InputStep::Key { code: 36, pressed: true },
            InputStep::Key { code: 36, pressed: false },
        ],
{
    lemma_mac_typing(text[i]);
}

} // verus!
