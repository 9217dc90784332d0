//! Browser integration: DOM and standard-gamepad code mappings, canvas size
//! sanitizing and browser backend labels.

use vstd::prelude::*;

use crate::input::{GamepadAxis, GamepadButton, KeyCode, PointerButton, TouchPhase};
#[allow(unused_imports)]
use vstd::string::*;

verus! {

/// The key named by a DOM `KeyboardEvent.code` string, if it is mapped.
pub open spec fn dom_key(code: Seq<char>) -> Option<KeyCode> {
    if code == "KeyW"@ {
        Some(KeyCode::KeyW)
    } else if code == "KeyA"@ {
        Some(KeyCode::KeyA)
    } else if code == "KeyS"@ {
        Some(KeyCode::KeyS)
    } else if code == "KeyD"@ {
        Some(KeyCode::KeyD)
    } else if code == "KeyQ"@ {
        Some(KeyCode::KeyQ)
    } else if code == "KeyE"@ {
        Some(KeyCode::KeyE)
    } else if code == "Space"@ {
        Some(KeyCode::Space)
    } else if code == "ShiftLeft"@ {
        Some(KeyCode::ShiftLeft)
    } else if code == "ShiftRight"@ {
        Some(KeyCode::ShiftRight)
    } else if code == "ControlLeft"@ {
        Some(KeyCode::ControlLeft)
    } else if code == "ControlRight"@ {
        Some(KeyCode::ControlRight)
    } else if code == "AltLeft"@ {
        Some(KeyCode::AltLeft)
    } else if code == "AltRight"@ {
        Some(KeyCode::AltRight)
    } else if code == "MetaLeft"@ {
        Some(KeyCode::MetaLeft)
    } else if code == "MetaRight"@ {
        Some(KeyCode::MetaRight)
    } else if code == "ArrowUp"@ {
        Some(KeyCode::ArrowUp)
    } else if code == "ArrowDown"@ {
        Some(KeyCode::ArrowDown)
    } else if code == "ArrowLeft"@ {
        Some(KeyCode::ArrowLeft)
    } else if code == "ArrowRight"@ {
        Some(KeyCode::ArrowRight)
    } else if code == "Escape"@ {
        Some(KeyCode::Escape)
    } else if code == "Enter"@ {
        Some(KeyCode::Enter)
    } else if code == "Tab"@ {
        Some(KeyCode::Tab)
    } else {
        None
    }
}

/// Whether two strings hold the same text.
fn str_equals(a: &str, b: &str) -> (equal: bool)
    ensures
        equal == (a@ == b@),
{
    let n = a.unicode_len();
    if n != b.unicode_len() {
        return false;
    }
    let mut i: usize = 0;
    while i < n
        invariant
            n == a@.len(),
            n == b@.len(),
            i <= n,
            forall|j: int| 0 <= j < i ==> a@[j] == b@[j],
        decreases n - i,
    {
        if a.get_char(i) != b.get_char(i) {
            return false;
        }
        i = i + 1;
    }
    assert(a@ =~= b@);
    true
}

/// Maps a DOM `KeyboardEvent.code` string to a key code.
pub fn key_code_from_dom(code: &str) -> (key: Option<KeyCode>)
    ensures
        key == dom_key(code@),
{
    if str_equals(code, "KeyW") {
        return Some(KeyCode::KeyW);
    }
    if str_equals(code, "KeyA") {
        return Some(KeyCode::KeyA);
    }
    if str_equals(code, "KeyS") {
        return Some(KeyCode::KeyS);
    }
    if str_equals(code, "KeyD") {
        return Some(KeyCode::KeyD);
    }
    if str_equals(code, "KeyQ") {
        return Some(KeyCode::KeyQ);
    }
    if str_equals(code, "KeyE") {
        return Some(KeyCode::KeyE);
    }
    if str_equals(code, "Space") {
        return Some(KeyCode::Space);
    }
    if str_equals(code, "ShiftLeft") {
        return Some(KeyCode::ShiftLeft);
    }
    if str_equals(code, "ShiftRight") {
        return Some(KeyCode::ShiftRight);
    }
    if str_equals(code, "ControlLeft") {
        return Some(KeyCode::ControlLeft);
    }
    if str_equals(code, "ControlRight") {
        return Some(KeyCode::ControlRight);
    }
    if str_equals(code, "AltLeft") {
        return Some(KeyCode::AltLeft);
    }
    if str_equals(code, "AltRight") {
        return Some(KeyCode::AltRight);
    }
    if str_equals(code, "MetaLeft") {
        return Some(KeyCode::MetaLeft);
    }
    if str_equals(code, "MetaRight") {
        return Some(KeyCode::MetaRight);
    }
    if str_equals(code, "ArrowUp") {
        return Some(KeyCode::ArrowUp);
    }
    if str_equals(code, "ArrowDown") {
        return Some(KeyCode::ArrowDown);
    }
    if str_equals(code, "ArrowLeft") {
        return Some(KeyCode::ArrowLeft);
    }
    if str_equals(code, "ArrowRight") {
        return Some(KeyCode::ArrowRight);
    }
    if str_equals(code, "Escape") {
        return Some(KeyCode::Escape);
    }
    if str_equals(code, "Enter") {
        return Some(KeyCode::Enter);
    }
    if str_equals(code, "Tab") {
        return Some(KeyCode::Tab);
    }
    None
}

/// The pointer button for a DOM pointer button number, if it is mapped.
pub open spec fn dom_pointer_button(button: i16) -> Option<PointerButton> {
    match button {
        0i16 => Some(PointerButton::Left),
        1i16 => Some(PointerButton::Middle),
        2i16 => Some(PointerButton::Right),
        3i16 => Some(PointerButton::Back),
        4i16 => Some(PointerButton::Forward),
        _ => None,
    }
}

/// Maps a DOM pointer button integer to a pointer button.
pub fn pointer_button_from_dom(button: i16) -> (mapped: Option<PointerButton>)
    ensures
        mapped == dom_pointer_button(button),
{
    match button {
        0 => Some(PointerButton::Left),
        1 => Some(PointerButton::Middle),
        2 => Some(PointerButton::Right),
        3 => Some(PointerButton::Back),
        4 => Some(PointerButton::Forward),
        _ => None,
    }
}

/// The touch phase for a compact browser phase code, if it is mapped.
pub open spec fn dom_touch_phase(phase: u8) -> Option<TouchPhase> {
    match phase {
        0u8 => Some(TouchPhase::Started),
        1u8 => Some(TouchPhase::Moved),
        2u8 => Some(TouchPhase::Ended),
        3u8 => Some(TouchPhase::Cancelled),
        _ => None,
    }
}

/// Maps a compact browser touch phase code (`0..=3`) to a touch phase.
pub fn touch_phase_from_dom(phase: u8) -> (mapped: Option<TouchPhase>)
    ensures
        mapped == dom_touch_phase(phase),
{
    match phase {
        0 => Some(TouchPhase::Started),
        1 => Some(TouchPhase::Moved),
        2 => Some(TouchPhase::Ended),
        3 => Some(TouchPhase::Cancelled),
        _ => None,
    }
}

/// The gamepad axis at a standard-mapping axis index, if any.
pub open spec fn standard_axis(axis: u8) -> Option<GamepadAxis> {
    match axis {
        0u8 => Some(GamepadAxis::LeftX),
        1u8 => Some(GamepadAxis::LeftY),
        2u8 => Some(GamepadAxis::RightX),
        3u8 => Some(GamepadAxis::RightY),
        _ => None,
    }
}

/// Maps a standard gamepad axis index to a gamepad axis.
pub fn gamepad_axis_from_standard(axis: u8) -> (mapped: Option<GamepadAxis>)
    ensures
        mapped == standard_axis(axis),
{
    match axis {
        0 => Some(GamepadAxis::LeftX),
        1 => Some(GamepadAxis::LeftY),
        2 => Some(GamepadAxis::RightX),
        3 => Some(GamepadAxis::RightY),
        _ => None,
    }
}

/// The gamepad button at a standard-mapping button index, if any.
pub open spec fn standard_button(button: u8) -> Option<GamepadButton> {
    match button {
        0u8 => Some(GamepadButton::South),
        1u8 => Some(GamepadButton::East),
        2u8 => Some(GamepadButton::West),
        3u8 => Some(GamepadButton::North),
        4u8 => Some(GamepadButton::LeftBumper),
        5u8 => Some(GamepadButton::RightBumper),
        6u8 => Some(GamepadButton::LeftTrigger),
        7u8 => Some(GamepadButton::RightTrigger),
        8u8 => Some(GamepadButton::Select),
        9u8 => Some(GamepadButton::Start),
        10u8 => Some(GamepadButton::LeftStick),
        11u8 => Some(GamepadButton::RightStick),
        12u8 => Some(GamepadButton::DPadUp),
        13u8 => Some(GamepadButton::DPadDown),
        14u8 => Some(GamepadButton::DPadLeft),
        15u8 => Some(GamepadButton::DPadRight),
        16u8 => Some(GamepadButton::Home),
        _ => None,
    }
}

/// Maps a standard gamepad button index to a gamepad button.
pub fn gamepad_button_from_standard(button: u8) -> (mapped: Option<GamepadButton>)
    ensures
        mapped == standard_button(button),
{
    match button {
        0 => Some(GamepadButton::South),
        1 => Some(GamepadButton::East),
        2 => Some(GamepadButton::West),
        3 => Some(GamepadButton::North),
        4 => Some(GamepadButton::LeftBumper),
        5 => Some(GamepadButton::RightBumper),
        6 => Some(GamepadButton::LeftTrigger),
        7 => Some(GamepadButton::RightTrigger),
        8 => Some(GamepadButton::Select),
        9 => Some(GamepadButton::Start),
        10 => Some(GamepadButton::LeftStick),
        11 => Some(GamepadButton::RightStick),
        12 => Some(GamepadButton::DPadUp),
        13 => Some(GamepadButton::DPadDown),
        14 => Some(GamepadButton::DPadLeft),
        15 => Some(GamepadButton::DPadRight),
        16 => Some(GamepadButton::Home),
        _ => None,
    }
}

/// The standard mappings are one-to-one on their mapped codes, and map
/// exactly the codes of the standard layout.
pub proof fn lemma_standard_mappings_injective(a: u8, b: u8, c: i16, d: i16)
    ensures
        standard_button(a) is Some <==> a < 17,
        standard_axis(a) is Some <==> a < 4,
        dom_touch_phase(a) is Some <==> a < 4,
        dom_pointer_button(c) is Some <==> 0 <= c < 5,
        standard_button(a) is Some && standard_button(a) == standard_button(b) ==> a == b,
        standard_axis(a) is Some && standard_axis(a) == standard_axis(b) ==> a == b,
        dom_touch_phase(a) is Some && dom_touch_phase(a) == dom_touch_phase(b) ==> a == b,
        dom_pointer_button(c) is Some && dom_pointer_button(c) == dom_pointer_button(d) ==> c == d,
{
}

/// Clamps a canvas/render target size to renderer-valid dimensions.
pub fn clamp_canvas_size(width: u32, height: u32) -> (size: (u32, u32))
    ensures
        size.0 == if width == 0 { 1 } else { width },
        size.1 == if height == 0 { 1 } else { height },
{
    (if width == 0 { 1 } else { width }, if height == 0 { 1 } else { height })
}

/// WebGL capability level used by the browser fallback renderer.
#[derive(Clone, Copy, Debug, Eq, PartialEq, Structural)]
pub enum WebGlCapabilityLevel {
    /// WebGL 1 reduced fallback path.
    WebGl1,
    /// WebGL 2 full browser fallback path for the generated renderer scene.
    WebGl2,
}

impl WebGlCapabilityLevel {
    /// Returns a compact label used in diagnostics.
    pub fn label(self) -> (label: &'static str)
        ensures
            label@ == if self == WebGlCapabilityLevel::WebGl1 {
                "webgl1"@
            } else {
                "webgl2"@
            },
    {
        match self {
            WebGlCapabilityLevel::WebGl1 => "webgl1",
            WebGlCapabilityLevel::WebGl2 => "webgl2",
        }
    }

    /// Returns the renderer parity level for this browser fallback.
    pub fn parity_label(self) -> (label: &'static str)
        ensures
            label@ == if self == WebGlCapabilityLevel::WebGl1 {
                "reduced-fallback"@
            } else {
                "full-fallback"@
            },
    {
        match self {
            WebGlCapabilityLevel::WebGl1 => "reduced-fallback",
            WebGlCapabilityLevel::WebGl2 => "full-fallback",
        }
    }
}

/// Browser renderer wrapper (the browser implementation lives with the
/// WebAssembly build).
#[derive(Debug)]
pub struct WebRenderer;

/// Browser renderer with automatic WebGPU/WebGL backend selection.
#[derive(Debug)]
pub struct BrowserRenderer;

/// Browser WebGL fallback renderer.
#[derive(Debug)]
pub struct WebGlRenderer;

/// Preferred browser rendering backend.
#[derive(Clone, Copy, Debug, Eq, PartialEq, Structural)]
pub enum BrowserBackendPreference {
    /// Select the best available browser backend.
    Auto,
    /// Force WebGPU.
    WebGpu,
    /// Force WebGL.
    WebGl,
}

/// Active browser rendering backend.
#[derive(Clone, Copy, Debug, Eq, PartialEq, Structural)]
pub enum BrowserBackendKind {
    /// WebGPU backend.
    WebGpu,
    /// WebGL backend.
    WebGl,
    /// Application-level Canvas2D fallback.
    CanvasFallback,
}


/// The DOM `KeyboardEvent.code` of a key.
pub open spec fn dom_code(key: KeyCode) -> Seq<char> {
    match key {
        KeyCode::KeyW => "KeyW"@,
        KeyCode::KeyA => "KeyA"@,
        KeyCode::KeyS => "KeyS"@,
        KeyCode::KeyD => "KeyD"@,
        KeyCode::KeyQ => "KeyQ"@,
        KeyCode::KeyE => "KeyE"@,
        KeyCode::Space => "Space"@,
        KeyCode::ShiftLeft => "ShiftLeft"@,
        KeyCode::ShiftRight => "ShiftRight"@,
        KeyCode::ControlLeft => "ControlLeft"@,
        KeyCode::ControlRight => "ControlRight"@,
        KeyCode::AltLeft => "AltLeft"@,
        KeyCode::AltRight => "AltRight"@,
        KeyCode::MetaLeft => "MetaLeft"@,
        KeyCode::MetaRight => "MetaRight"@,
        KeyCode::ArrowUp => "ArrowUp"@,
        KeyCode::ArrowDown => "ArrowDown"@,
        KeyCode::ArrowLeft => "ArrowLeft"@,
        KeyCode::ArrowRight => "ArrowRight"@,
        KeyCode::Escape => "Escape"@,
        KeyCode::Enter => "Enter"@,
        KeyCode::Tab => "Tab"@,
    }
}

/// A DOM code maps only to the key whose DOM code it is: the mapping never
/// hands one key's code to another key.
pub proof fn lemma_dom_key_matches_code(code: Seq<char>)
    ensures
        dom_key(code) matches Some(k) ==> code == dom_code(k),
{
}

/// Standard-mapping button `k` is the button in position `k` of the standard
/// layout (the order in which [`GamepadButton`] lists them, which is also
/// the button's slot in a gamepad's button table), and every position of
/// the layout is mapped.
pub proof fn lemma_standard_button_position(k: u8)
    ensures
        k < 17 ==> standard_button(k) is Some,
        standard_button(k) matches Some(b) ==> b as u8 == k,
{
}

/// The other code tables are positional too: standard axis `k`, DOM pointer
/// button `k` and touch phase `k` are the entries in position `k` of
/// [`GamepadAxis`] (left x, left y, right x, right y), [`PointerButton`]
/// (left, middle, right, back, forward) and [`TouchPhase`] (start, move, end,
/// cancel).
pub proof fn lemma_code_tables_positional(k: u8, c: i16)
    ensures
        k < 4 ==> standard_axis(k) is Some && dom_touch_phase(k) is Some,
        standard_axis(k) matches Some(a) ==> a as u8 == k,
        dom_touch_phase(k) matches Some(p) ==> p as u8 == k,
        0 <= c < 5 ==> dom_pointer_button(c) is Some,
        dom_pointer_button(c) matches Some(b) ==> b as i16 == c,
{
}

} // verus!
