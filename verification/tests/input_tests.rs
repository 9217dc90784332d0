use scenix::ids::{InspectorId, NodeId};
use scenix::input::{
    ButtonState, GamepadAxis, GamepadButton, GamepadId, KeyCode, PointerButton, TouchId, TouchPhase,
    TouchSlotUpdate, TouchSlots, MAX_GAMEPADS, MAX_TOUCH_POINTS,
};
use scenix::web::{
    clamp_canvas_size, gamepad_axis_from_standard, gamepad_button_from_standard,
    key_code_from_dom, pointer_button_from_dom, touch_phase_from_dom, WebGlCapabilityLevel,
};

#[test]
fn touch_slots_lifecycle_reuses_slots() {
    let mut slots = TouchSlots::new();
    assert_eq!(slots.on_event(TouchId(7), TouchPhase::Started), TouchSlotUpdate::Started { slot: 0 });
    assert_eq!(slots.on_event(TouchId(8), TouchPhase::Started), TouchSlotUpdate::Started { slot: 1 });
    assert_eq!(slots.on_event(TouchId(7), TouchPhase::Moved), TouchSlotUpdate::Moved { slot: 0 });
    assert_eq!(slots.on_event(TouchId(7), TouchPhase::Started), TouchSlotUpdate::Restarted { slot: 0 });
    assert_eq!(slots.len(), 2);
    assert_eq!(slots.slot_of(TouchId(8)), Some(1));
    assert_eq!(slots.on_event(TouchId(7), TouchPhase::Ended), TouchSlotUpdate::Removed { slot: 0 });
    assert_eq!(slots.slot_of(TouchId(7)), None);
    assert_eq!(slots.on_event(TouchId(9), TouchPhase::Started), TouchSlotUpdate::Started { slot: 0 });
    assert_eq!(slots.on_event(TouchId(9), TouchPhase::Cancelled), TouchSlotUpdate::Removed { slot: 0 });
    assert_eq!(slots.on_event(TouchId(8), TouchPhase::Ended), TouchSlotUpdate::Removed { slot: 1 });
    assert!(slots.is_empty());
    let unknown = slots.on_event(TouchId(1), TouchPhase::Moved);
    assert_eq!(unknown, TouchSlotUpdate::NotActive);
    assert!(unknown.accepted());
}

#[test]
fn capacity_is_bounded_and_cancel_clears_everything() {
    let mut slots = TouchSlots::default();
    for id in 0..MAX_TOUCH_POINTS as u64 {
        assert!(slots.on_event(TouchId(id), TouchPhase::Started).accepted());
    }
    let refused = slots.on_event(TouchId(99), TouchPhase::Started);
    assert_eq!(refused, TouchSlotUpdate::Full);
    assert!(!refused.accepted());
    assert_eq!(slots.len(), MAX_TOUCH_POINTS);
    slots.cancel_all();
    assert!(slots.is_empty());
    assert_eq!(slots.len(), 0);
}

#[test]
fn dom_and_gamepad_codes_map() {
    assert_eq!(key_code_from_dom("KeyW"), Some(KeyCode::KeyW));
    assert_eq!(key_code_from_dom("ShiftRight"), Some(KeyCode::ShiftRight));
    assert_eq!(key_code_from_dom("Tab"), Some(KeyCode::Tab));
    assert_eq!(key_code_from_dom("KeyZ"), None);
    assert_eq!(key_code_from_dom(""), None);
    assert_eq!(pointer_button_from_dom(0), Some(PointerButton::Left));
    assert_eq!(pointer_button_from_dom(4), Some(PointerButton::Forward));
    assert_eq!(pointer_button_from_dom(-1), None);
    assert_eq!(pointer_button_from_dom(5), None);
    assert_eq!(touch_phase_from_dom(2), Some(TouchPhase::Ended));
    assert_eq!(touch_phase_from_dom(4), None);
    assert_eq!(gamepad_axis_from_standard(3), Some(GamepadAxis::RightY));
    assert_eq!(gamepad_axis_from_standard(4), None);
    assert_eq!(gamepad_button_from_standard(0), Some(GamepadButton::South));
    assert_eq!(gamepad_button_from_standard(16), Some(GamepadButton::Home));
    assert_eq!(gamepad_button_from_standard(17), None);
    assert_eq!(MAX_GAMEPADS, 4);
    assert_eq!(GamepadId::default(), GamepadId(0));
}

#[test]
fn canvas_size_and_labels() {
    assert_eq!(clamp_canvas_size(0, 0), (1, 1));
    assert_eq!(clamp_canvas_size(640, 0), (640, 1));
    assert_eq!(clamp_canvas_size(800, 600), (800, 600));
    assert_eq!(WebGlCapabilityLevel::WebGl1.label(), "webgl1");
    assert_eq!(WebGlCapabilityLevel::WebGl2.label(), "webgl2");
    assert_eq!(WebGlCapabilityLevel::WebGl1.parity_label(), "reduced-fallback");
    assert_eq!(WebGlCapabilityLevel::WebGl2.parity_label(), "full-fallback");
}

#[test]
fn identifiers_round_trip() {
    let id = NodeId::new(42);
    assert_eq!(id.get(), 42);
    assert!(!id.is_null());
    assert!(NodeId::default().is_null());
    assert_eq!(InspectorId::default(), InspectorId(0));
}

/// The slot half of this scenario: contact deltas and pressure are floating
/// point and are kept outside the library, so only slot allocation is
/// checked here.
#[test]
fn touch_lifecycle_accumulates_delta_and_reuses_slots() {
    let mut slots = TouchSlots::new();
    assert!(slots.on_event(TouchId(7), TouchPhase::Started).accepted());
    assert!(slots.on_event(TouchId(7), TouchPhase::Moved).accepted());
    assert_eq!(slots.slot_of(TouchId(7)), Some(0));
    assert!(slots.on_event(TouchId(7), TouchPhase::Ended).accepted());
    assert!(slots.is_empty());
}

/// The key and button half of this scenario: pointer deltas and scroll are
/// floating point and are kept outside the library, so only held and
/// transition state is checked here.
#[test]
fn end_frame_preserves_held_state_only() {
    let mut input = ButtonState::default();
    input.on_key_down(KeyCode::KeyW);
    input.on_pointer_down(PointerButton::Left);
    assert!(input.was_key_pressed(KeyCode::KeyW));
    assert!(input.was_pointer_pressed(PointerButton::Left));
    input.end_frame();
    assert!(input.is_key_held(KeyCode::KeyW));
    assert!(input.is_button_held(PointerButton::Left));
    assert!(!input.was_key_pressed(KeyCode::KeyW));
    assert!(!input.was_pointer_pressed(PointerButton::Left));
}

#[test]
fn key_and_button_transitions_are_per_frame() {
    let mut input = ButtonState::new();
    assert!(!input.is_key_held(KeyCode::Space));
    input.on_key_down(KeyCode::Space);
    input.on_key_down(KeyCode::Space);
    assert!(input.is_key_held(KeyCode::Space));
    assert!(input.was_key_pressed(KeyCode::Space));
    assert!(!input.is_key_held(KeyCode::KeyA));
    input.end_frame();
    input.on_key_up(KeyCode::Space);
    assert!(!input.is_key_held(KeyCode::Space));
    assert!(input.was_key_released(KeyCode::Space));
    assert!(!input.was_key_pressed(KeyCode::Space));
    input.on_pointer_down(PointerButton::Right);
    input.on_pointer_up(PointerButton::Right);
    assert!(!input.is_button_held(PointerButton::Right));
    assert!(input.was_pointer_pressed(PointerButton::Right));
    assert!(input.was_pointer_released(PointerButton::Right));
    input.end_frame();
    assert!(!input.was_key_released(KeyCode::Space));
    assert!(!input.was_pointer_released(PointerButton::Right));
    assert_eq!(input, ButtonState::new());
}
