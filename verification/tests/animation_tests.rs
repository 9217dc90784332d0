use scenix::action::{drain_markers_until, reset_markers, ActionHandle, ActionState, BlendMode};
use scenix::binding::{
    BindingKey, BoneProperty, CameraProperty, LightProperty, MaterialProperty, NodeProperty,
    PropertyBinding,
};
use scenix::ids::{CameraId, LightId, MaterialId, MeshId, NodeId};
use scenix::keyframe::{bracket_index, validate_keys, KeyframeInterpolation};
use scenix::loop_mode::{LoopBoundary, LoopMode, LoopTimeUpdate};
use scenix::mixer::{ActionSlots, AnimationEvent, MixerTickResult};
use scenix::retarget::{RetargetEntry, RetargetMap, SkeletonPose};

#[test]
fn once_finishes_and_holds_at_end() {
    let step = LoopMode::Once.on_boundary(LoopBoundary::PastEnd, 0);
    assert!(step.finished);
    assert!(step.stops);
    assert!(!step.wrapped);
    assert!(!step.flipped);
    assert_eq!(step.iteration, 0);
    assert_eq!(step.time, LoopTimeUpdate::HoldEnd);
    assert_eq!(LoopMode::default(), LoopMode::Once);
}

#[test]
fn repeat_wraps_counts_and_stops_at_max() {
    let step = LoopMode::repeat().on_boundary(LoopBoundary::PastEnd, 0);
    assert!(step.wrapped);
    assert_eq!(step.iteration, 1);
    assert!(!step.finished);
    assert_eq!(step.time, LoopTimeUpdate::WrapToStart);

    let limited = LoopMode::Repeat { max: 2 };
    let first = limited.on_boundary(LoopBoundary::PastEnd, 0);
    assert!(!first.finished);
    let second = limited.on_boundary(LoopBoundary::PastEnd, first.iteration);
    assert!(second.finished && second.stops);
    assert_eq!(second.iteration, 2);
    assert_eq!(second.time, LoopTimeUpdate::HoldEnd);

    let unlimited = LoopMode::repeat().on_boundary(LoopBoundary::PastEnd, 1_000);
    assert!(!unlimited.finished);
}

#[test]
fn ping_pong_flips_at_both_ends() {
    let end = LoopMode::ping_pong().on_boundary(LoopBoundary::PastEnd, 0);
    assert!(end.flipped && end.wrapped && !end.finished);
    assert_eq!(end.time, LoopTimeUpdate::ReflectAtEnd);
    let start = LoopMode::ping_pong().on_boundary(LoopBoundary::BeforeStart, 1);
    assert!(start.flipped);
    assert_eq!(start.iteration, 2);
    assert_eq!(start.time, LoopTimeUpdate::ReflectAtStart);
    let done = LoopMode::PingPong { max: 1 }.on_boundary(LoopBoundary::PastEnd, 0);
    assert!(done.finished);
    assert_eq!(done.time, LoopTimeUpdate::HoldStart);
}

#[test]
fn backward_once_and_repeat_clamp_without_counting() {
    for mode in [LoopMode::Once, LoopMode::Repeat { max: 3 }] {
        let step = mode.on_boundary(LoopBoundary::BeforeStart, 4);
        assert_eq!(step.iteration, 4);
        assert!(step.flipped && step.wrapped && step.stops && !step.finished);
        assert_eq!(step.time, LoopTimeUpdate::ReflectThenClamp);
    }
}

#[test]
fn bracket_index_clamps_and_brackets() {
    let keys = [0u32, 10, 20, 30];
    assert_eq!(bracket_index(&keys, 0), 0);
    assert_eq!(bracket_index(&keys, 5), 0);
    assert_eq!(bracket_index(&keys, 10), 1);
    assert_eq!(bracket_index(&keys, 25), 2);
    assert_eq!(bracket_index(&keys, 30), 3);
    assert_eq!(bracket_index(&keys, 99), 3);
    assert_eq!(bracket_index(&[], 7), 0);
    assert_eq!(bracket_index(&[5u32], 1), 0);
    assert_eq!(bracket_index(&[5u32], 9), 0);
}

#[test]
fn validate_keys_checks_count_and_order() {
    assert!(validate_keys(&[0, 1, 1, 4], 4, 1));
    assert!(validate_keys(&[0, 1], 6, 3));
    assert!(!validate_keys(&[0, 1], 5, 3));
    assert!(!validate_keys(&[], 0, 1));
    assert!(!validate_keys(&[3, 2], 2, 1));
    assert_ne!(KeyframeInterpolation::Linear, KeyframeInterpolation::Step);
}

#[test]
fn markers_drain_in_clip_order() {
    let mut pending = Vec::new();
    reset_markers(&mut pending, 3);
    assert_eq!(pending, vec![0, 1, 2]);
    let fired = drain_markers_until(&mut pending, 5, &[0, 10, 5]);
    assert_eq!(fired, vec![0, 2]);
    assert_eq!(pending, vec![1]);
    let fired = drain_markers_until(&mut pending, 5, &[0, 10, 5]);
    assert!(fired.is_empty());
    reset_markers(&mut pending, 3);
    let all = drain_markers_until(&mut pending, 100, &[0, 10, 20]);
    assert_eq!(all, vec![0, 1, 2]);
    assert!(pending.is_empty());
}

#[test]
fn markers_beyond_the_clip_never_fire() {
    let mut pending = vec![0, 4];
    let fired = drain_markers_until(&mut pending, 100, &[1, 2]);
    assert_eq!(fired, vec![0]);
    assert_eq!(pending, vec![4]);
}

#[test]
fn action_enums_default() {
    assert_eq!(ActionState::default(), ActionState::Stopped);
    assert_eq!(BlendMode::default(), BlendMode::Normal);
    let result = MixerTickResult::default();
    assert!(result.events.is_empty());
    assert_eq!(result.active_actions, 0);
    let event = AnimationEvent::Loop { action: 1, iteration: 2 };
    assert_eq!(event.clone(), AnimationEvent::Loop { action: 1, iteration: 2 });
}

#[test]
fn action_slots_reuse_freed_handles() {
    let mut slots: ActionSlots<&str> = ActionSlots::new();
    let a = slots.add("a");
    let b = slots.add("b");
    let c = slots.add("c");
    assert_eq!((a, b, c), (ActionHandle(0), ActionHandle(1), ActionHandle(2)));
    assert_eq!(slots.count(), 3);
    assert_eq!(slots.remove(b), Some("b"));
    assert_eq!(slots.remove(b), None);
    assert_eq!(slots.get(b), None);
    assert_eq!(slots.count(), 2);
    assert_eq!(slots.slot_count(), 3);
    let d = slots.add("d");
    assert_eq!(d, ActionHandle(1));
    assert_eq!(slots.get(d), Some(&"d"));
    assert_eq!(slots.get(a), Some(&"a"));
    if let Some(value) = slots.get_mut(c) {
        *value = "c2";
    }
    assert_eq!(slots.get(c), Some(&"c2"));
    assert!(slots.get_mut(ActionHandle(9)).is_none());
    assert_eq!(slots.remove(ActionHandle(9)), None);
    assert_eq!(slots.count(), 3);
}

#[test]
fn property_codes_round_trip() {
    for v in 0..=255u8 {
        if let Some(p) = NodeProperty::from_u8(v) {
            assert_eq!(p.as_u8(), v);
        }
        if let Some(p) = BoneProperty::from_u8(v) {
            assert_eq!(p.as_u8(), v);
        }
        if let Some(p) = MaterialProperty::from_u8(v) {
            assert_eq!(p.as_u8(), v);
        }
        if let Some(p) = CameraProperty::from_u8(v) {
            assert_eq!(p.as_u8(), v);
        }
        if let Some(p) = LightProperty::from_u8(v) {
            assert_eq!(p.as_u8(), v);
        }
    }
    assert_eq!(NodeProperty::from_u8(3), Some(NodeProperty::Visibility));
    assert_eq!(NodeProperty::from_u8(4), None);
    assert_eq!(BoneProperty::from_u8(3), None);
    assert_eq!(MaterialProperty::Metallic.as_u8(), 4);
    assert_eq!(CameraProperty::from_u8(4), Some(CameraProperty::OrthographicBounds));
    assert_eq!(LightProperty::SpotAngle.as_u8(), 3);
}

#[test]
fn binding_keys_identify_targets() {
    let node = PropertyBinding::Node { node_id: NodeId::new(7), property: NodeProperty::Rotation };
    assert_eq!(node.key(), BindingKey::Node { id: 7, property: 1 });
    let bone = PropertyBinding::Bone {
        skeleton_index: 1,
        bone_index: 4,
        property: BoneProperty::Scale,
    };
    assert_eq!(bone.key(), BindingKey::Bone { skeleton: 1, bone: 4, property: 2 });
    let material = PropertyBinding::Material {
        material_id: MaterialId::new(3),
        property: MaterialProperty::Opacity,
    };
    assert_eq!(material.key(), BindingKey::Material { id: 3, property: 1 });
    let camera = PropertyBinding::Camera { camera_id: CameraId::new(2), property: CameraProperty::Up };
    assert_eq!(camera.key(), BindingKey::Camera { id: 2, property: 3 });
    let light = PropertyBinding::Light { light_id: LightId::new(9), property: LightProperty::Range };
    assert_eq!(light.key(), BindingKey::Light { id: 9, property: 2 });
    let morph = PropertyBinding::MorphWeight { mesh_id: MeshId::new(5), target_index: 6 };
    assert_eq!(morph.key(), BindingKey::Morph { id: 5, target: 6 });
    assert_ne!(
        PropertyBinding::Node { node_id: NodeId::new(7), property: NodeProperty::Scale }.key(),
        node.key()
    );
}

#[test]
fn retarget_maps_by_name_and_copies_bones() {
    let source: Vec<String> = ["hip", "spine", "head", "tail"].iter().map(|s| s.to_string()).collect();
    let target: Vec<String> = ["head", "hip", "arm", "hip"].iter().map(|s| s.to_string()).collect();
    let map = RetargetMap::from_names(&source, &target);
    assert_eq!(
        map.entries,
        vec![RetargetEntry { source: 0, target: 1 }, RetargetEntry { source: 2, target: 0 }]
    );
    let map = map.with_entry(1, 2).with_entry(9, 3).with_entry(0, 9);
    let src = SkeletonPose { bones: vec![10, 11, 12, 13] };
    let mut dst = SkeletonPose { bones: vec![0, 0, 0, 0] };
    map.apply(&src, &mut dst);
    assert_eq!(dst.bones, vec![12, 10, 11, 0]);
}

#[test]
fn pause_and_resume_follow_the_lifecycle() {
    assert_eq!(ActionState::Playing.paused(), ActionState::Paused);
    assert_eq!(ActionState::Paused.resumed(), ActionState::Playing);
    assert_eq!(ActionState::Playing.paused().resumed(), ActionState::Playing);
    assert_eq!(ActionState::Stopped.paused(), ActionState::Stopped);
    assert_eq!(ActionState::Finished.resumed(), ActionState::Finished);
    assert_eq!(ActionState::Playing.resumed(), ActionState::Playing);
    assert!(ActionState::Playing.is_playing());
    assert!(!ActionState::Paused.is_playing());
    assert!(ActionState::Finished.is_finished());
    assert!(!ActionState::Stopped.is_finished());
}

#[test]
fn all_due_markers_fire_in_pending_order() {
    let mut pending = Vec::new();
    reset_markers(&mut pending, 3);
    assert_eq!(drain_markers_until(&mut pending, 1, &[0, 0, 0]), vec![0, 1, 2]);
    assert_eq!(drain_markers_until(&mut pending, 1, &[0, 0, 0]), Vec::<usize>::new());
    let mut pending = vec![2, 0, 3, 1];
    assert_eq!(drain_markers_until(&mut pending, 5, &[9, 1, 4, 7]), vec![2, 1]);
    assert_eq!(pending, vec![0, 3]);
}
