use scenix::asset::{AssetDependencyGraph, AssetSource, LoadedAnimationInterpolation, LoadedAnimationProperty};
use scenix::binding::{
    BindingKey, CameraProperty, LightProperty, MaterialProperty, NodeProperty, PropertyBinding,
};
use scenix::blend::{write_outcome, write_plan, LightKinds, SampleKind, WriteField, WritePlan, WriteTarget};
use scenix::clip_import::{channel_binding, channel_kind, clip_interpolation, decode_layout, output_stride, ComponentSource};
use scenix::export::{gltf_json_string, glb_summary_bytes, scene_json_string, PackageSummary};
use scenix::ids::{CameraId, LightId, MaterialId, MeshId, NodeId};
use scenix::keyframe::KeyframeInterpolation;
use scenix::action::ActionState;
use scenix::loop_mode::{LoopBoundary, LoopMode};
use scenix::mixer::{record_action_events, tick_outcome, AnimationEvent, MixerTickResult, TickOutcome};
use scenix::skinning::GpuSkinningRegistry;
use scenix::picking::{
    build_pick_id_map, check_pick_pixel, drawn_nodes, editor_memory_bytes, PickCandidate, ValidationError, object_capacity_for, pick_id_bytes,
    pick_id_from_le_bytes, picked_node,
};

fn summary(label: &str) -> PackageSummary {
    PackageSummary {
        label: label.to_string(),
        meshes: 3,
        materials: 2,
        textures: 4,
        texture_cubes: 1,
        animations: 12,
        skins: 0,
        lights: 5,
        cameras: 1,
        diagnostics: 7,
    }
}

#[test]
fn write_plan_routes_values_to_their_own_field() {
    let translation = BindingKey::Node { id: 4, property: NodeProperty::Translation.as_u8() };
    assert_eq!(
        write_plan(translation, SampleKind::Vec3),
        WritePlan { target: WriteTarget::Node(NodeId(4)), field: WriteField::Translation }
    );
    assert_eq!(
        write_plan(translation, SampleKind::Quat),
        WritePlan { target: WriteTarget::Node(NodeId(4)), field: WriteField::Nothing }
    );
    let roughness = BindingKey::Material { id: 9, property: MaterialProperty::Roughness.as_u8() };
    assert_eq!(
        write_plan(roughness, SampleKind::Scalar),
        WritePlan { target: WriteTarget::Material(MaterialId(9)), field: WriteField::Roughness }
    );
    let fov = BindingKey::Camera { id: 2, property: CameraProperty::FovY.as_u8() };
    assert_eq!(
        write_plan(fov, SampleKind::Scalar),
        WritePlan { target: WriteTarget::Camera(CameraId(2)), field: WriteField::FovY }
    );
    assert_eq!(
        write_plan(fov, SampleKind::Vec3),
        WritePlan { target: WriteTarget::Nothing, field: WriteField::Nothing }
    );
    let range = BindingKey::Light { id: 6, property: LightProperty::Range.as_u8() };
    assert_eq!(
        write_plan(range, SampleKind::Scalar),
        WritePlan { target: WriteTarget::Light(LightId(6)), field: WriteField::Range }
    );
    let morph = BindingKey::Morph { id: 3, target: 1 };
    assert_eq!(
        write_plan(morph, SampleKind::Scalar),
        WritePlan {
            target: WriteTarget::Morph { mesh: MeshId(3), target: 1 },
            field: WriteField::MorphWeight
        }
    );
    assert_eq!(
        write_plan(morph, SampleKind::Empty),
        WritePlan { target: WriteTarget::Nothing, field: WriteField::Nothing }
    );
}

#[test]
fn light_properties_reach_their_light_kinds() {
    assert_eq!(
        LightProperty::Range.light_kinds(),
        LightKinds { point: true, spot: true, directional: false }
    );
    assert_eq!(
        LightProperty::SpotAngle.light_kinds(),
        LightKinds { point: false, spot: true, directional: false }
    );
    assert_eq!(
        LightProperty::Color.light_kinds(),
        LightKinds { point: true, spot: true, directional: true }
    );
}

#[test]
fn imported_channels_bind_mapped_nodes() {
    assert_eq!(clip_interpolation(None), KeyframeInterpolation::Linear);
    assert_eq!(
        clip_interpolation(Some(LoadedAnimationInterpolation::Step)),
        KeyframeInterpolation::Step
    );
    let ids = [NodeId(10), NodeId(11)];
    assert_eq!(
        channel_binding(1, LoadedAnimationProperty::Rotation, &ids),
        Some(PropertyBinding::Node { node_id: NodeId(11), property: NodeProperty::Rotation })
    );
    assert_eq!(
        channel_binding(0, LoadedAnimationProperty::MorphTargetWeights, &ids),
        Some(PropertyBinding::Node { node_id: NodeId(10), property: NodeProperty::Scale })
    );
    assert_eq!(channel_binding(2, LoadedAnimationProperty::Scale, &ids), None);
    assert_eq!(output_stride(0), 1);
    assert_eq!(output_stride(4), 4);
}

#[test]
fn gltf_and_scene_summaries_are_exact_json() {
    let s = summary("a\"b");
    assert_eq!(
        gltf_json_string(&s),
        "{\"asset\":{\"version\":\"2.0\",\"generator\":\"scenix-loader 1.3\"},\"extras\":{\"label\":\"a\\\"b\",\"meshes\":3,\"materials\":2,\"textures\":5,\"animations\":12,\"skins\":0}}"
    );
    assert_eq!(
        scene_json_string(&s),
        "{\"label\":\"a\\\"b\",\"meshes\":3,\"materials\":2,\"lights\":5,\"cameras\":1,\"diagnostics\":7}"
    );
}

#[test]
fn glb_bytes_frame_the_padded_json_chunk() {
    let s = summary("x");
    let json = gltf_json_string(&s);
    let bytes = glb_summary_bytes(&s);
    let padded = (json.len() + 3) / 4 * 4;
    assert_eq!(&bytes[0..4], b"glTF");
    assert_eq!(u32::from_le_bytes([bytes[4], bytes[5], bytes[6], bytes[7]]), 2);
    assert_eq!(
        u32::from_le_bytes([bytes[8], bytes[9], bytes[10], bytes[11]]) as usize,
        padded + 20
    );
    assert_eq!(u32::from_le_bytes([bytes[12], bytes[13], bytes[14], bytes[15]]) as usize, padded);
    assert_eq!(&bytes[16..20], b"JSON");
    assert_eq!(&bytes[20..20 + json.len()], json.as_bytes());
    assert!(bytes[20 + json.len()..].iter().all(|b| *b == b' '));
    assert_eq!(bytes.len(), 20 + padded);
    assert_eq!(bytes.len() % 4, 0);
}

#[test]
fn pick_ids_round_trip_through_the_table() {
    let drawn = [NodeId(5), NodeId(0), NodeId(8)];
    let map = build_pick_id_map(&drawn).unwrap();
    assert_eq!(map, vec![NodeId(0), NodeId(5), NodeId(0), NodeId(8)]);
    assert_eq!(picked_node(&map, 0), None);
    assert_eq!(picked_node(&map, 1), Some(NodeId(5)));
    assert_eq!(picked_node(&map, 2), None);
    assert_eq!(picked_node(&map, 3), Some(NodeId(8)));
    assert_eq!(picked_node(&map, 4), None);
    assert_eq!(pick_id_bytes(0x0403_0201), [1, 2, 3, 4]);
    assert_eq!(pick_id_from_le_bytes([1, 2, 3, 4]), 0x0403_0201);
    let bytes = pick_id_bytes(3);
    assert_eq!(
        pick_id_from_le_bytes([bytes[0] as u8, bytes[1] as u8, bytes[2] as u8, bytes[3] as u8]),
        3
    );
}

#[test]
fn editor_buffers_grow_to_powers_of_two() {
    assert_eq!(object_capacity_for(8, 5), 8);
    assert_eq!(object_capacity_for(8, 9), 16);
    assert_eq!(object_capacity_for(0, 1), 1);
    assert_eq!(object_capacity_for(4, 1000), 1024);
    assert_eq!(editor_memory_bytes(4, 2, 256, 3), 4 * 2 * 16 + 768 + 256 * 3);
}

#[test]
fn tick_events_report_loop_finish_then_markers() {
    let names = vec!["hit".to_string(), "step".to_string(), "end".to_string()];
    let keys = [10u32, 30, 50];
    let mut events = Vec::new();
    let mut pending = vec![0usize, 1, 2];
    record_action_events(&mut events, &mut pending, 4, false, 0, false, 30, &keys, &names);
    assert_eq!(
        events,
        vec![
            AnimationEvent::Marker { action: 4, name: "hit".to_string() },
            AnimationEvent::Marker { action: 4, name: "step".to_string() },
        ]
    );
    assert_eq!(pending, vec![2]);
    events.clear();
    record_action_events(&mut events, &mut pending, 4, true, 1, true, 20, &keys, &names);
    assert_eq!(
        events,
        vec![
            AnimationEvent::Loop { action: 4, iteration: 1 },
            AnimationEvent::Finished { action: 4 },
            AnimationEvent::Marker { action: 4, name: "hit".to_string() },
        ]
    );
    assert_eq!(pending, vec![1, 2]);
}

#[test]
fn local_dependencies_keep_their_metadata() {
    let mut graph = AssetDependencyGraph::new();
    graph.record_local(std::path::PathBuf::from("scene.gltf"), 40, None);
    graph.record_url("https://example.invalid/a.glb".to_string(), 2);
    assert_eq!(graph.total_bytes(), 42);
    assert_eq!(graph.dependencies[0].source, AssetSource::Path(std::path::PathBuf::from("scene.gltf")));
    assert_eq!(graph.dependencies[0].modified, None);
}

#[test]
fn skinning_registry_tracks_registered_buffers() {
    let mut registry: GpuSkinningRegistry<[f32; 16], f32> = GpuSkinningRegistry::new();
    let mesh = MeshId(3);
    assert!(!registry.update_bone_matrices(mesh, &[[0.0; 16]]));
    assert!(!registry.has_skin(mesh));
    registry.register_skin(mesh, vec![[1.0; 16]]);
    assert!(registry.has_skin(mesh));
    assert_eq!(registry.skin_count(), 1);
    assert!(registry.update_bone_matrices(mesh, &[[2.0; 16], [3.0; 16]]));
    assert_eq!(registry.bones(mesh).unwrap().len(), 2);
    assert_eq!(registry.bones(mesh).unwrap()[1], [3.0; 16]);
    registry.register_morph_targets(MeshId(4), vec![0.25, 0.5]);
    assert!(registry.update_morph_weights(MeshId(4), &[1.0]));
    assert_eq!(registry.morph_weights(MeshId(4)), Some(&[1.0f32][..]));
    assert_eq!(registry.morph_count(), 1);
    assert!(!registry.has_morph(mesh));
    assert!(registry.unregister_skin(mesh));
    assert!(!registry.unregister_skin(mesh));
    assert_eq!(registry.bones(mesh), None);
    assert!(registry.unregister_morph(MeshId(4)));
    assert_eq!(registry.skin_count(), 0);
    assert_eq!(registry.morph_count(), 0);
}

#[test]
fn markers_crossed_in_one_tick_come_in_clip_order() {
    let names = vec!["a".to_string(), "b".to_string(), "c".to_string()];
    let keys = [0u32, 1000, 2000];
    let mut events = Vec::new();
    let mut pending = vec![0usize, 1, 2];
    record_action_events(&mut events, &mut pending, 0, false, 0, false, 2000, &keys, &names);
    assert_eq!(
        events,
        vec![
            AnimationEvent::Marker { action: 0, name: "a".to_string() },
            AnimationEvent::Marker { action: 0, name: "b".to_string() },
            AnimationEvent::Marker { action: 0, name: "c".to_string() },
        ]
    );
    assert!(pending.is_empty());
}

#[test]
fn missing_required_targets_are_invalid_ids() {
    let node = WritePlan { target: WriteTarget::Node(NodeId(1)), field: WriteField::Translation };
    assert_eq!(write_outcome(node, true), Ok(true));
    assert_eq!(write_outcome(node, false), Err(ValidationError::InvalidId));
    let node_other = WritePlan { target: WriteTarget::Node(NodeId(1)), field: WriteField::Nothing };
    assert_eq!(write_outcome(node_other, true), Ok(false));
    assert_eq!(write_outcome(node_other, false), Err(ValidationError::InvalidId));
    let bone = WritePlan { target: WriteTarget::Bone { skeleton: 0, bone: 2 }, field: WriteField::Rotation };
    assert_eq!(write_outcome(bone, false), Err(ValidationError::InvalidId));
    let light = WritePlan { target: WriteTarget::Light(LightId(5)), field: WriteField::Range };
    assert_eq!(write_outcome(light, false), Ok(false));
    assert_eq!(write_outcome(light, true), Ok(true));
    let nothing = WritePlan { target: WriteTarget::Nothing, field: WriteField::Nothing };
    assert_eq!(write_outcome(nothing, false), Ok(false));
}

#[test]
fn editor_pass_draws_only_filtered_nodes() {
    let c = |id: u64, visible: bool, layer: u32, selectable: bool, mesh: bool| PickCandidate {
        node_id: NodeId(id),
        visible,
        layer,
        selectable,
        has_uploaded_mesh: mesh,
    };
    let candidates = [
        c(1, true, 1, true, true),
        c(2, false, 1, true, true),
        c(3, true, 2, true, true),
        c(4, true, 1, false, true),
        c(5, true, 1, true, false),
        c(6, true, 3, true, true),
    ];
    assert_eq!(drawn_nodes(&candidates, 1, true), vec![NodeId(1), NodeId(6)]);
    assert_eq!(drawn_nodes(&candidates, 1, false), vec![NodeId(1), NodeId(4), NodeId(6)]);
    assert_eq!(drawn_nodes(&candidates, u32::MAX, true), vec![NodeId(1), NodeId(3), NodeId(6)]);
    assert_eq!(check_pick_pixel(3, 4, 4, 5), Ok(()));
    assert_eq!(check_pick_pixel(4, 0, 4, 5), Err(ValidationError::OutOfRange));
    assert_eq!(check_pick_pixel(0, 5, 4, 5), Err(ValidationError::OutOfRange));
}

#[test]
fn tick_outcomes_count_active_and_finished_actions() {
    let mut result = MixerTickResult::default();
    let paused = tick_outcome(ActionState::Paused, true, true, false);
    assert_eq!(paused, TickOutcome { state: ActionState::Paused, active: false, finished: false });
    let running = tick_outcome(ActionState::Playing, true, false, false);
    assert_eq!(running, TickOutcome { state: ActionState::Playing, active: true, finished: false });
    let done = tick_outcome(ActionState::Playing, true, true, false);
    assert_eq!(done, TickOutcome { state: ActionState::Finished, active: true, finished: true });
    let faded = tick_outcome(ActionState::Playing, true, false, true);
    assert_eq!(faded, TickOutcome { state: ActionState::Finished, active: true, finished: false });
    let no_clip = tick_outcome(ActionState::Playing, false, true, true);
    assert_eq!(no_clip, TickOutcome { state: ActionState::Playing, active: true, finished: false });
    for o in [paused, running, done, faded, no_clip] {
        result.record_outcome(o);
    }
    assert_eq!(result.active_actions, 4);
    assert_eq!(result.finished_actions, 1);
}

#[test]
fn loop_modes_count_their_crossings() {
    assert!(!LoopMode::Once.counts_crossing(LoopBoundary::PastEnd));
    assert!(LoopMode::repeat().counts_crossing(LoopBoundary::PastEnd));
    assert!(!LoopMode::repeat().counts_crossing(LoopBoundary::BeforeStart));
    assert!(LoopMode::ping_pong().counts_crossing(LoopBoundary::BeforeStart));
}

#[test]
fn imported_outputs_decode_by_stride_with_defaults() {
    assert_eq!(channel_kind(LoadedAnimationProperty::Rotation), SampleKind::Quat);
    assert_eq!(channel_kind(LoadedAnimationProperty::Scale), SampleKind::Vec3);
    assert_eq!(channel_kind(LoadedAnimationProperty::MorphTargetWeights), SampleKind::Scalar);
    let rotation = decode_layout(LoadedAnimationProperty::Rotation, 2, 4, 5);
    assert_eq!(rotation, vec![vec![ComponentSource::Output(0), ComponentSource::Output(1), ComponentSource::Output(2), ComponentSource::Output(3)], vec![ComponentSource::Output(4), ComponentSource::Zero, ComponentSource::Zero, ComponentSource::One]]);
    let translation = decode_layout(LoadedAnimationProperty::Translation, 2, 3, 6);
    assert_eq!(translation, vec![vec![ComponentSource::Output(0), ComponentSource::Output(1), ComponentSource::Output(2)], vec![ComponentSource::Output(3), ComponentSource::Output(4), ComponentSource::Output(5)]]);
    let morph = decode_layout(LoadedAnimationProperty::MorphTargetWeights, 3, 2, 5);
    assert_eq!(morph, vec![vec![ComponentSource::Output(0)], vec![ComponentSource::Output(2)], vec![ComponentSource::Output(4)]]);
    let unpacked = decode_layout(LoadedAnimationProperty::Scale, 1, 0, 0);
    assert_eq!(unpacked, vec![vec![ComponentSource::Zero, ComponentSource::Zero, ComponentSource::Zero]]);
    assert!(decode_layout(LoadedAnimationProperty::Rotation, 0, 4, 0).is_empty());
}

#[test]
fn tally_counts_every_outcome() {
    let mut result = MixerTickResult::default();
    let outcomes = [
        tick_outcome(ActionState::Playing, true, true, false),
        tick_outcome(ActionState::Stopped, true, false, false),
        tick_outcome(ActionState::Playing, true, false, true),
        tick_outcome(ActionState::Playing, false, false, false),
    ];
    result.tally(&outcomes);
    assert_eq!(result.active_actions, 3);
    assert_eq!(result.finished_actions, 1);
    assert!(result.events.is_empty());
}
