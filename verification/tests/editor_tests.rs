use scenix::editor::{
    apply_selection, replace_selection, selection_diff, LayerMask, LayerPolicy,
    NodeEditorMetadata, SelectionMode, SelectionState, TransformConstraint, TransformMode,
    TransformSpace,
};
use scenix::ids::NodeId;
use scenix::picking::{aligned_uniform_size, EditorBufferStats, EditorPickRequest};

fn ids(raw: &[u64]) -> Vec<NodeId> {
    raw.iter().map(|&r| NodeId::new(r)).collect()
}

#[test]
fn editor_pick_request_defaults_to_selectable_all_layers() {
    let request = EditorPickRequest::new(2, 3);
    assert_eq!(request.layers, u32::MAX);
    assert!(request.selectable_only);
}

#[test]
fn pick_request_keeps_coordinates_and_stats_default_to_zero() {
    let request = EditorPickRequest::new(7, 9);
    assert_eq!((request.x, request.y), (7, 9));
    let stats = EditorBufferStats::default();
    assert!(!stats.allocated);
    assert_eq!(stats.memory_bytes, 0);
    assert_eq!(stats.pick_requests, 0);
}

#[test]
fn aligned_uniform_size_rounds_up_to_256() {
    assert_eq!(aligned_uniform_size::<u8>(), 256);
    assert_eq!(aligned_uniform_size::<[u8; 80]>(), 256);
    assert_eq!(aligned_uniform_size::<[u8; 256]>(), 256);
    assert_eq!(aligned_uniform_size::<[u8; 257]>(), 512);
    assert_eq!(aligned_uniform_size::<[[f32; 4]; 5]>(), 256);
    assert_eq!(aligned_uniform_size::<()>(), 0);
}

#[test]
fn layer_mask_bit_operations() {
    let mut mask = LayerMask::from_bits(0b0101);
    assert_eq!(mask.bits(), 0b0101);
    assert!(mask.intersects(LayerMask::from_bits(0b0100)));
    assert!(!mask.intersects(LayerMask::from_bits(0b1010)));
    assert!(mask.matches_node(0b0001));
    assert!(!mask.matches_node(0b0010));
    mask.insert(LayerMask::from_bits(0b1000));
    assert_eq!(mask.bits(), 0b1101);
    mask.remove(LayerMask::from_bits(0b0100));
    assert_eq!(mask.bits(), 0b1001);
    assert!(!mask.intersects(LayerMask::from_bits(0b0100)));
    assert_eq!(LayerMask::none().bits(), 0);
    assert_eq!(LayerMask::all().bits(), u32::MAX);
    assert!(!LayerMask::none().intersects(LayerMask::all()));
    assert!(LayerMask::all().matches_node(0x8000_0000));
}

#[test]
fn editor_defaults() {
    let policy = LayerPolicy::default();
    assert_eq!(policy.selectable.bits(), u32::MAX);
    assert_eq!(policy.draggable.bits(), u32::MAX);
    assert_eq!(policy.transformable.bits(), u32::MAX);
    let meta = NodeEditorMetadata::default();
    assert!(meta.selectable && meta.draggable && meta.transformable);
    assert!(!meta.locked);
    assert!(meta.visible_in_inspector);
    assert!(meta.label.is_none());
    assert!(meta.tags.is_empty());
    assert_eq!(SelectionMode::default(), SelectionMode::Replace);
    assert_eq!(TransformMode::default(), TransformMode::Translate);
    assert_eq!(TransformSpace::default(), TransformSpace::World);
    assert_eq!(TransformConstraint::default(), TransformConstraint::Free);
}

#[test]
fn selection_modes_keep_ascending_order_and_report_changes() {
    let mut state = SelectionState::default();
    let change = apply_selection(&mut state, NodeId::new(5), SelectionMode::Add);
    assert_eq!(change.added, ids(&[5]));
    assert!(change.removed.is_empty());
    apply_selection(&mut state, NodeId::new(2), SelectionMode::Add);
    apply_selection(&mut state, NodeId::new(9), SelectionMode::Add);
    assert_eq!(state.selected(), &ids(&[2, 5, 9])[..]);
    assert!(state.contains(NodeId::new(5)));
    assert!(!state.contains(NodeId::new(4)));

    let again = apply_selection(&mut state, NodeId::new(5), SelectionMode::Add);
    assert!(again.added.is_empty() && again.removed.is_empty());
    assert_eq!(state.selected(), &ids(&[2, 5, 9])[..]);

    let toggled = apply_selection(&mut state, NodeId::new(5), SelectionMode::Toggle);
    assert_eq!(toggled.removed, ids(&[5]));
    assert_eq!(state.selected(), &ids(&[2, 9])[..]);
    let back = apply_selection(&mut state, NodeId::new(5), SelectionMode::Toggle);
    assert_eq!(back.added, ids(&[5]));
    assert_eq!(state.selected(), &ids(&[2, 5, 9])[..]);

    let removed = apply_selection(&mut state, NodeId::new(2), SelectionMode::Remove);
    assert_eq!(removed.removed, ids(&[2]));
    let missing = apply_selection(&mut state, NodeId::new(2), SelectionMode::Remove);
    assert!(missing.removed.is_empty() && missing.added.is_empty());

    let replaced = apply_selection(&mut state, NodeId::new(7), SelectionMode::Replace);
    assert_eq!(replaced.added, ids(&[7]));
    assert_eq!(replaced.removed, ids(&[5, 9]));
    assert_eq!(state.selected(), &ids(&[7])[..]);
}

#[test]
fn selection_leaves_hover_and_active_alone() {
    let mut state = SelectionState::default();
    state.set_hovered(Some(NodeId::new(3)));
    state.set_active(Some(NodeId::new(4)));
    apply_selection(&mut state, NodeId::new(1), SelectionMode::Toggle);
    replace_selection(&mut state, ids(&[8, 6]));
    assert_eq!(state.hovered(), Some(NodeId::new(3)));
    assert_eq!(state.active(), Some(NodeId::new(4)));
    let copy = state.clone();
    assert_eq!(copy, state);
    assert_eq!(copy.selected(), &ids(&[6, 8])[..]);
}

#[test]
fn replace_selection_sorts_and_dedups() {
    let mut state = SelectionState::default();
    apply_selection(&mut state, NodeId::new(4), SelectionMode::Add);
    apply_selection(&mut state, NodeId::new(1), SelectionMode::Add);
    let change = replace_selection(&mut state, ids(&[9, 3, 4, 9, 3]));
    assert_eq!(state.selected(), &ids(&[3, 4, 9])[..]);
    assert_eq!(change.added, ids(&[3, 9]));
    assert_eq!(change.removed, ids(&[1]));
}

#[test]
fn selection_diff_lists_exact_differences() {
    let change = selection_diff(&ids(&[1, 3, 5, 7]), &ids(&[2, 3, 7, 8]));
    assert_eq!(change.added, ids(&[2, 8]));
    assert_eq!(change.removed, ids(&[1, 5]));
    let none = selection_diff(&ids(&[1, 2]), &ids(&[1, 2]));
    assert!(none.added.is_empty() && none.removed.is_empty());
}
