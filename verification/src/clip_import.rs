//! Decisions taken when an imported glTF animation clip becomes a runtime
//! clip: the interpolation used for its tracks and the binding each channel
//! drives.

use vstd::prelude::*;

use crate::asset::{LoadedAnimationInterpolation, LoadedAnimationProperty};
use crate::binding::{NodeProperty, PropertyBinding};
use crate::binding::{lemma_property_codes_round_trip, BindingKey};
use crate::blend::{field_kind, property_field, SampleKind};
use crate::ids::NodeId;
use crate::keyframe::KeyframeInterpolation;

verus! {

/// The runtime interpolation of an imported interpolation mode.
pub open spec fn runtime_interpolation(mode: LoadedAnimationInterpolation) -> KeyframeInterpolation {
    match mode {
        LoadedAnimationInterpolation::Linear => KeyframeInterpolation::Linear,
        LoadedAnimationInterpolation::Step => KeyframeInterpolation::Step,
        LoadedAnimationInterpolation::CubicSpline => KeyframeInterpolation::CubicSpline,
    }
}

/// The interpolation used for every track of an imported clip: that of its
/// first channel, or linear for a clip without channels.
pub fn clip_interpolation(first: Option<LoadedAnimationInterpolation>) -> (mode:
    KeyframeInterpolation)
    ensures
        mode == match first {
            Some(m) => runtime_interpolation(m),
            None => KeyframeInterpolation::Linear,
        },
{
    match first {
        Some(LoadedAnimationInterpolation::Linear) => KeyframeInterpolation::Linear,
        Some(LoadedAnimationInterpolation::Step) => KeyframeInterpolation::Step,
        Some(LoadedAnimationInterpolation::CubicSpline) => KeyframeInterpolation::CubicSpline,
        None => KeyframeInterpolation::Linear,
    }
}

/// The node property an imported channel drives. Morph-weight channels are
/// bound to the node's scale slot (their values become a scalar track).
pub open spec fn imported_property(property: LoadedAnimationProperty) -> NodeProperty {
    match property {
        LoadedAnimationProperty::Translation => NodeProperty::Translation,
        LoadedAnimationProperty::Rotation => NodeProperty::Rotation,
        LoadedAnimationProperty::Scale => NodeProperty::Scale,
        LoadedAnimationProperty::MorphTargetWeights => NodeProperty::Scale,
    }
}

/// The binding of an imported channel targeting glTF node `node_index`, when
/// that node is mapped to a scene node; unmapped channels are skipped.
pub fn channel_binding(
    node_index: usize,
    property: LoadedAnimationProperty,
    node_index_to_id: &[NodeId],
) -> (binding: Option<PropertyBinding>)
    ensures
        node_index >= node_index_to_id@.len() ==> binding is None,
        node_index < node_index_to_id@.len() ==> binding == Some(
            PropertyBinding::Node {
                node_id: node_index_to_id@[node_index as int],
                property: imported_property(property),
            },
        ),
{
    if node_index >= node_index_to_id.len() {
        return None;
    }
    let node_id = node_index_to_id[node_index];
    let property = match property {
        LoadedAnimationProperty::Translation => NodeProperty::Translation,
        LoadedAnimationProperty::Rotation => NodeProperty::Rotation,
        LoadedAnimationProperty::Scale => NodeProperty::Scale,
        LoadedAnimationProperty::MorphTargetWeights => NodeProperty::Scale,
    };
    Some(PropertyBinding::Node { node_id, property })
}

/// Output values per keyframe as the importer reads them: the channel's
/// component count, at least one.
pub fn output_stride(output_components: usize) -> (stride: usize)
    ensures
        stride == if output_components == 0 {
            1
        } else {
            output_components
        },
{
    if output_components == 0 {
        1
    } else {
        output_components
    }
}


/// The kind of keyframe values an imported channel decodes to: vectors for
/// translation and scale, quaternions for rotation, scalars (the first
/// weight) for morph-target weights.
pub open spec fn imported_kind(property: LoadedAnimationProperty) -> SampleKind {
    match property {
        LoadedAnimationProperty::Translation => SampleKind::Vec3,
        LoadedAnimationProperty::Rotation => SampleKind::Quat,
        LoadedAnimationProperty::Scale => SampleKind::Vec3,
        LoadedAnimationProperty::MorphTargetWeights => SampleKind::Scalar,
    }
}

/// Returns the kind of keyframe values an imported channel decodes to.
pub fn channel_kind(property: LoadedAnimationProperty) -> (kind: SampleKind)
    ensures
        kind == imported_kind(property),
{
    match property {
        LoadedAnimationProperty::Translation => SampleKind::Vec3,
        LoadedAnimationProperty::Rotation => SampleKind::Quat,
        LoadedAnimationProperty::Scale => SampleKind::Vec3,
        LoadedAnimationProperty::MorphTargetWeights => SampleKind::Scalar,
    }
}

/// Components read per keyframe: three for translation and scale, four for
/// rotation, one (the first weight) for morph-target weights.
pub open spec fn component_width(property: LoadedAnimationProperty) -> nat {
    match property {
        LoadedAnimationProperty::Rotation => 4,
        LoadedAnimationProperty::MorphTargetWeights => 1,
        _ => 3,
    }
}

/// Where one decoded keyframe component comes from.
#[derive(Clone, Copy, Debug, PartialEq, Eq, Structural)]
pub enum ComponentSource {
    /// The packed output value at this index.
    Output(usize),
    /// Missing output: zero.
    Zero,
    /// Missing output: one (a rotation's `w`).
    One,
}

/// Source of component `c` of keyframe `k`: output index `k * stride + c`
/// when the packed output holds it, otherwise the default (one for a
/// rotation's `w`, zero for everything else).
pub open spec fn component_source(
    property: LoadedAnimationProperty,
    k: int,
    c: int,
    stride: int,
    output_len: int,
) -> ComponentSource {
    let i = k * stride + c;
    if i < output_len {
        ComponentSource::Output(i as usize)
    } else if property == LoadedAnimationProperty::Rotation && c == 3 {
        ComponentSource::One
    } else {
        ComponentSource::Zero
    }
}

/// Sources of every component of keyframe `k`.
pub open spec fn key_sources(
    property: LoadedAnimationProperty,
    k: int,
    stride: int,
    output_len: int,
) -> Seq<ComponentSource> {
    Seq::new(component_width(property), |c: int| component_source(property, k, c, stride, output_len))
}

/// Lays out the decoding of an imported channel with `key_count` keyframes
/// and `output_components` values per keyframe packed into `output_len`
/// outputs: for each keyframe, where each of its components comes from.
pub fn decode_layout(
    property: LoadedAnimationProperty,
    key_count: usize,
    output_components: usize,
    output_len: usize,
) -> (layout: Vec<Vec<ComponentSource>>)
    requires
        key_count == 0 || (key_count - 1) * (if output_components == 0 {
            1
        } else {
            output_components as int
        }) + component_width(property) - 1 <= usize::MAX,
    ensures
        layout@.len() == key_count,
        forall|k: int|
            0 <= k < key_count ==> (#[trigger] layout@[k])@ == key_sources(
                property,
                k,
                if output_components == 0 {
                    1
                } else {
                    output_components as int
                },
                output_len as int,
            ),
{
    let stride = output_stride(output_components);
    let width: usize = match property {
        LoadedAnimationProperty::Rotation => 4,
        LoadedAnimationProperty::MorphTargetWeights => 1,
        _ => 3,
    };
    let mut layout: Vec<Vec<ComponentSource>> = Vec::new();
    let mut k: usize = 0;
    while k < key_count
        invariant
            k <= key_count,
            width == component_width(property),
            stride == (if output_components == 0 {
                1
            } else {
                output_components as int
            }),
            key_count == 0 || (key_count - 1) * stride + width - 1 <= usize::MAX,
            layout@.len() == k,
            forall|j: int|
                0 <= j < k ==> (#[trigger] layout@[j])@ == key_sources(property, j, stride as int, output_len as int),
        decreases key_count - k,
    {
        assert(k * stride <= (key_count - 1) * stride) by (nonlinear_arith)
            requires
                k < key_count,
                stride >= 1,
        ;
        let base = k * stride;
        let mut row: Vec<ComponentSource> = Vec::new();
        let mut c: usize = 0;
        while c < width
            invariant
                c <= width,
                width == component_width(property),
                base == k * stride,
                base + width - 1 <= usize::MAX,
                row@.len() == c,
                forall|j: int|
                    0 <= j < c ==> #[trigger] row@[j] == component_source(
                        property,
                        k as int,
                        j,
                        stride as int,
                        output_len as int,
                    ),
            decreases width - c,
        {
            let i = base + c;
            let source = if i < output_len {
                ComponentSource::Output(i)
            } else if c == 3 && matches!(property, LoadedAnimationProperty::Rotation) {
                ComponentSource::One
            } else {
                ComponentSource::Zero
            };
            row.push(source);
            c = c + 1;
        }
        assert(row@ =~= key_sources(property, k as int, stride as int, output_len as int));
        layout.push(row);
        k = k + 1;
    }
    layout
}


/// The glTF channel target path an imported channel animates.
pub open spec fn gltf_target_path(property: LoadedAnimationProperty) -> Seq<char> {
    match property {
        LoadedAnimationProperty::Translation => "translation"@,
        LoadedAnimationProperty::Rotation => "rotation"@,
        LoadedAnimationProperty::Scale => "scale"@,
        LoadedAnimationProperty::MorphTargetWeights => "weights"@,
    }
}

/// The name of a node property.
pub open spec fn node_property_name(property: NodeProperty) -> Seq<char> {
    match property {
        NodeProperty::Translation => "translation"@,
        NodeProperty::Rotation => "rotation"@,
        NodeProperty::Scale => "scale"@,
        NodeProperty::Visibility => "visibility"@,
    }
}

/// An imported translation, rotation or scale channel binds the node
/// property of the same name as its glTF target path; only morph-target
/// weights, which have no node property of their own, go to the scale slot.
pub proof fn lemma_channel_binds_same_named_property(property: LoadedAnimationProperty)
    ensures
        property != LoadedAnimationProperty::MorphTargetWeights ==> node_property_name(
            imported_property(property),
        ) == gltf_target_path(property),
        property == LoadedAnimationProperty::MorphTargetWeights ==> imported_property(property)
            == NodeProperty::Scale,
{
}


/// Imported interpolation modes keep their meaning: a loaded mode becomes the
/// runtime mode in the same position of the shared order linear, step, cubic
/// spline.
pub proof fn lemma_interpolation_kept(mode: LoadedAnimationInterpolation)
    ensures
        runtime_interpolation(mode) as u8 == mode as u8,
{
}

/// The values an imported translation, rotation or scale channel decodes to
/// are of the kind its bound node field holds (vectors for translation and
/// scale, quaternions for rotation); morph weights decode to scalars.
pub proof fn lemma_channel_kind_fits_binding(property: LoadedAnimationProperty, id: u64)
    ensures
        property != LoadedAnimationProperty::MorphTargetWeights ==> imported_kind(property)
            == field_kind(
            property_field(BindingKey::Node { id, property: imported_property(property).code() }),
        ),
        property == LoadedAnimationProperty::MorphTargetWeights ==> imported_kind(property)
            == SampleKind::Scalar,
{
    lemma_property_codes_round_trip();
}

} // verus!
