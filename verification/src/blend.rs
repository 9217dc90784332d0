//! Where a blended binding value is written: the resource an accumulator key
//! addresses, the field its sample kind can set, and which light kinds a
//! light field reaches.

use vstd::prelude::*;

use crate::binding::{
    BindingKey, BoneProperty, CameraProperty, LightProperty, MaterialProperty, NodeProperty,
};
use crate::ids::{CameraId, LightId, MaterialId, MeshId, NodeId};
use crate::picking::ValidationError;

verus! {

/// The kind of value blended for one binding key.
#[derive(Clone, Copy, Debug, PartialEq, Eq, Structural)]
pub enum SampleKind {
    /// Nothing was sampled.
    Empty,
    /// 3D vector samples.
    Vec3,
    /// Quaternion samples.
    Quat,
    /// Scalar samples.
    Scalar,
    /// Color samples.
    Color,
    /// Boolean samples.
    Bool,
}

/// The resource a blended value is applied to.
#[derive(Clone, Copy, Debug, PartialEq, Eq, Structural)]
pub enum WriteTarget {
    /// No resource is touched.
    Nothing,
    /// A scene node; a missing node is an invalid-id error.
    Node(NodeId),
    /// A bone of a skeleton pose; a missing skeleton or bone is an invalid-id
    /// error.
    Bone { skeleton: usize, bone: usize },
    /// A PBR material; a missing material is an invalid-id error.
    Material(MaterialId),
    /// A camera, written only if present (perspective first, then orthographic).
    Camera(CameraId),
    /// A light, written only where present.
    Light(LightId),
    /// One morph weight of a mesh, written only if present.
    Morph { mesh: MeshId, target: usize },
}

/// The field a blended value sets on its target.
#[derive(Clone, Copy, Debug, PartialEq, Eq, Structural)]
pub enum WriteField {
    /// The target is looked up but nothing is written.
    Nothing,
    /// Node or bone translation.
    Translation,
    /// Node or bone rotation.
    Rotation,
    /// Node or bone scale.
    Scale,
    /// Node visibility.
    Visibility,
    /// Material albedo.
    Albedo,
    /// Material albedo alpha (switches the material to blending below `1`).
    Opacity,
    /// Material emissive color.
    Emissive,
    /// Material roughness, clamped to `[0, 1]`.
    Roughness,
    /// Material metallic factor, clamped to `[0, 1]`.
    Metallic,
    /// Perspective field of view, clamped to `[1°, 179°]`.
    FovY,
    /// Camera position.
    Position,
    /// Camera look target.
    Target,
    /// Camera up vector (normalized; zero becomes +Y).
    Up,
    /// Light color.
    LightColor,
    /// Light intensity, at least `0`.
    Intensity,
    /// Light range, at least `0`.
    Range,
    /// Spot cone angle, clamped to `[0, π/2]`.
    SpotAngle,
    /// Morph weight, clamped to `[0, 1]`.
    MorphWeight,
}

/// Target and field for one blended binding value.
#[derive(Clone, Copy, Debug, PartialEq, Eq, Structural)]
pub struct WritePlan {
    /// Resource written.
    pub target: WriteTarget,
    /// Field written.
    pub field: WriteField,
}

/// The plan for writing a value of `kind` blended under `key`. A key whose
/// sample kind does not fit any of its properties writes nothing; a node,
/// bone or material key with a fitting kind still requires its target.
pub open spec fn plan_for(key: BindingKey, kind: SampleKind) -> WritePlan {
    match (key, kind) {
        (BindingKey::Node { id, property }, SampleKind::Vec3) => WritePlan {
            target: WriteTarget::Node(NodeId(id)),
            field: if NodeProperty::decode(property) == Some(NodeProperty::Translation) {
                WriteField::Translation
            } else if NodeProperty::decode(property) == Some(NodeProperty::Scale) {
                WriteField::Scale
            } else {
                WriteField::Nothing
            },
        },
        (BindingKey::Node { id, property }, SampleKind::Quat) => WritePlan {
            target: WriteTarget::Node(NodeId(id)),
            field: if NodeProperty::decode(property) == Some(NodeProperty::Rotation) {
                WriteField::Rotation
            } else {
                WriteField::Nothing
            },
        },
        (BindingKey::Node { id, property }, SampleKind::Bool) => WritePlan {
            target: WriteTarget::Node(NodeId(id)),
            field: if NodeProperty::decode(property) == Some(NodeProperty::Visibility) {
                WriteField::Visibility
            } else {
                WriteField::Nothing
            },
        },
        (BindingKey::Bone { skeleton, bone, property }, SampleKind::Vec3) => WritePlan {
            target: WriteTarget::Bone { skeleton, bone },
            field: if BoneProperty::decode(property) == Some(BoneProperty::Translation) {
                WriteField::Translation
            } else if BoneProperty::decode(property) == Some(BoneProperty::Scale) {
                WriteField::Scale
            } else {
                WriteField::Nothing
            },
        },
        (BindingKey::Bone { skeleton, bone, property }, SampleKind::Quat) => WritePlan {
            target: WriteTarget::Bone { skeleton, bone },
            field: if BoneProperty::decode(property) == Some(BoneProperty::Rotation) {
                WriteField::Rotation
            } else {
                WriteField::Nothing
            },
        },
        (BindingKey::Material { id, property }, SampleKind::Color) => WritePlan {
            target: WriteTarget::Material(MaterialId(id)),
            field: if MaterialProperty::decode(property) == Some(MaterialProperty::Albedo) {
                WriteField::Albedo
            } else {
                WriteField::Nothing
            },
        },
        (BindingKey::Material { id, property }, SampleKind::Scalar) => WritePlan {
            target: WriteTarget::Material(MaterialId(id)),
            field: if MaterialProperty::decode(property) == Some(MaterialProperty::Opacity) {
                WriteField::Opacity
            } else if MaterialProperty::decode(property) == Some(MaterialProperty::Roughness) {
                WriteField::Roughness
            } else if MaterialProperty::decode(property) == Some(MaterialProperty::Metallic) {
                WriteField::Metallic
            } else {
                WriteField::Nothing
            },
        },
        (BindingKey::Material { id, property }, SampleKind::Vec3) => WritePlan {
            target: WriteTarget::Material(MaterialId(id)),
            field: if MaterialProperty::decode(property) == Some(MaterialProperty::Emissive) {
                WriteField::Emissive
            } else {
                WriteField::Nothing
            },
        },
        (BindingKey::Camera { id, property }, SampleKind::Scalar) => if CameraProperty::decode(
            property,
        ) == Some(CameraProperty::FovY) {
            WritePlan { target: WriteTarget::Camera(CameraId(id)), field: WriteField::FovY }
        } else {
            WritePlan { target: WriteTarget::Nothing, field: WriteField::Nothing }
        },
        (BindingKey::Camera { id, property }, SampleKind::Vec3) => if CameraProperty::decode(
            property,
        ) == Some(CameraProperty::Position) {
            WritePlan { target: WriteTarget::Camera(CameraId(id)), field: WriteField::Position }
        } else if CameraProperty::decode(property) == Some(CameraProperty::Target) {
            WritePlan { target: WriteTarget::Camera(CameraId(id)), field: WriteField::Target }
        } else if CameraProperty::decode(property) == Some(CameraProperty::Up) {
            WritePlan { target: WriteTarget::Camera(CameraId(id)), field: WriteField::Up }
        } else {
            WritePlan { target: WriteTarget::Nothing, field: WriteField::Nothing }
        },
        (BindingKey::Light { id, property }, SampleKind::Color) => if LightProperty::decode(
            property,
        ) == Some(LightProperty::Color) {
            WritePlan { target: WriteTarget::Light(LightId(id)), field: WriteField::LightColor }
        } else {
            WritePlan { target: WriteTarget::Nothing, field: WriteField::Nothing }
        },
        (BindingKey::Light { id, property }, SampleKind::Scalar) => if LightProperty::decode(
            property,
        ) == Some(LightProperty::Intensity) {
            WritePlan { target: WriteTarget::Light(LightId(id)), field: WriteField::Intensity }
        } else if LightProperty::decode(property) == Some(LightProperty::Range) {
            WritePlan { target: WriteTarget::Light(LightId(id)), field: WriteField::Range }
        } else if LightProperty::decode(property) == Some(LightProperty::SpotAngle) {
            WritePlan { target: WriteTarget::Light(LightId(id)), field: WriteField::SpotAngle }
        } else {
            WritePlan { target: WriteTarget::Nothing, field: WriteField::Nothing }
        },
        (BindingKey::Morph { id, target }, SampleKind::Scalar) => WritePlan {
            target: WriteTarget::Morph { mesh: MeshId(id), target },
            field: WriteField::MorphWeight,
        },
        _ => WritePlan { target: WriteTarget::Nothing, field: WriteField::Nothing },
    }
}

/// Decides which resource and field a value of `kind` blended under `key`
/// is applied to.
pub fn write_plan(key: BindingKey, kind: SampleKind) -> (plan: WritePlan)
    ensures
        plan == plan_for(key, kind),
{
    let nothing = WritePlan { target: WriteTarget::Nothing, field: WriteField::Nothing };
    match key {
        BindingKey::Node { id, property } => {
            let p = NodeProperty::from_u8(property);
            let field = match kind {
                SampleKind::Vec3 => match p {
                    Some(NodeProperty::Translation) => WriteField::Translation,
                    Some(NodeProperty::Scale) => WriteField::Scale,
                    _ => WriteField::Nothing,
                },
                SampleKind::Quat => match p {
                    Some(NodeProperty::Rotation) => WriteField::Rotation,
                    _ => WriteField::Nothing,
                },
                SampleKind::Bool => match p {
                    Some(NodeProperty::Visibility) => WriteField::Visibility,
                    _ => WriteField::Nothing,
                },
                _ => {
                    return nothing;
                },
            };
            WritePlan { target: WriteTarget::Node(NodeId::new(id)), field }
        },
        BindingKey::Bone { skeleton, bone, property } => {
            let p = BoneProperty::from_u8(property);
            let field = match kind {
                SampleKind::Vec3 => match p {
                    Some(BoneProperty::Translation) => WriteField::Translation,
                    Some(BoneProperty::Scale) => WriteField::Scale,
                    _ => WriteField::Nothing,
                },
                SampleKind::Quat => match p {
                    Some(BoneProperty::Rotation) => WriteField::Rotation,
                    _ => WriteField::Nothing,
                },
                _ => {
                    return nothing;
                },
            };
            WritePlan { target: WriteTarget::Bone { skeleton, bone }, field }
        },
        BindingKey::Material { id, property } => {
            let p = MaterialProperty::from_u8(property);
            let field = match kind {
                SampleKind::Color => match p {
                    Some(MaterialProperty::Albedo) => WriteField::Albedo,
                    _ => WriteField::Nothing,
                },
                SampleKind::Scalar => match p {
                    Some(MaterialProperty::Opacity) => WriteField::Opacity,
                    Some(MaterialProperty::Roughness) => WriteField::Roughness,
                    Some(MaterialProperty::Metallic) => WriteField::Metallic,
                    _ => WriteField::Nothing,
                },
                SampleKind::Vec3 => match p {
                    Some(MaterialProperty::Emissive) => WriteField::Emissive,
                    _ => WriteField::Nothing,
                },
                _ => {
                    return nothing;
                },
            };
            WritePlan { target: WriteTarget::Material(MaterialId::new(id)), field }
        },
        BindingKey::Camera { id, property } => {
            let p = CameraProperty::from_u8(property);
            let field = match kind {
                SampleKind::Scalar => match p {
                    Some(CameraProperty::FovY) => WriteField::FovY,
                    _ => WriteField::Nothing,
                },
                SampleKind::Vec3 => match p {
                    Some(CameraProperty::Position) => WriteField::Position,
                    Some(CameraProperty::Target) => WriteField::Target,
                    Some(CameraProperty::Up) => WriteField::Up,
                    _ => WriteField::Nothing,
                },
                _ => WriteField::Nothing,
            };
            match field {
                WriteField::Nothing => nothing,
                _ => WritePlan { target: WriteTarget::Camera(CameraId::new(id)), field },
            }
        },
        BindingKey::Light { id, property } => {
            let p = LightProperty::from_u8(property);
            let field = match kind {
                SampleKind::Color => match p {
                    Some(LightProperty::Color) => WriteField::LightColor,
                    _ => WriteField::Nothing,
                },
                SampleKind::Scalar => match p {
                    Some(LightProperty::Intensity) => WriteField::Intensity,
                    Some(LightProperty::Range) => WriteField::Range,
                    Some(LightProperty::SpotAngle) => WriteField::SpotAngle,
                    _ => WriteField::Nothing,
                },
                _ => WriteField::Nothing,
            };
            match field {
                WriteField::Nothing => nothing,
                _ => WritePlan { target: WriteTarget::Light(LightId::new(id)), field },
            }
        },
        BindingKey::Morph { id, target } => match kind {
            SampleKind::Scalar => WritePlan {
                target: WriteTarget::Morph { mesh: MeshId::new(id), target },
                field: WriteField::MorphWeight,
            },
            _ => nothing,
        },
    }
}

/// Whether a missing target is an error: nodes, bones and materials must
/// exist; cameras, lights and morph weights are written only where present.
pub open spec fn target_required(target: WriteTarget) -> bool {
    match target {
        WriteTarget::Node(_) | WriteTarget::Bone { .. } | WriteTarget::Material(_) => true,
        _ => false,
    }
}

/// What applying `plan` amounts to once its target has been looked up:
/// `Ok(true)` when a field is written, `Ok(false)` when nothing is written,
/// and an invalid-id error when a required target is missing.
pub open spec fn write_outcome_for(plan: WritePlan, target_found: bool) -> Result<
    bool,
    ValidationError,
> {
    if plan.target == WriteTarget::Nothing {
        Ok(false)
    } else if !target_found {
        if target_required(plan.target) {
            Err(ValidationError::InvalidId)
        } else {
            Ok(false)
        }
    } else {
        Ok(plan.field != WriteField::Nothing)
    }
}

/// Decides the outcome of applying `plan`, given whether its target (for a
/// bone: the skeleton and the bone; for a light: a light of a kind that
/// carries the field) was found.
pub fn write_outcome(plan: WritePlan, target_found: bool) -> (outcome: Result<bool, ValidationError>)
    ensures
        outcome == write_outcome_for(plan, target_found),
{
    match plan.target {
        WriteTarget::Nothing => Ok(false),
        WriteTarget::Node(_) | WriteTarget::Bone { .. } | WriteTarget::Material(_) => {
            if !target_found {
                Err(ValidationError::InvalidId)
            } else {
                Ok(!matches!(plan.field, WriteField::Nothing))
            }
        },
        _ => {
            if !target_found {
                Ok(false)
            } else {
                Ok(!matches!(plan.field, WriteField::Nothing))
            }
        },
    }
}

/// Which kinds of light a light property is written to.
#[derive(Clone, Copy, Debug, PartialEq, Eq, Structural)]
pub struct LightKinds {
    /// Point lights.
    pub point: bool,
    /// Spot lights.
    pub spot: bool,
    /// Directional lights.
    pub directional: bool,
}

impl LightProperty {
    /// The light kinds that carry this property: color and intensity on
    /// every light, range on point and spot lights, the cone angle on spot
    /// lights only.
    pub open spec fn kinds(self) -> LightKinds {
        match self {
            LightProperty::Color => LightKinds { point: true, spot: true, directional: true },
            LightProperty::Intensity => LightKinds { point: true, spot: true, directional: true },
            LightProperty::Range => LightKinds { point: true, spot: true, directional: false },
            LightProperty::SpotAngle => LightKinds { point: false, spot: true, directional: false },
        }
    }

    /// Returns the light kinds this property is written to.
    pub fn light_kinds(self) -> (kinds: LightKinds)
        ensures
            kinds == self.kinds(),
    {
        match self {
            LightProperty::Color => LightKinds { point: true, spot: true, directional: true },
            LightProperty::Intensity => LightKinds { point: true, spot: true, directional: true },
            LightProperty::Range => LightKinds { point: true, spot: true, directional: false },
            LightProperty::SpotAngle => LightKinds { point: false, spot: true, directional: false },
        }
    }
}

/// A value is written only to the resource its own key names, and only a
/// field of the property its key carries: blending one binding never writes
/// another binding's target.
pub proof fn lemma_plan_writes_own_target(key: BindingKey, kind: SampleKind)
    ensures
        match plan_for(key, kind).target {
            WriteTarget::Node(n) => key matches BindingKey::Node { id, .. } && n.0 == id,
            WriteTarget::Bone { skeleton, bone } => key matches BindingKey::Bone {
                skeleton: s,
                bone: b,
                ..
            } && s == skeleton && b == bone,
            WriteTarget::Material(m) => key matches BindingKey::Material { id, .. } && m.0 == id,
            WriteTarget::Camera(c) => key matches BindingKey::Camera { id, .. } && c.0 == id,
            WriteTarget::Light(l) => key matches BindingKey::Light { id, .. } && l.0 == id,
            WriteTarget::Morph { mesh, target } => key matches BindingKey::Morph {
                id,
                target: t,
            } && mesh.0 == id && t == target,
            WriteTarget::Nothing => plan_for(key, kind).field == WriteField::Nothing,
        },
        kind == SampleKind::Empty ==> plan_for(key, kind).field == WriteField::Nothing,
{
}


/// Only a missing required target is an error, and a plan that writes
/// nothing (an empty sample, or a kind no property of the key accepts) never
/// fails.
pub proof fn lemma_only_required_targets_fail(plan: WritePlan, target_found: bool)
    ensures
        write_outcome_for(plan, target_found) is Err <==> (plan.target != WriteTarget::Nothing
            && !target_found && target_required(plan.target)),
        plan.target == WriteTarget::Nothing ==> write_outcome_for(plan, target_found) == Ok::<
            bool,
            ValidationError,
        >(false),
        (plan.target is Node || plan.target is Bone || plan.target is Material) && !target_found
            ==> write_outcome_for(plan, target_found) == Err::<bool, ValidationError>(
            ValidationError::InvalidId,
        ),
        (plan.target is Camera || plan.target is Light || plan.target is Morph)
            ==> write_outcome_for(plan, target_found) is Ok,
        target_found ==> write_outcome_for(plan, target_found) == Ok::<bool, ValidationError>(
            plan.target != WriteTarget::Nothing && plan.field != WriteField::Nothing,
        ),
{
}


/// The field a key's own property names, whatever value arrives for it.
pub open spec fn property_field(key: BindingKey) -> WriteField {
    match key {
        BindingKey::Node { property, .. } => match NodeProperty::decode(property) {
            Some(NodeProperty::Translation) => WriteField::Translation,
            Some(NodeProperty::Rotation) => WriteField::Rotation,
            Some(NodeProperty::Scale) => WriteField::Scale,
            Some(NodeProperty::Visibility) => WriteField::Visibility,
            None => WriteField::Nothing,
        },
        BindingKey::Bone { property, .. } => match BoneProperty::decode(property) {
            Some(BoneProperty::Translation) => WriteField::Translation,
            Some(BoneProperty::Rotation) => WriteField::Rotation,
            Some(BoneProperty::Scale) => WriteField::Scale,
            None => WriteField::Nothing,
        },
        BindingKey::Material { property, .. } => match MaterialProperty::decode(property) {
            Some(MaterialProperty::Albedo) => WriteField::Albedo,
            Some(MaterialProperty::Opacity) => WriteField::Opacity,
            Some(MaterialProperty::Emissive) => WriteField::Emissive,
            Some(MaterialProperty::Roughness) => WriteField::Roughness,
            Some(MaterialProperty::Metallic) => WriteField::Metallic,
            None => WriteField::Nothing,
        },
        BindingKey::Camera { property, .. } => match CameraProperty::decode(property) {
            Some(CameraProperty::FovY) => WriteField::FovY,
            Some(CameraProperty::Position) => WriteField::Position,
            Some(CameraProperty::Target) => WriteField::Target,
            Some(CameraProperty::Up) => WriteField::Up,
            _ => WriteField::Nothing,
        },
        BindingKey::Light { property, .. } => match LightProperty::decode(property) {
            Some(LightProperty::Color) => WriteField::LightColor,
            Some(LightProperty::Intensity) => WriteField::Intensity,
            Some(LightProperty::Range) => WriteField::Range,
            Some(LightProperty::SpotAngle) => WriteField::SpotAngle,
            None => WriteField::Nothing,
        },
        BindingKey::Morph { .. } => WriteField::MorphWeight,
    }
}

/// The kind of value a field holds: positions, scales and directions are
/// vectors, rotations quaternions, colours colours, visibility a flag, and
/// the rest scalars.
pub open spec fn field_kind(field: WriteField) -> SampleKind {
    match field {
        WriteField::Nothing => SampleKind::Empty,
        WriteField::Translation | WriteField::Scale | WriteField::Emissive | WriteField::Position
        | WriteField::Target | WriteField::Up => SampleKind::Vec3,
        WriteField::Rotation => SampleKind::Quat,
        WriteField::Albedo | WriteField::LightColor => SampleKind::Color,
        WriteField::Visibility => SampleKind::Bool,
        _ => SampleKind::Scalar,
    }
}

/// A blended value is written to the field its key's property names, and
/// only when the value is of the kind that field holds; a value of any other
/// kind writes nothing. So a scale key writes the scale, a translation key
/// the translation, a rotation key the rotation, and so on for every
/// material, camera and light property.
pub proof fn lemma_plan_writes_own_property(key: BindingKey, kind: SampleKind)
    ensures
        plan_for(key, kind).field == if kind == field_kind(property_field(key)) {
            property_field(key)
        } else {
            WriteField::Nothing
        },
{
}

} // verus!
