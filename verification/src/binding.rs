//! Typed property bindings for clip-based animation.
//!
//! Bindings are `(id, typed_property)` pairs rather than property paths; each
//! binding has a stable key under which the mixer blends the channels that
//! write the same target.

use vstd::prelude::*;

use crate::ids::{CameraId, LightId, MaterialId, MeshId, NodeId};

verus! {

/// Node properties that clips can drive.
#[derive(Clone, Copy, Debug, PartialEq, Eq, Structural)]
pub enum NodeProperty {
    /// Local translation.
    Translation,
    /// Local rotation.
    Rotation,
    /// Local scale.
    Scale,
    /// Visibility flag.
    Visibility,
}

impl NodeProperty {
    /// The stable discriminant of the property.
    pub open spec fn code(self) -> u8 {
        match self {
            NodeProperty::Translation => 0u8,
            NodeProperty::Rotation => 1u8,
            NodeProperty::Scale => 2u8,
            NodeProperty::Visibility => 3u8,
        }
    }

    /// The property whose discriminant is `v`, if any.
    pub open spec fn decode(v: u8) -> Option<NodeProperty> {
        match v {
            0u8 => Some(NodeProperty::Translation),
            1u8 => Some(NodeProperty::Rotation),
            2u8 => Some(NodeProperty::Scale),
            3u8 => Some(NodeProperty::Visibility),
            _ => None,
        }
    }

    /// Decodes a property discriminant produced by [`Self::as_u8`].
    pub fn from_u8(v: u8) -> (property: Option<Self>)
        ensures
            property == Self::decode(v),
    {
        match v {
            0 => Some(NodeProperty::Translation),
            1 => Some(NodeProperty::Rotation),
            2 => Some(NodeProperty::Scale),
            3 => Some(NodeProperty::Visibility),
            _ => None,
        }
    }

    /// Encodes the property as a stable discriminant.
    pub fn as_u8(self) -> (v: u8)
        ensures
            v == self.code(),
    {
        match self {
            NodeProperty::Translation => 0,
            NodeProperty::Rotation => 1,
            NodeProperty::Scale => 2,
            NodeProperty::Visibility => 3,
        }
    }
}

/// Bone properties that clips can drive.
#[derive(Clone, Copy, Debug, PartialEq, Eq, Structural)]
pub enum BoneProperty {
    /// Bone local translation.
    Translation,
    /// Bone local rotation.
    Rotation,
    /// Bone local scale.
    Scale,
}

impl BoneProperty {
    /// The stable discriminant of the property.
    pub open spec fn code(self) -> u8 {
        match self {
            BoneProperty::Translation => 0u8,
            BoneProperty::Rotation => 1u8,
            BoneProperty::Scale => 2u8,
        }
    }

    /// The property whose discriminant is `v`, if any.
    pub open spec fn decode(v: u8) -> Option<BoneProperty> {
        match v {
            0u8 => Some(BoneProperty::Translation),
            1u8 => Some(BoneProperty::Rotation),
            2u8 => Some(BoneProperty::Scale),
            _ => None,
        }
    }

    /// Decodes a property discriminant produced by [`Self::as_u8`].
    pub fn from_u8(v: u8) -> (property: Option<Self>)
        ensures
            property == Self::decode(v),
    {
        match v {
            0 => Some(BoneProperty::Translation),
            1 => Some(BoneProperty::Rotation),
            2 => Some(BoneProperty::Scale),
            _ => None,
        }
    }

    /// Encodes the property as a stable discriminant.
    pub fn as_u8(self) -> (v: u8)
        ensures
            v == self.code(),
    {
        match self {
            BoneProperty::Translation => 0,
            BoneProperty::Rotation => 1,
            BoneProperty::Scale => 2,
        }
    }
}

/// PBR material properties that clips can drive.
#[derive(Clone, Copy, Debug, PartialEq, Eq, Structural)]
pub enum MaterialProperty {
    /// Base color (albedo).
    Albedo,
    /// Base color alpha.
    Opacity,
    /// Emissive RGB color.
    Emissive,
    /// Roughness factor.
    Roughness,
    /// Metallic factor.
    Metallic,
}

impl MaterialProperty {
    /// The stable discriminant of the property.
    pub open spec fn code(self) -> u8 {
        match self {
            MaterialProperty::Albedo => 0u8,
            MaterialProperty::Opacity => 1u8,
            MaterialProperty::Emissive => 2u8,
            MaterialProperty::Roughness => 3u8,
            MaterialProperty::Metallic => 4u8,
        }
    }

    /// The property whose discriminant is `v`, if any.
    pub open spec fn decode(v: u8) -> Option<MaterialProperty> {
        match v {
            0u8 => Some(MaterialProperty::Albedo),
            1u8 => Some(MaterialProperty::Opacity),
            2u8 => Some(MaterialProperty::Emissive),
            3u8 => Some(MaterialProperty::Roughness),
            4u8 => Some(MaterialProperty::Metallic),
            _ => None,
        }
    }

    /// Decodes a property discriminant produced by [`Self::as_u8`].
    pub fn from_u8(v: u8) -> (property: Option<Self>)
        ensures
            property == Self::decode(v),
    {
        match v {
            0 => Some(MaterialProperty::Albedo),
            1 => Some(MaterialProperty::Opacity),
            2 => Some(MaterialProperty::Emissive),
            3 => Some(MaterialProperty::Roughness),
            4 => Some(MaterialProperty::Metallic),
            _ => None,
        }
    }

    /// Encodes the property as a stable discriminant.
    pub fn as_u8(self) -> (v: u8)
        ensures
            v == self.code(),
    {
        match self {
            MaterialProperty::Albedo => 0,
            MaterialProperty::Opacity => 1,
            MaterialProperty::Emissive => 2,
            MaterialProperty::Roughness => 3,
            MaterialProperty::Metallic => 4,
        }
    }
}

/// Camera properties that clips can drive.
#[derive(Clone, Copy, Debug, PartialEq, Eq, Structural)]
pub enum CameraProperty {
    /// Perspective vertical field of view in radians.
    FovY,
    /// Camera position.
    Position,
    /// Camera look target.
    Target,
    /// Camera up vector.
    Up,
    /// Orthographic projection bounds.
    OrthographicBounds,
}

impl CameraProperty {
    /// The stable discriminant of the property.
    pub open spec fn code(self) -> u8 {
        match self {
            CameraProperty::FovY => 0u8,
            CameraProperty::Position => 1u8,
            CameraProperty::Target => 2u8,
            CameraProperty::Up => 3u8,
            CameraProperty::OrthographicBounds => 4u8,
        }
    }

    /// The property whose discriminant is `v`, if any.
    pub open spec fn decode(v: u8) -> Option<CameraProperty> {
        match v {
            0u8 => Some(CameraProperty::FovY),
            1u8 => Some(CameraProperty::Position),
            2u8 => Some(CameraProperty::Target),
            3u8 => Some(CameraProperty::Up),
            4u8 => Some(CameraProperty::OrthographicBounds),
            _ => None,
        }
    }

    /// Decodes a property discriminant produced by [`Self::as_u8`].
    pub fn from_u8(v: u8) -> (property: Option<Self>)
        ensures
            property == Self::decode(v),
    {
        match v {
            0 => Some(CameraProperty::FovY),
            1 => Some(CameraProperty::Position),
            2 => Some(CameraProperty::Target),
            3 => Some(CameraProperty::Up),
            4 => Some(CameraProperty::OrthographicBounds),
            _ => None,
        }
    }

    /// Encodes the property as a stable discriminant.
    pub fn as_u8(self) -> (v: u8)
        ensures
            v == self.code(),
    {
        match self {
            CameraProperty::FovY => 0,
            CameraProperty::Position => 1,
            CameraProperty::Target => 2,
            CameraProperty::Up => 3,
            CameraProperty::OrthographicBounds => 4,
        }
    }
}

/// Light properties that clips can drive.
#[derive(Clone, Copy, Debug, PartialEq, Eq, Structural)]
pub enum LightProperty {
    /// Light color.
    Color,
    /// Scalar intensity.
    Intensity,
    /// Maximum range (point/spot only).
    Range,
    /// Spot outer cone half-angle in radians (spot only).
    SpotAngle,
}

impl LightProperty {
    /// The stable discriminant of the property.
    pub open spec fn code(self) -> u8 {
        match self {
            LightProperty::Color => 0u8,
            LightProperty::Intensity => 1u8,
            LightProperty::Range => 2u8,
            LightProperty::SpotAngle => 3u8,
        }
    }

    /// The property whose discriminant is `v`, if any.
    pub open spec fn decode(v: u8) -> Option<LightProperty> {
        match v {
            0u8 => Some(LightProperty::Color),
            1u8 => Some(LightProperty::Intensity),
            2u8 => Some(LightProperty::Range),
            3u8 => Some(LightProperty::SpotAngle),
            _ => None,
        }
    }

    /// Decodes a property discriminant produced by [`Self::as_u8`].
    pub fn from_u8(v: u8) -> (property: Option<Self>)
        ensures
            property == Self::decode(v),
    {
        match v {
            0 => Some(LightProperty::Color),
            1 => Some(LightProperty::Intensity),
            2 => Some(LightProperty::Range),
            3 => Some(LightProperty::SpotAngle),
            _ => None,
        }
    }

    /// Encodes the property as a stable discriminant.
    pub fn as_u8(self) -> (v: u8)
        ensures
            v == self.code(),
    {
        match self {
            LightProperty::Color => 0,
            LightProperty::Intensity => 1,
            LightProperty::Range => 2,
            LightProperty::SpotAngle => 3,
        }
    }
}

/// One animated target, resolved to a concrete resource and field.
#[derive(Clone, Copy, Debug, PartialEq, Eq, Structural)]
pub enum PropertyBinding {
    /// A scene node transform or visibility field.
    Node {
        /// Target node.
        node_id: NodeId,
        /// Field to animate.
        property: NodeProperty,
    },
    /// A skeleton bone local transform field.
    Bone {
        /// Target skeleton index in the mixer's skeleton slice.
        skeleton_index: usize,
        /// Target bone index inside that skeleton.
        bone_index: usize,
        /// Field to animate.
        property: BoneProperty,
    },
    /// A PBR material field.
    Material {
        /// Target material.
        material_id: MaterialId,
        /// Field to animate.
        property: MaterialProperty,
    },
    /// A camera field.
    Camera {
        /// Target camera.
        camera_id: CameraId,
        /// Field to animate.
        property: CameraProperty,
    },
    /// A light field.
    Light {
        /// Target light.
        light_id: LightId,
        /// Field to animate.
        property: LightProperty,
    },
    /// One morph target weight on a mesh.
    MorphWeight {
        /// Target mesh.
        mesh_id: MeshId,
        /// Target morph index inside the mesh's weight stack.
        target_index: usize,
    },
}

/// Stable, hashable key derived from a binding for accumulator lookups in the
/// mixer. Two channels that write the same key are blended together.
#[derive(Clone, Copy, Debug, PartialEq, Eq, PartialOrd, Ord, Hash, Structural)]
pub enum BindingKey {
    /// Node binding key.
    Node { id: u64, property: u8 },
    /// Bone binding key.
    Bone { skeleton: usize, bone: usize, property: u8 },
    /// Material binding key.
    Material { id: u64, property: u8 },
    /// Camera binding key.
    Camera { id: u64, property: u8 },
    /// Light binding key.
    Light { id: u64, property: u8 },
    /// Morph-weight binding key.
    Morph { id: u64, target: usize },
}

impl PropertyBinding {
    /// The accumulator key of this binding.
    pub open spec fn key_of(self) -> BindingKey {
        match self {
            PropertyBinding::Node { node_id, property } => BindingKey::Node {
                id: node_id.0,
                property: property.code(),
            },
            PropertyBinding::Bone { skeleton_index, bone_index, property } => BindingKey::Bone {
                skeleton: skeleton_index,
                bone: bone_index,
                property: property.code(),
            },
            PropertyBinding::Material { material_id, property } => BindingKey::Material {
                id: material_id.0,
                property: property.code(),
            },
            PropertyBinding::Camera { camera_id, property } => BindingKey::Camera {
                id: camera_id.0,
                property: property.code(),
            },
            PropertyBinding::Light { light_id, property } => BindingKey::Light {
                id: light_id.0,
                property: property.code(),
            },
            PropertyBinding::MorphWeight { mesh_id, target_index } => BindingKey::Morph {
                id: mesh_id.0,
                target: target_index,
            },
        }
    }

    /// Returns the stable accumulator key for this binding.
    pub fn key(&self) -> (key: BindingKey)
        ensures
            key == self.key_of(),
    {
        match *self {
            PropertyBinding::Node { node_id, property } => BindingKey::Node {
                id: node_id.get(),
                property: property.as_u8(),
            },
            PropertyBinding::Bone { skeleton_index, bone_index, property } => BindingKey::Bone {
                skeleton: skeleton_index,
                bone: bone_index,
                property: property.as_u8(),
            },
            PropertyBinding::Material { material_id, property } => BindingKey::Material {
                id: material_id.get(),
                property: property.as_u8(),
            },
            PropertyBinding::Camera { camera_id, property } => BindingKey::Camera {
                id: camera_id.get(),
                property: property.as_u8(),
            },
            PropertyBinding::Light { light_id, property } => BindingKey::Light {
                id: light_id.get(),
                property: property.as_u8(),
            },
            PropertyBinding::MorphWeight { mesh_id, target_index } => BindingKey::Morph {
                id: mesh_id.get(),
                target: target_index,
            },
        }
    }
}

/// Property discriminants round-trip: decoding the code of a property gives
/// the property back, and a decodable code is the code of what it decodes to.
pub proof fn lemma_property_codes_round_trip()
    ensures
        forall|p: NodeProperty| #[trigger] NodeProperty::decode(p.code()) == Some(p),
        forall|v: u8| #[trigger] NodeProperty::decode(v) matches Some(p) ==> p.code() == v,
        forall|p: BoneProperty| #[trigger] BoneProperty::decode(p.code()) == Some(p),
        forall|v: u8| #[trigger] BoneProperty::decode(v) matches Some(p) ==> p.code() == v,
        forall|p: MaterialProperty| #[trigger] MaterialProperty::decode(p.code()) == Some(p),
        forall|v: u8| #[trigger] MaterialProperty::decode(v) matches Some(p) ==> p.code() == v,
        forall|p: CameraProperty| #[trigger] CameraProperty::decode(p.code()) == Some(p),
        forall|v: u8| #[trigger] CameraProperty::decode(v) matches Some(p) ==> p.code() == v,
        forall|p: LightProperty| #[trigger] LightProperty::decode(p.code()) == Some(p),
        forall|v: u8| #[trigger] LightProperty::decode(v) matches Some(p) ==> p.code() == v,
{
}

/// Keys identify bindings: two bindings with the same accumulator key are the
/// same binding, so the mixer blends only channels that write one target.
pub proof fn lemma_binding_key_injective(a: PropertyBinding, b: PropertyBinding)
    requires
        a.key_of() == b.key_of(),
    ensures
        a == b,
{
    lemma_property_codes_round_trip();
    match (a, b) {
        (PropertyBinding::Node { property: pa, .. }, PropertyBinding::Node { property: pb, .. }) => {
            assert(NodeProperty::decode(pa.code()) == Some(pa));
            assert(NodeProperty::decode(pb.code()) == Some(pb));
        },
        (PropertyBinding::Bone { property: pa, .. }, PropertyBinding::Bone { property: pb, .. }) => {
            assert(BoneProperty::decode(pa.code()) == Some(pa));
            assert(BoneProperty::decode(pb.code()) == Some(pb));
        },
        (
            PropertyBinding::Material { property: pa, .. },
            PropertyBinding::Material { property: pb, .. },
        ) => {
            assert(MaterialProperty::decode(pa.code()) == Some(pa));
            assert(MaterialProperty::decode(pb.code()) == Some(pb));
        },
        (PropertyBinding::Camera { property: pa, .. }, PropertyBinding::Camera { property: pb, .. }) => {
            assert(CameraProperty::decode(pa.code()) == Some(pa));
            assert(CameraProperty::decode(pb.code()) == Some(pb));
        },
        (PropertyBinding::Light { property: pa, .. }, PropertyBinding::Light { property: pb, .. }) => {
            assert(LightProperty::decode(pa.code()) == Some(pa));
            assert(LightProperty::decode(pb.code()) == Some(pb));
        },
        _ => {},
    }
}

} // verus!
