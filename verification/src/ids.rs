//! Typed resource identifiers.

use vstd::prelude::*;

verus! {

/// Identifier of a scene node. The value `0` is the null identifier.
#[derive(Clone, Copy, Debug, Default, PartialEq, Eq, Hash, Structural)]
pub struct NodeId(pub u64);

impl NodeId {
    /// Creates an identifier from its raw value.
    pub fn new(raw: u64) -> (id: Self)
        ensures
            id.0 == raw,
    {
        NodeId(raw)
    }

    /// Returns the raw value.
    pub fn get(self) -> (raw: u64)
        ensures
            raw == self.0,
    {
        self.0
    }

    /// Returns whether this is the null identifier.
    pub fn is_null(self) -> (b: bool)
        ensures
            b == (self.0 == 0),
    {
        self.0 == 0
    }
}

/// Identifier of a mesh. The value `0` is the null identifier.
#[derive(Clone, Copy, Debug, Default, PartialEq, Eq, Hash, Structural)]
pub struct MeshId(pub u64);

impl MeshId {
    /// Creates an identifier from its raw value.
    pub fn new(raw: u64) -> (id: Self)
        ensures
            id.0 == raw,
    {
        MeshId(raw)
    }

    /// Returns the raw value.
    pub fn get(self) -> (raw: u64)
        ensures
            raw == self.0,
    {
        self.0
    }

    /// Returns whether this is the null identifier.
    pub fn is_null(self) -> (b: bool)
        ensures
            b == (self.0 == 0),
    {
        self.0 == 0
    }
}

/// Identifier of a material. The value `0` is the null identifier.
#[derive(Clone, Copy, Debug, Default, PartialEq, Eq, Hash, Structural)]
pub struct MaterialId(pub u64);

impl MaterialId {
    /// Creates an identifier from its raw value.
    pub fn new(raw: u64) -> (id: Self)
        ensures
            id.0 == raw,
    {
        MaterialId(raw)
    }

    /// Returns the raw value.
    pub fn get(self) -> (raw: u64)
        ensures
            raw == self.0,
    {
        self.0
    }

    /// Returns whether this is the null identifier.
    pub fn is_null(self) -> (b: bool)
        ensures
            b == (self.0 == 0),
    {
        self.0 == 0
    }
}

/// Identifier of a camera. The value `0` is the null identifier.
#[derive(Clone, Copy, Debug, Default, PartialEq, Eq, Hash, Structural)]
pub struct CameraId(pub u64);

impl CameraId {
    /// Creates an identifier from its raw value.
    pub fn new(raw: u64) -> (id: Self)
        ensures
            id.0 == raw,
    {
        CameraId(raw)
    }

    /// Returns the raw value.
    pub fn get(self) -> (raw: u64)
        ensures
            raw == self.0,
    {
        self.0
    }

    /// Returns whether this is the null identifier.
    pub fn is_null(self) -> (b: bool)
        ensures
            b == (self.0 == 0),
    {
        self.0 == 0
    }
}

/// Identifier of a light. The value `0` is the null identifier.
#[derive(Clone, Copy, Debug, Default, PartialEq, Eq, Hash, Structural)]
pub struct LightId(pub u64);

impl LightId {
    /// Creates an identifier from its raw value.
    pub fn new(raw: u64) -> (id: Self)
        ensures
            id.0 == raw,
    {
        LightId(raw)
    }

    /// Returns the raw value.
    pub fn get(self) -> (raw: u64)
        ensures
            raw == self.0,
    {
        self.0
    }

    /// Returns whether this is the null identifier.
    pub fn is_null(self) -> (b: bool)
        ensures
            b == (self.0 == 0),
    {
        self.0 == 0
    }
}

/// Identifier of a asset package. The value `0` is the null identifier.
#[derive(Clone, Copy, Debug, Default, PartialEq, Eq, Hash, Structural)]
pub struct AssetId(pub u64);

impl AssetId {
    /// Creates an identifier from its raw value.
    pub fn new(raw: u64) -> (id: Self)
        ensures
            id.0 == raw,
    {
        AssetId(raw)
    }

    /// Returns the raw value.
    pub fn get(self) -> (raw: u64)
        ensures
            raw == self.0,
    {
        self.0
    }

    /// Returns whether this is the null identifier.
    pub fn is_null(self) -> (b: bool)
        ensures
            b == (self.0 == 0),
    {
        self.0 == 0
    }
}

/// Opaque identifier used to correlate inspector rows with application data.
#[derive(Clone, Copy, Debug, Default, PartialEq, Eq, Hash, Structural)]
pub struct InspectorId(pub u64);

} // verus!
