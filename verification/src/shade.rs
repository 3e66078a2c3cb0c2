//! Shader stages, shader sets and the errors of shader creation.

use vstd::prelude::*;
use crate::native::Shader;

verus! {

/// One programmable pipeline stage.
#[derive(Clone, Copy, Debug, PartialEq, Eq, Structural, Hash)]
pub enum Stage {
    /// Vertex processing.
    Vertex,
    /// Hull (tessellation control) processing.
    Hull,
    /// Domain (tessellation evaluation) processing.
    Domain,
    /// Geometry processing.
    Geometry,
    /// Pixel (fragment) processing.
    Pixel,
}

/// Stage usage flags, a set of the `Usage::*` bits.
#[derive(Clone, Copy, Debug, PartialEq, Eq, Structural, Hash)]
pub struct Usage {
    /// Raw bit set.
    pub bits: u8,
}

impl Usage {
    /// The vertex stage is used.
    pub fn vertex() -> (r: Usage)
        ensures
            r.bits == 0x1,
    {
        Usage { bits: 0x1 }
    }

    /// The geometry stage is used.
    pub fn geometry() -> (r: Usage)
        ensures
            r.bits == 0x2,
    {
        Usage { bits: 0x2 }
    }

    /// The pixel stage is used.
    pub fn pixel() -> (r: Usage)
        ensures
            r.bits == 0x4,
    {
        Usage { bits: 0x4 }
    }

    /// Union of two flag sets.
    pub fn union(self, other: Usage) -> (r: Usage)
        ensures
            r.bits == self.bits | other.bits,
    {
        Usage { bits: self.bits | other.bits }
    }
}

/// Error creating a shader.
#[derive(Clone, Debug, PartialEq, Eq, Hash)]
pub enum CreateShaderError {
    /// The shader model asked for is not supported by the device.
    ModelNotSupported,
    /// The stage is not supported by the device.
    StageNotSupported(Stage),
    /// The shader byte code is malformed.
    CompilationFailed(String),
}

/// Error linking a program from a shader set.
#[derive(Clone, Debug, PartialEq, Eq, Hash)]
pub struct CreateProgramError(pub String);

/// A vertex shader with its entry point.
#[derive(Clone, Debug, PartialEq, Eq, Hash)]
pub struct VertexEntry(pub VertexShader, pub String);

/// A geometry shader with its entry point.
#[derive(Clone, Debug, PartialEq, Eq, Hash)]
pub struct GeometryEntry(pub GeometryShader, pub String);

/// A pixel shader with its entry point.
#[derive(Clone, Debug, PartialEq, Eq, Hash)]
pub struct PixelEntry(pub PixelShader, pub String);

/// A compiled shader known to hold a vertex stage.
#[derive(Clone, Copy, Debug, PartialEq, Eq, Structural, Hash)]
pub struct VertexShader(pub Shader);

/// A compiled shader known to hold a geometry stage.
#[derive(Clone, Copy, Debug, PartialEq, Eq, Structural, Hash)]
pub struct GeometryShader(pub Shader);

/// A compiled shader known to hold a pixel stage.
#[derive(Clone, Copy, Debug, PartialEq, Eq, Structural, Hash)]
pub struct PixelShader(pub Shader);

impl VertexEntry {
    /// The shader module behind the entry.
    pub fn get_shader(&self) -> (r: &Shader)
        ensures
            *r == self.0.0,
    {
        &self.0.0
    }

    /// The entry point name.
    pub fn get_entry_point(&self) -> (r: &String)
        ensures
            r == &self.1,
    {
        &self.1
    }
}

impl GeometryEntry {
    /// The shader module behind the entry.
    pub fn get_shader(&self) -> (r: &Shader)
        ensures
            *r == self.0.0,
    {
        &self.0.0
    }

    /// The entry point name.
    pub fn get_entry_point(&self) -> (r: &String)
        ensures
            r == &self.1,
    {
        &self.1
    }
}

impl PixelEntry {
    /// The shader module behind the entry.
    pub fn get_shader(&self) -> (r: &Shader)
        ensures
            *r == self.0.0,
    {
        &self.0.0
    }

    /// The entry point name.
    pub fn get_entry_point(&self) -> (r: &String)
        ensures
            r == &self.1,
    {
        &self.1
    }
}

/// A complete set of shaders to link a program.
#[derive(Clone, Debug, PartialEq, Eq, Hash)]
pub enum ShaderSet {
    /// Simple program: vertex and pixel stages.
    Simple(VertexEntry, PixelEntry),
    /// Geometry program: vertex, geometry and pixel stages.
    Geometry(VertexEntry, GeometryEntry, PixelEntry),
}

/// The stage usage of a shader set.
pub open spec fn spec_set_usage(s: ShaderSet) -> u8 {
    match s {
        ShaderSet::Simple(_, _) => 0x1u8 | 0x4u8,
        ShaderSet::Geometry(_, _, _) => 0x1u8 | 0x2u8 | 0x4u8,
    }
}

impl ShaderSet {
    /// The aggregated stage usage of the set.
    pub fn get_usage(&self) -> (r: Usage)
        ensures
            r.bits == spec_set_usage(*self),
    {
        match *self {
            ShaderSet::Simple(..) => Usage::vertex().union(Usage::pixel()),
            ShaderSet::Geometry(..) => Usage::vertex().union(Usage::geometry()).union(
                Usage::pixel(),
            ),
        }
    }

    /// The vertex entry of the set; every set has one.
    pub fn get_vertex_entry(&self) -> (r: Option<&VertexEntry>)
        ensures
            match *self {
                ShaderSet::Simple(v, _) => r == Some(&v),
                ShaderSet::Geometry(v, _, _) => r == Some(&v),
            },
    {
        match *self {
            ShaderSet::Simple(ref vertex, _) => Some(vertex),
            ShaderSet::Geometry(ref vertex, _, _) => Some(vertex),
        }
    }

    /// The geometry entry of the set, where it has one.
    pub fn get_geometry_entry(&self) -> (r: Option<&GeometryEntry>)
        ensures
            match *self {
                ShaderSet::Simple(_, _) => r is None,
                ShaderSet::Geometry(_, g, _) => r == Some(&g),
            },
    {
        match *self {
            ShaderSet::Geometry(_, ref geometry, _) => Some(geometry),
            _ => None,
        }
    }

    /// The pixel entry of the set; every set has one.
    pub fn get_pixel_entry(&self) -> (r: Option<&PixelEntry>)
        ensures
            match *self {
                ShaderSet::Simple(_, p) => r == Some(&p),
                ShaderSet::Geometry(_, _, p) => r == Some(&p),
            },
    {
        match *self {
            ShaderSet::Simple(_, ref pixel) => Some(pixel),
            ShaderSet::Geometry(_, _, ref pixel) => Some(pixel),
        }
    }
}

} // verus!
