//! The plain enumerations of the wrapper layer: buffer targets, shader
//! stage kinds, and which object a driver log belongs to.
//!
//! Driver-side enumeration values are carried as their raw `u32` codes so
//! that the logic over them can be verified; the unverified shell wraps a
//! code back into the driver library's newtype when it issues the call.

use vstd::prelude::*;

verus! {

/// The types of buffer object that you can have.
#[derive(Clone, Copy, PartialEq, Eq, Structural, Debug)]
pub enum BufferType {
    /// Array Buffers holds arrays of vertex data for drawing.
    Array,
    /// Element Array Buffers hold indexes of what vertexes to use for drawing.
    ElementArray,
}

impl BufferType {
    /// The driver-side code of this buffer target.
    pub fn to_glenum(&self) -> (code: u32)
        ensures
            code == self.glenum(),
    {
        match self {
            BufferType::Array => 0x8892,
            BufferType::ElementArray => 0x8893,
        }
    }

    /// The driver-side code of this buffer target, for contracts.
    pub open spec fn glenum(self) -> u32 {
        match self {
            BufferType::Array => 0x8892,
            BufferType::ElementArray => 0x8893,
        }
    }
}

/// The kinds of shader stage a program is assembled from.
#[derive(Clone, Copy, PartialEq, Eq, Structural, Debug)]
pub enum ShaderType {
    Vertex,
    Fragment,
}

impl ShaderType {
    /// The driver-side code of this stage kind.
    pub fn to_glenum(&self) -> (code: u32)
        ensures
            code == self.glenum(),
    {
        match self {
            ShaderType::Vertex => 0x8B31,
            ShaderType::Fragment => 0x8B30,
        }
    }

    /// The driver-side code of this stage kind, for contracts.
    pub open spec fn glenum(self) -> u32 {
        match self {
            ShaderType::Vertex => 0x8B31,
            ShaderType::Fragment => 0x8B30,
        }
    }

    /// The display name of this stage kind.
    pub fn name(&self) -> (s: String)
        ensures
            s@ == self.spec_name(),
    {
        match self {
            ShaderType::Vertex => "Vertex".to_owned(),
            ShaderType::Fragment => "Fragment".to_owned(),
        }
    }

    /// The display name of this stage kind, for contracts.
    pub open spec fn spec_name(self) -> Seq<char> {
        match self {
            ShaderType::Vertex => "Vertex"@,
            ShaderType::Fragment => "Fragment"@,
        }
    }
}

/// Which driver object an information log is fetched from.
#[derive(Clone, Copy, PartialEq, Eq, Structural, Debug)]
pub enum LogType {
    Shader,
    Program,
}

} // verus!
