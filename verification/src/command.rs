//! Driver commands.
//!
//! Every state-changing call the renderer makes against the graphics driver
//! is described first as a value of [`GlCommand`]. The verified layer decides
//! which commands are issued and with what arguments; the unverified shell
//! forwards each command to the driver unchanged. [`Cmd`] is the
//! mathematical image of a command that contracts and the driver-state model
//! speak about.

use vstd::prelude::*;
use crate::gl_types::BufferType;

verus! {

/// The mathematical image of a driver command.
#[verifier::ext_equal]
pub ghost enum Cmd {
    /// Make `handle` the current vertex array object (0 clears the binding).
    BindVertexArray { handle: u32 },
    /// Bind `handle` at the buffer target `target` (0 clears the target).
    BindBuffer { target: BufferType, handle: u32 },
    /// Upload `data` to the buffer bound at `target`, with the usage hint's code.
    BufferData { target: BufferType, data: Seq<u8>, usage: u32 },
    /// Describe one vertex attribute's layout.
    VertexAttribPointer { index: u32, size: i32, data_type: u32, normalized: bool, stride: i32 },
    /// Enable the vertex attribute at `index`.
    EnableVertexAttribArray { index: u32 },
    /// Upload `source` as the text of shader object `shader`.
    ShaderSource { shader: u32, source: Seq<char> },
    /// Compile shader object `shader`.
    CompileShader { shader: u32 },
    /// Attach shader object `shader` to program object `program`.
    AttachShader { program: u32, shader: u32 },
    /// Link program object `program`.
    LinkProgram { program: u32 },
    /// Delete shader object `shader`.
    DeleteShader { shader: u32 },
    /// Make `program` the active program.
    UseProgram { program: u32 },
    /// Clear the color buffer.
    Clear,
    /// Draw `count` vertices as triangles, starting at vertex `first`.
    DrawArrays { first: i32, count: i32 },
}

/// One driver command, as the verified layer hands it to the shell.
#[derive(Clone, PartialEq, Debug)]
pub enum GlCommand {
    BindVertexArray { handle: u32 },
    BindBuffer { target: BufferType, handle: u32 },
    BufferData { target: BufferType, data: Vec<u8>, usage: u32 },
    VertexAttribPointer { index: u32, size: i32, data_type: u32, normalized: bool, stride: i32 },
    EnableVertexAttribArray { index: u32 },
    ShaderSource { shader: u32, source: String },
    CompileShader { shader: u32 },
    AttachShader { program: u32, shader: u32 },
    LinkProgram { program: u32 },
    DeleteShader { shader: u32 },
    UseProgram { program: u32 },
    Clear,
    DrawArrays { first: i32, count: i32 },
}

impl View for GlCommand {
    type V = Cmd;

    open spec fn view(&self) -> Cmd {
        match self {
            GlCommand::BindVertexArray { handle } => Cmd::BindVertexArray { handle: *handle },
            GlCommand::BindBuffer { target, handle } => Cmd::BindBuffer {
                target: *target,
                handle: *handle,
            },
            GlCommand::BufferData { target, data, usage } => Cmd::BufferData {
                target: *target,
                data: data@,
                usage: *usage,
            },
            GlCommand::VertexAttribPointer { index, size, data_type, normalized, stride } => Cmd::VertexAttribPointer {
                index: *index,
                size: *size,
                data_type: *data_type,
                normalized: *normalized,
                stride: *stride,
            },
            GlCommand::EnableVertexAttribArray { index } => Cmd::EnableVertexAttribArray {
                index: *index,
            },
            GlCommand::ShaderSource { shader, source } => Cmd::ShaderSource {
                shader: *shader,
                source: source@,
            },
            GlCommand::CompileShader { shader } => Cmd::CompileShader { shader: *shader },
            GlCommand::AttachShader { program, shader } => Cmd::AttachShader {
                program: *program,
                shader: *shader,
            },
            GlCommand::LinkProgram { program } => Cmd::LinkProgram { program: *program },
            GlCommand::DeleteShader { shader } => Cmd::DeleteShader { shader: *shader },
            GlCommand::UseProgram { program } => Cmd::UseProgram { program: *program },
            GlCommand::Clear => Cmd::Clear,
            GlCommand::DrawArrays { first, count } => Cmd::DrawArrays {
                first: *first,
                count: *count,
            },
        }
    }
}

} // verus!
