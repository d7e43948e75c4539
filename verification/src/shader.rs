//! Wrapper for a single shader stage.
//!
//! A [`Shader`] owns one driver-side shader object of a given stage kind.
//! Creating it validates the handle the driver allocated and uploads the
//! source text; compiling, attaching to a program and deleting are driver
//! commands; compile status is judged from the driver's reported status
//! flag, with the driver's log as the error payload on failure.

use vstd::prelude::*;
use crate::command::{Cmd, GlCommand};
use crate::gl_types::ShaderType;
use crate::gl;

verus! {

/// Wrapper for one driver-side shader object of a fixed stage kind.
pub struct Shader {
    shader_type: ShaderType,
    shader_data: u32,
}

impl Shader {
    /// The stage kind of this shader.
    pub closed spec fn stage(self) -> ShaderType {
        self.shader_type
    }

    /// The driver-side handle this wrapper owns.
    pub closed spec fn handle(self) -> u32 {
        self.shader_data
    }

    /// Creates a shader stage around the handle the driver allocated for
    /// this stage kind, and uploads the source text to it. A zero handle is
    /// an allocation failure, attributed to the stage kind.
    pub fn new(shader_type: ShaderType, source_code: String, handle: u32) -> (r: Result<
        (Shader, GlCommand),
        String,
    >)
        ensures
            handle != 0 ==> (r matches Ok(p) && p.0.stage() == shader_type && p.0.handle()
                == handle && p.1@ == (Cmd::ShaderSource { shader: handle, source: source_code@ })),
            handle == 0 ==> (r matches Err(e) && e@ == "Could not create shader of type: "@
                + shader_type.spec_name()),
    {
        let shader_data = gl::create_shader(shader_type, handle)?;
        let cmd = gl::shader_source(shader_data, source_code);
        Ok((Shader { shader_type, shader_data }, cmd))
    }

    /// Compile this shader object.
    pub fn compile(&self) -> (cmd: GlCommand)
        ensures
            cmd@ == (Cmd::CompileShader { shader: self.handle() }),
    {
        GlCommand::CompileShader { shader: self.shader_data }
    }

    /// Judge the compile status the driver reported for this shader: any
    /// non-zero flag is success, zero is failure with the driver's log as
    /// the error payload.
    pub fn get_shader_iv(&self, success: i32, info_log: String) -> (r: Result<(), String>)
        ensures
            success != 0 ==> r is Ok,
            success == 0 ==> (r matches Err(e) && e@ == info_log@),
    {
        gl::get_shader_iv(success, info_log)
    }

    /// Attach this shader object to the given program object.
    pub fn attach(&self, shader_program: u32) -> (cmd: GlCommand)
        ensures
            cmd@ == (Cmd::AttachShader { program: shader_program, shader: self.handle() }),
    {
        GlCommand::AttachShader { program: shader_program, shader: self.shader_data }
    }

    /// Delete this shader object. Per the driver's contract a stage may be
    /// deleted once the owning program has been linked.
    pub fn delete(&self) -> (cmd: GlCommand)
        ensures
            cmd@ == (Cmd::DeleteShader { shader: self.handle() }),
    {
        GlCommand::DeleteShader { shader: self.shader_data }
    }
}

} // verus!
