//! The decision half of the context handle's call surface.
//!
//! Each function here is the part of one driver call that the renderer
//! itself decides: validating a freshly allocated handle, judging a status
//! flag, or assembling the exact command the shell must forward to the
//! driver. The shell issues the calls and hands the driver's answers back
//! in as plain values.

use vstd::prelude::*;
use vstd::string::StringExecFns;
use crate::command::{Cmd, GlCommand};
use crate::gl_types::ShaderType;

verus! {

/// Validate the handle the driver allocated for a program object; the zero
/// sentinel is an allocation failure.
pub fn create_program(handle: u32) -> (r: Result<u32, String>)
    ensures
        handle != 0 ==> r == Ok::<u32, String>(handle),
        handle == 0 ==> (r matches Err(e) && e@ == "Could not create program"@),
{
    if handle != 0 {
        Ok(handle)
    } else {
        Err("Could not create program".to_owned())
    }
}

/// Validate the handle the driver allocated for a shader object of the
/// given stage kind; the zero sentinel is an allocation failure, attributed
/// to the stage kind.
pub fn create_shader(shader_type: ShaderType, handle: u32) -> (r: Result<u32, String>)
    ensures
        handle != 0 ==> r == Ok::<u32, String>(handle),
        handle == 0 ==> (r matches Err(e) && e@ == "Could not create shader of type: "@
            + shader_type.spec_name()),
{
    if handle == 0 {
        let name = shader_type.name();
        Err(String::from_str("Could not create shader of type: ").concat(name.as_str()))
    } else {
        Ok(handle)
    }
}

/// Upload one source text to a shader object.
pub fn shader_source(shader_data: u32, source_code: String) -> (cmd: GlCommand)
    ensures
        cmd@ == (Cmd::ShaderSource { shader: shader_data, source: source_code@ }),
{
    GlCommand::ShaderSource { shader: shader_data, source: source_code }
}

/// Judge the link status the driver reported for a program: any non-zero
/// flag is success, zero is failure with the driver's log as the error
/// payload.
pub fn get_program_iv(success: i32, info_log: String) -> (r: Result<(), String>)
    ensures
        success != 0 ==> r is Ok,
        success == 0 ==> (r matches Err(e) && e@ == info_log@),
{
    if success == 0 {
        Err(info_log)
    } else {
        Ok(())
    }
}

/// Judge the compile status the driver reported for a shader: any non-zero
/// flag is success, zero is failure with the driver's log as the error
/// payload.
pub fn get_shader_iv(success: i32, info_log: String) -> (r: Result<(), String>)
    ensures
        success != 0 ==> r is Ok,
        success == 0 ==> (r matches Err(e) && e@ == info_log@),
{
    if success == 0 {
        Err(info_log)
    } else {
        Ok(())
    }
}

/// Describe one vertex attribute's layout. The stride must fit the
/// driver's signed 32-bit argument.
pub fn vertex_attrib_pointer(
    index: u32,
    size: i32,
    data_type: u32,
    normalized: bool,
    stride: usize,
) -> (cmd: GlCommand)
    requires
        stride <= i32::MAX,
    ensures
        cmd@ == (Cmd::VertexAttribPointer {
            index,
            size,
            data_type,
            normalized,
            stride: stride as i32,
        }),
{
    GlCommand::VertexAttribPointer { index, size, data_type, normalized, stride: stride as i32 }
}

/// Enable the vertex attribute at `index`.
pub fn enable_vertex_attrib_array(index: u32) -> (cmd: GlCommand)
    ensures
        cmd@ == (Cmd::EnableVertexAttribArray { index }),
{
    GlCommand::EnableVertexAttribArray { index }
}

/// Link a program object.
pub fn link_program(shader_program: u32) -> (cmd: GlCommand)
    ensures
        cmd@ == (Cmd::LinkProgram { program: shader_program }),
{
    GlCommand::LinkProgram { program: shader_program }
}

/// Make a program the active one.
pub fn use_program(shader_program: u32) -> (cmd: GlCommand)
    ensures
        cmd@ == (Cmd::UseProgram { program: shader_program }),
{
    GlCommand::UseProgram { program: shader_program }
}

/// Clear the color buffer.
pub fn clear() -> (cmd: GlCommand)
    ensures
        cmd@ == Cmd::Clear,
{
    GlCommand::Clear
}

/// Draw `count` vertices as triangles starting at vertex `index`. The
/// start index must fit the driver's signed 32-bit argument.
pub fn draw_arrays(index: usize, count: i32) -> (cmd: GlCommand)
    requires
        index <= i32::MAX,
    ensures
        cmd@ == (Cmd::DrawArrays { first: index as i32, count }),
{
    GlCommand::DrawArrays { first: index as i32, count }
}

} // verus!
