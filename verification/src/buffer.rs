//! Wrappers for a vertex buffer object and a vertex array object.
//!
//! Either wrapper owns one driver-side handle, obtained from the driver by
//! the shell and validated here: a zero handle is the driver's sentinel for
//! an allocation failure and is surfaced as an error. A [`Buffer`] also
//! records the target it was last bound at; uploading data or clearing the
//! binding before any target was recorded is a usage error.

use vstd::prelude::*;
use vstd::slice::slice_to_vec;
use crate::command::{Cmd, GlCommand};
use crate::gl_types::BufferType;

verus! {

/// Basic wrapper for a vertex array object.
pub struct VertexArray {
    val: u32,
}

impl VertexArray {
    /// The driver-side handle this wrapper owns.
    pub closed spec fn handle(self) -> u32 {
        self.val
    }

    /// Creates a new vertex array object around the handle the driver
    /// allocated; a zero handle is an allocation failure.
    pub fn new(handle: u32) -> (r: Result<VertexArray, String>)
        ensures
            handle != 0 ==> (r matches Ok(v) && v.handle() == handle),
            handle == 0 ==> (r matches Err(e) && e@ == "Could not create vertex array"@),
    {
        if handle != 0 {
            Ok(VertexArray { val: handle })
        } else {
            Err("Could not create vertex array".to_owned())
        }
    }

    /// Bind this vertex array as the current vertex array object.
    pub fn bind(&self) -> (cmd: GlCommand)
        ensures
            cmd@ == (Cmd::BindVertexArray { handle: self.handle() }),
    {
        GlCommand::BindVertexArray { handle: self.val }
    }

    /// Clear the current vertex array object binding.
    pub fn clear_binding(&self) -> (cmd: GlCommand)
        ensures
            cmd@ == (Cmd::BindVertexArray { handle: 0u32 }),
    {
        GlCommand::BindVertexArray { handle: 0 }
    }
}

/// Basic wrapper for a vertex buffer object.
pub struct Buffer {
    val: u32,
    buffer_type: Option<BufferType>,
}

impl Buffer {
    /// The driver-side handle this wrapper owns.
    pub closed spec fn handle(self) -> u32 {
        self.val
    }

    /// The target this buffer was last bound at, if any.
    pub closed spec fn bound_target(self) -> Option<BufferType> {
        self.buffer_type
    }

    /// Creates a new buffer object around the handle the driver allocated;
    /// a zero handle is an allocation failure. No target is recorded yet.
    pub fn new(handle: u32) -> (r: Result<Buffer, String>)
        ensures
            handle != 0 ==> (r matches Ok(b) && b.handle() == handle && b.bound_target() is None),
            handle == 0 ==> (r matches Err(e) && e@ == "Could not create buffer object"@),
    {
        if handle != 0 {
            Ok(Buffer { val: handle, buffer_type: None })
        } else {
            Err("Could not create buffer object".to_owned())
        }
    }

    /// Bind this buffer at the given target, and record that target on the
    /// wrapper: later uploads and binding clears go through it.
    pub fn bind(&mut self, b_type: BufferType) -> (cmd: GlCommand)
        ensures
            final(self).handle() == old(self).handle(),
            final(self).bound_target() == Some(b_type),
            cmd@ == (Cmd::BindBuffer { target: b_type, handle: old(self).handle() }),
    {
        self.buffer_type = Some(b_type);
        GlCommand::BindBuffer { target: b_type, handle: self.val }
    }

    /// Clear the binding at this buffer's recorded target. Fails if no
    /// target was ever recorded by a bind call.
    pub fn clear_binding(&self) -> (r: Result<GlCommand, String>)
        ensures
            self.bound_target() matches Some(t) ==> (r matches Ok(cmd) && cmd@ == (
                Cmd::BindBuffer { target: t, handle: 0u32 }
            )),
            self.bound_target() is None ==> (r matches Err(e) && e@
                == "Could not clear buffer binding, buffer type not found"@),
    {
        match self.buffer_type {
            Some(b_type) => Ok(GlCommand::BindBuffer { target: b_type, handle: 0 }),
            None => Err("Could not clear buffer binding, buffer type not found".to_owned()),
        }
    }

    /// Upload `data` at this buffer's recorded target, with the given usage
    /// hint. Fails if no target was ever recorded by a bind call.
    pub fn buffer_data(&self, data: &[u8], usage: u32) -> (r: Result<GlCommand, String>)
        ensures
            self.bound_target() matches Some(t) ==> (r matches Ok(cmd) && cmd@ == (
                Cmd::BufferData { target: t, data: data@, usage }
            )),
            self.bound_target() is None ==> (r matches Err(e) && e@
                == "Could not set buffer data, buffer type not found"@),
    {
        match self.buffer_type {
            Some(b_type) => Ok(
                GlCommand::BufferData { target: b_type, data: slice_to_vec(data), usage },
            ),
            None => Err("Could not set buffer data, buffer type not found".to_owned()),
        }
    }
}

} // verus!
