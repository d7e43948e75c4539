//! A verified core for a small OpenGL triangle renderer.
//!
//! The library holds the decision logic of the renderer: handle-allocation
//! checks, the buffer bound-target guard, shader status and log handling,
//! shader-source templating, and the application loop's state machine.
//! Driver and windowing calls themselves are issued by an unverified shell
//! that interprets the commands this library produces.

pub mod buffer;
pub mod command;
pub mod gl;
pub mod gl_types;
pub mod log;
pub mod model;
pub mod run;
pub mod template;
pub mod window;
pub mod shader;
