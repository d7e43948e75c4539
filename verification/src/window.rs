//! The window and context request, as plain data.
//!
//! Opening the platform window and its rendering context is the shell's
//! work; what the renderer asks for — title, size, a core-profile context
//! of a fixed major version, and the fixed window attributes — is decided
//! and stated here.

use vstd::prelude::*;

verus! {

/// The presentation pacing the renderer may ask for.
#[derive(Clone, Copy, PartialEq, Eq, Structural, Debug)]
pub enum SwapInterval {
    /// Present immediately, untied to the display refresh.
    Immediate,
    /// Tie presentation to the display refresh.
    Vsync,
}

/// Everything the shell needs to open the window and context.
pub struct WindowConfig {
    /// The window title.
    pub title: String,
    /// The window width in pixels.
    pub width: i32,
    /// The window height in pixels.
    pub height: i32,
    /// The rendering context's major version.
    pub gl_major_version: i32,
    /// Whether a core-profile context is requested.
    pub core_profile: bool,
    /// Whether a high-DPI window is allowed.
    pub allow_high_dpi: bool,
    /// Whether the window is borderless.
    pub borderless: bool,
    /// Whether the window is resizable.
    pub resizable: bool,
}

impl WindowConfig {
    /// The request for this renderer's window: the given title and size,
    /// a core-profile context of major version 3, high DPI allowed, with a
    /// border, not resizable.
    pub fn new(window_title: &str, window_width: i32, window_height: i32) -> (c: WindowConfig)
        ensures
            c.title@ == window_title@,
            c.width == window_width,
            c.height == window_height,
            c.gl_major_version == 3,
            c.core_profile,
            c.allow_high_dpi,
            !c.borderless,
            !c.resizable,
    {
        WindowConfig {
            title: window_title.to_owned(),
            width: window_width,
            height: window_height,
            gl_major_version: 3,
            core_profile: true,
            allow_high_dpi: true,
            borderless: false,
            resizable: false,
        }
    }
}

} // verus!
