//! The events that invalidate resources.

use vstd::prelude::*;

verus! {

/// The panels of the menu changed the rectangle that is left for rendering.
#[derive(Debug, Clone, Copy, PartialEq, Eq, Structural)]
pub struct MenuResizeEvent;

/// The window changed its size.
#[derive(Debug, Clone, Copy, PartialEq, Eq, Structural)]
pub struct WindowResizeEvent;

/// The shaders are to be read and compiled again.
#[derive(Debug, Clone, Copy, PartialEq, Eq, Structural)]
pub struct ShaderRecompileEvent;

} // verus!
