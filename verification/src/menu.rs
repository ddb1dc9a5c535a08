//! The settings of the menu and the rectangle that its panels leave free.

use vstd::prelude::*;
use crate::events::MenuResizeEvent;
use crate::renderer::{spec_between_panels, spec_leaves_room, RendererViewport, UVec2};

verus! {

/// What the user has switched on.
#[derive(Debug, Clone, Copy, PartialEq, Eq, Structural)]
pub struct Settings {
    pub fullscreen: bool,
    pub accumulate: bool,
    pub spectral: bool,
}

impl Default for Settings {
    fn default() -> (settings: Self)
        ensures
            settings == (Settings { fullscreen: false, accumulate: true, spectral: true }),
    {
        Settings { fullscreen: false, accumulate: true, spectral: true }
    }
}

/// The kind of geometry that the object editor makes.
#[derive(Debug, Clone, Copy, PartialEq, Eq, Structural)]
pub enum GeometryType {
    Sphere,
    Aabb,
    Triangle,
}

impl Default for GeometryType {
    fn default() -> (kind: Self)
        ensures
            kind == GeometryType::Sphere,
    {
        GeometryType::Sphere
    }
}

/// Width that a panel takes of the window: nothing in fullscreen.
pub open spec fn spec_panel(settings: Settings, width: u32) -> u32 {
    if settings.fullscreen {
        0
    } else {
        width
    }
}

/// The menu: its settings and the shader error it shows.
#[derive(Debug)]
pub struct Menu {
    pub settings: Settings,
    pub shader_compile_error: Option<String>,
}

impl Menu {
    /// The menu at startup.
    pub fn init() -> (menu: Self)
        ensures
            menu.settings == (Settings { fullscreen: false, accumulate: true, spectral: true }),
            menu.shader_compile_error is None,
    {
        Menu {
            settings: Settings { fullscreen: false, accumulate: true, spectral: true },
            shader_compile_error: None,
        }
    }

    /// Switches between fullscreen and panels.
    pub fn toggle_fullscreen(&mut self)
        ensures
            final(self).settings == (Settings {
                fullscreen: !old(self).settings.fullscreen,
                ..old(self).settings
            }),
            final(self).shader_compile_error == old(self).shader_compile_error,
    {
        self.settings.fullscreen = !self.settings.fullscreen;
    }

    /// Takes the error of the shader compile that has ended, or takes the
    /// error away where it ended without one.
    pub fn show_shader_error(&mut self, error: Option<&String>)
        ensures
            final(self).settings == old(self).settings,
            match error {
                Some(text) => final(self).shader_compile_error matches Some(shown) && shown@
                    == text@,
                None => final(self).shader_compile_error is None,
            },
    {
        self.shader_compile_error = match error {
            Some(text) => Some(text.clone()),
            None => None,
        };
    }

    /// Takes the widths that the two panels were drawn with, in pixels, and
    /// sets the viewport to what they leave of the window; in fullscreen
    /// they take nothing. A resize is raised only if the viewport changed.
    pub fn update(
        &self,
        renderer_viewport: &mut RendererViewport,
        window: UVec2,
        left_panel_size: u32,
        right_panel_size: u32,
    ) -> (event: Option<MenuResizeEvent>)
        requires
            old(renderer_viewport).wf(),
        ensures
            final(renderer_viewport).wf(),
            *final(renderer_viewport) == (if spec_leaves_room(
                window,
                spec_panel(self.settings, left_panel_size),
                spec_panel(self.settings, right_panel_size),
            ) {
                spec_between_panels(
                    window,
                    spec_panel(self.settings, left_panel_size),
                    spec_panel(self.settings, right_panel_size),
                )
            } else {
                *old(renderer_viewport)
            }),
            event is Some <==> *final(renderer_viewport) != *old(renderer_viewport),
    {
        let left: u32 = if self.settings.fullscreen {
            0
        } else {
            left_panel_size
        };
        let right: u32 = if self.settings.fullscreen {
            0
        } else {
            right_panel_size
        };
        if renderer_viewport.update(window, left, right) {
            Some(MenuResizeEvent)
        } else {
            None
        }
    }
}

} // verus!
