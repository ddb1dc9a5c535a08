//! What every pass knows of the screen: the camera and the sizes of viewport
//! and window, in two uniform buffers.

use vstd::prelude::*;
use crate::render::GpuContext;
use crate::render::binding::{
    bind_buffer_uniform, spec_bind_buffer, spec_group_of, spec_layout_of, BindGroupLayoutEntry, Binding,
    BindingEntry,
    BufferBindingType,
};
use crate::render::buffer::{spec_written, Buffer, BufferOverflow, BufferUsages, BufferWrite};
use super::{RendererViewport, SurfaceState};
use super::final_pass::spec_uniform_usage;

verus! {

/// The sizes that shaders know and the number of the frame. The aspect ratio
/// is the width of the viewport over its height.
#[derive(Debug, Clone, Copy, PartialEq, Eq, Structural)]
pub struct ViewUniform {
    pub renderer_viewport_width: u32,
    pub renderer_viewport_height: u32,
    pub window_width: u32,
    pub window_height: u32,
    pub frame_count: u32,
}

/// The number after `count`, which starts over behind the largest.
pub open spec fn spec_next_frame(count: u32) -> u32 {
    if count == u32::MAX {
        0
    } else {
        (count + 1) as u32
    }
}

impl ViewUniform {
    /// The uniform before the first frame.
    pub fn new() -> (uniform: Self)
        ensures
            uniform == (ViewUniform {
                renderer_viewport_width: 0,
                renderer_viewport_height: 0,
                window_width: 0,
                window_height: 0,
                frame_count: 0,
            }),
    {
        ViewUniform {
            renderer_viewport_width: 0,
            renderer_viewport_height: 0,
            window_width: 0,
            window_height: 0,
            frame_count: 0,
        }
    }

    /// Takes the sizes of viewport and surface for the next frame.
    pub fn update_from(&mut self, renderer_viewport: &RendererViewport, surface_state: &SurfaceState)
        requires
            renderer_viewport.wf(),
        ensures
            *final(self) == (ViewUniform {
                renderer_viewport_width: renderer_viewport.spec_width(),
                renderer_viewport_height: renderer_viewport.spec_height(),
                window_width: surface_state.width,
                window_height: surface_state.height,
                frame_count: spec_next_frame(old(self).frame_count),
            }),
    {
        self.renderer_viewport_width = renderer_viewport.get_width();
        self.renderer_viewport_height = renderer_viewport.get_height();
        self.window_width = surface_state.width;
        self.window_height = surface_state.height;
        self.frame_count = if self.frame_count == u32::MAX {
            0
        } else {
            self.frame_count + 1
        };
    }
}

/// The layout of the binding set of the two uniform buffers.
pub open spec fn spec_screen_layout() -> Seq<BindGroupLayoutEntry> {
    spec_layout_of(
        seq![
            spec_bind_buffer(0, BufferBindingType::Uniform),
            spec_bind_buffer(0, BufferBindingType::Uniform),
        ],
    )
}

/// The uniform buffers of camera and view and their binding set.
#[derive(Debug)]
pub struct ScreenBinding {
    view_uniform: ViewUniform,
    camera_buffer: Buffer,
    view_buffer: Buffer,
    binding: Binding,
}

impl ScreenBinding {
    pub closed spec fn spec_view_uniform(&self) -> ViewUniform {
        self.view_uniform
    }

    pub closed spec fn spec_camera_buffer(&self) -> Buffer {
        self.camera_buffer
    }

    pub closed spec fn spec_view_buffer(&self) -> Buffer {
        self.view_buffer
    }

    pub closed spec fn spec_binding(&self) -> Binding {
        self.binding
    }

    /// The binding set binds the two buffers as a whole, the camera first.
    pub open spec fn wf(&self) -> bool {
        &&& self.spec_binding().wf()
        &&& self.spec_binding().spec_bind_group_layout().entries@ == spec_screen_layout()
        &&& self.spec_binding().spec_bind_group().entries@ == spec_group_of(
            seq![
                spec_bind_buffer(self.spec_camera_buffer().spec_id(), BufferBindingType::Uniform),
                spec_bind_buffer(self.spec_view_buffer().spec_id(), BufferBindingType::Uniform),
            ],
        )
    }

    /// The buffers with the bytes of the two uniforms at startup.
    pub fn init(gpu: &mut GpuContext, camera_data: &[u8], view_data: &[u8]) -> (screen: Self)
        requires
            old(gpu).has_room(4),
        ensures
            screen.wf(),
            screen.spec_view_uniform() == (ViewUniform {
                renderer_viewport_width: 0,
                renderer_viewport_height: 0,
                window_width: 0,
                window_height: 0,
                frame_count: 0,
            }),
            screen.spec_camera_buffer().spec_id() == old(gpu).next_id(),
            screen.spec_camera_buffer().spec_label() == "camera_buffer"@,
            screen.spec_camera_buffer().spec_usage() == spec_uniform_usage(),
            screen.spec_camera_buffer().contents() == camera_data@,
            screen.spec_view_buffer().spec_id() == old(gpu).next_id() + 1,
            screen.spec_view_buffer().spec_label() == "view_buffer"@,
            screen.spec_view_buffer().spec_usage() == spec_uniform_usage(),
            screen.spec_view_buffer().contents() == view_data@,
            screen.spec_binding().spec_bind_group_layout().id == old(gpu).next_id() + 2,
            screen.spec_binding().spec_bind_group().id == old(gpu).next_id() + 3,
            final(gpu).next_id() == old(gpu).next_id() + 4,
            final(gpu).spec_float32_filterable() == old(gpu).spec_float32_filterable(),
    {
        let usage = BufferUsages {
            uniform: true,
            storage: false,
            copy_src: false,
            copy_dst: true,
            map_read: false,
            query_resolve: false,
        };
        let camera_buffer = Buffer::with_data(gpu, "camera_buffer", camera_data, usage);
        let view_buffer = Buffer::with_data(gpu, "view_buffer", view_data, usage);
        let entries: [BindingEntry; 2] = [
            bind_buffer_uniform(camera_buffer.id()),
            bind_buffer_uniform(view_buffer.id()),
        ];
        let binding = Binding::new(gpu, entries.as_slice());
        assert(binding.spec_bind_group_layout().entries@ =~= spec_screen_layout());
        assert(binding.spec_bind_group().entries@ =~= spec_group_of(
            seq![
                spec_bind_buffer(camera_buffer.spec_id(), BufferBindingType::Uniform),
                spec_bind_buffer(view_buffer.spec_id(), BufferBindingType::Uniform),
            ],
        ));
        ScreenBinding { view_uniform: ViewUniform::new(), camera_buffer, view_buffer, binding }
    }

    /// Takes the sizes of viewport and surface for the next frame and
    /// returns the view uniform to encode.
    pub fn update(&mut self, renderer_viewport: &RendererViewport, surface_state: &SurfaceState) -> (uniform:
        ViewUniform)
        requires
            old(self).wf(),
            renderer_viewport.wf(),
        ensures
            final(self).wf(),
            uniform == final(self).spec_view_uniform(),
            uniform == (ViewUniform {
                renderer_viewport_width: renderer_viewport.spec_width(),
                renderer_viewport_height: renderer_viewport.spec_height(),
                window_width: surface_state.width,
                window_height: surface_state.height,
                frame_count: spec_next_frame(old(self).spec_view_uniform().frame_count),
            }),
            final(self).spec_camera_buffer() == old(self).spec_camera_buffer(),
            final(self).spec_view_buffer() == old(self).spec_view_buffer(),
            final(self).spec_binding() == old(self).spec_binding(),
    {
        self.view_uniform.update_from(renderer_viewport, surface_state);
        self.view_uniform
    }

    /// Writes the bytes of the two uniforms over their buffers, each where
    /// it fits its buffer. The binding set stays.
    pub fn write(&mut self, camera_data: &[u8], view_data: &[u8]) -> (writes: (
        Result<BufferWrite, BufferOverflow>,
        Result<BufferWrite, BufferOverflow>,
    ))
        requires
            old(self).wf(),
        ensures
            final(self).wf(),
            final(self).spec_view_uniform() == old(self).spec_view_uniform(),
            final(self).spec_binding() == old(self).spec_binding(),
            final(self).spec_camera_buffer().spec_id() == old(self).spec_camera_buffer().spec_id(),
            final(self).spec_view_buffer().spec_id() == old(self).spec_view_buffer().spec_id(),
            writes.0 is Ok <==> camera_data@.len() <= old(self).spec_camera_buffer().spec_size(),
            writes.1 is Ok <==> view_data@.len() <= old(self).spec_view_buffer().spec_size(),
            final(self).spec_camera_buffer().contents() == (if writes.0 is Ok {
                spec_written(old(self).spec_camera_buffer().contents(), camera_data@, 0)
            } else {
                old(self).spec_camera_buffer().contents()
            }),
            final(self).spec_view_buffer().contents() == (if writes.1 is Ok {
                spec_written(old(self).spec_view_buffer().contents(), view_data@, 0)
            } else {
                old(self).spec_view_buffer().contents()
            }),
    {
        let camera = self.camera_buffer.try_write(camera_data, 0);
        let view = self.view_buffer.try_write(view_data, 0);
        (camera, view)
    }

    /// The binding set.
    pub fn binding(&self) -> (binding: &Binding)
        ensures
            *binding == self.spec_binding(),
    {
        &self.binding
    }

    /// The buffer of the camera.
    pub fn camera_buffer(&self) -> (buffer: &Buffer)
        ensures
            *buffer == self.spec_camera_buffer(),
    {
        &self.camera_buffer
    }

    /// The buffer of the view.
    pub fn view_buffer(&self) -> (buffer: &Buffer)
        ensures
            *buffer == self.spec_view_buffer(),
    {
        &self.view_buffer
    }
}

} // verus!
