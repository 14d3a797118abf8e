//! The compute pipeline manager.
//!
//! Owns the compiled compute program, the output texture sized to the
//! presentation surface, and the per-frame parameter record mirrored by a
//! GPU-resident uniform buffer. The caller reads the clock and injects it as
//! a millisecond value, so frames are reproducible under a fixed clock.
//!
//! The manager is built for a single logical thread of control: calls to
//! `run` and `resize` must be serialized by the caller.

use crate::gpu;
use crate::grid;
use crate::params::{frame_time, refreshed, ComputeParametersUniform};
use vstd::prelude::*;

verus! {

/// The manager. `width` and `height` always report the dimensions the output
/// texture was allocated with; `parameters_uniform` always mirrors the last
/// value written towards the parameter buffer.
pub struct Compute {
    pub pipeline: wgpu::ComputePipeline,
    pub texture: wgpu::Texture,
    pub width: u32,
    pub height: u32,
    pub parameters_uniform: ComputeParametersUniform,
    pub parameter_buffer: wgpu::Buffer,
}

/// The construction and resize precondition: a surface must be at least one
/// pixel in each dimension. Zero-sized surfaces are a caller error; callers
/// that cannot rule them out check here first and fail loudly.
pub fn valid_surface_dims(width: u32, height: u32) -> (ok: bool)
    ensures
        ok == (1 <= width && 1 <= height),
{
    width >= 1 && height >= 1
}

/// A surface configuration with a zero width or height is exactly what the
/// construction and resize preconditions forbid, and exactly what
/// `valid_surface_dims` rejects: a caller is contractually unable to build or
/// resize a manager to a zero-sized output.
pub proof fn lemma_zero_dims_are_caller_error(width: u32, height: u32)
    ensures
        (width == 0 || height == 0) <==> !(1 <= width && 1 <= height),
{
}

impl Compute {
    /// The manager's invariant: the reported output dimensions are those of a
    /// surface at least one pixel in each dimension.
    pub open spec fn wf(&self) -> bool {
        1 <= self.width && 1 <= self.height
    }

    /// Build the manager: compile the compute program, declare its binding
    /// layout, allocate the output texture at `width` by `height`, and record
    /// the injected clock reading in a freshly allocated parameter buffer.
    ///
    /// A compile or allocation failure is fatal inside the GPU resource
    /// context; no partial manager is ever returned. A zero width or height
    /// is a caller error, excluded by the precondition; callers that cannot
    /// rule it out check `valid_surface_dims` first.
    pub fn new(device: &wgpu::Device, width: u32, height: u32, now_ms: u64) -> (compute: Compute)
        requires
            1 <= width,
            1 <= height,
        ensures
            compute.wf(),
            compute.width == width,
            compute.height == height,
            compute.parameters_uniform.time == frame_time(now_ms),
    {
        let compute_module = gpu::create_shader_module(device, gpu::compute_shader_source());
        let bind_group_layout = gpu::create_bind_group_layout(device);
        let pipeline_layout = gpu::create_pipeline_layout(device, &bind_group_layout);
        let pipeline = gpu::create_compute_pipeline(device, &pipeline_layout, &compute_module);

        let texture = gpu::create_output_texture(device, width, height, None);

        let parameters_uniform = ComputeParametersUniform::from_millis(now_ms);
        let parameter_buffer = gpu::create_parameter_buffer(device, &parameters_uniform);

        Compute { pipeline, texture, width, height, parameters_uniform, parameter_buffer }
    }

    /// Replace the output texture with a newly allocated one of the new
    /// dimensions; the old one is released with its last handle. The program,
    /// the parameter record and the parameter buffer are untouched.
    ///
    /// Zero dimensions are a caller error, excluded by the precondition;
    /// callers that cannot rule them out check `valid_surface_dims` first.
    pub fn resize(&mut self, device: &wgpu::Device, new_width: u32, new_height: u32)
        requires
            1 <= new_width,
            1 <= new_height,
        ensures
            final(self).wf(),
            final(self).width == new_width,
            final(self).height == new_height,
            final(self).texture != old(self).texture,
            final(self).pipeline == old(self).pipeline,
            final(self).parameters_uniform == old(self).parameters_uniform,
            final(self).parameter_buffer == old(self).parameter_buffer,
    {
        self.width = new_width;
        self.height = new_height;
        let fresh = gpu::create_output_texture(device, new_width, new_height, Some(&self.texture));
        self.texture = fresh;
    }

    /// One frame: bind `input_view` beside a fresh view onto the output
    /// texture and the parameter buffer, refresh the parameter record from
    /// the injected clock reading and enqueue its upload, then dispatch one
    /// workgroup grid covering the output and submit once. The upload is
    /// enqueued before the submission, so the dispatch reads this frame's
    /// value, never a stale one.
    ///
    /// `input_view` is borrowed for the duration of the call only. The
    /// returned view is written once the queue has drained the submitted
    /// work.
    pub fn run(
        &mut self,
        input_view: &wgpu::TextureView,
        device: &wgpu::Device,
        queue: &wgpu::Queue,
        now_ms: u64,
    ) -> (output_view: wgpu::TextureView)
        requires
            old(self).wf(),
        ensures
            final(self).wf(),
            final(self).parameters_uniform == refreshed(old(self).parameters_uniform, now_ms),
            final(self).parameters_uniform.time == frame_time(now_ms),
            final(self).width == old(self).width,
            final(self).height == old(self).height,
            final(self).pipeline == old(self).pipeline,
            final(self).texture == old(self).texture,
            final(self).parameter_buffer == old(self).parameter_buffer,
    {
        let output_view = gpu::create_output_view(&self.texture);

        let bind_group = gpu::create_bind_group(
            device,
            &self.pipeline,
            input_view,
            &output_view,
            &self.parameter_buffer,
        );

        self.parameters_uniform.refresh(now_ms);
        gpu::write_parameter_buffer(queue, &self.parameter_buffer, &self.parameters_uniform);

        let groups_x = grid::dispatch_group_count(self.width);
        let groups_y = grid::dispatch_group_count(self.height);
        gpu::encode_and_submit_dispatch(device, queue, &self.pipeline, &bind_group, groups_x, groups_y);

        output_view
    }
}

} // verus!
