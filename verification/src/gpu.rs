//! The boundary to the GPU resource context.
//!
//! The manager's logic is verified; the calls that allocate GPU resources and
//! submit command buffers go through the trusted wrappers below. Each wrapper
//! holds exactly the call the manager needs, with the descriptor the manager's
//! protocol prescribes, and its doc comment names the `wgpu` item relied on.

use crate::params::ComputeParametersUniform;
use vstd::prelude::*;
use wgpu::util::DeviceExt;

verus! {

#[verifier::external_type_specification]
#[verifier::external_body]
pub struct ExDevice(wgpu::Device);

#[verifier::external_type_specification]
#[verifier::external_body]
pub struct ExQueue(wgpu::Queue);

#[verifier::external_type_specification]
#[verifier::external_body]
pub struct ExShaderModule(wgpu::ShaderModule);

#[verifier::external_type_specification]
#[verifier::external_body]
pub struct ExBindGroupLayout(wgpu::BindGroupLayout);

#[verifier::external_type_specification]
#[verifier::external_body]
pub struct ExPipelineLayout(wgpu::PipelineLayout);

#[verifier::external_type_specification]
#[verifier::external_body]
pub struct ExComputePipeline(wgpu::ComputePipeline);

#[verifier::external_type_specification]
#[verifier::external_body]
pub struct ExTexture(wgpu::Texture);

#[verifier::external_type_specification]
#[verifier::external_body]
pub struct ExTextureView(wgpu::TextureView);

#[verifier::external_type_specification]
#[verifier::external_body]
pub struct ExBuffer(wgpu::Buffer);

#[verifier::external_type_specification]
#[verifier::external_body]
pub struct ExBindGroup(wgpu::BindGroup);

/// The compute program, in WGSL. Entry point `main`; one thread per output
/// pixel, bounds-checked against the output dimensions at the tile edges;
/// bindings as `create_bind_group_layout` declares them.
pub(crate) fn compute_shader_source() -> &'static str {
    "@group(0) @binding(0) var input_texture: texture_2d<f32>;\n\
     @group(0) @binding(1) var output_texture: texture_storage_2d<rgba8unorm, write>;\n\
     struct Parameters { time: u32 }\n\
     @group(0) @binding(2) var<uniform> parameters: Parameters;\n\
     @compute @workgroup_size(16, 16, 1)\n\
     fn main(@builtin(global_invocation_id) id: vec3<u32>) {\n\
         let dims = textureDimensions(output_texture);\n\
         if (id.x >= dims.x || id.y >= dims.y) { return; }\n\
         let color = textureLoad(input_texture, vec2<i32>(id.xy), 0);\n\
         textureStore(output_texture, vec2<i32>(id.xy), color);\n\
     }\n"
}

/// Relies on `wgpu::Device::create_shader_module`: compiles the given WGSL
/// source into a GPU-resident program.
#[verifier::external_body]
pub(crate) fn create_shader_module(device: &wgpu::Device, source: &str) -> wgpu::ShaderModule {
    device.create_shader_module(wgpu::ShaderModuleDescriptor {
        label: Some("compute shader"),
        source: wgpu::ShaderSource::Wgsl(source.into()),
    })
}

/// Relies on `wgpu::Device::create_bind_group_layout`: declares the program's
/// three binding slots, all visible to the compute stage alone — a sampled,
/// filterable 2D color image; a write-only RGBA8-unorm storage image; and a
/// uniform buffer.
#[verifier::external_body]
pub(crate) fn create_bind_group_layout(device: &wgpu::Device) -> wgpu::BindGroupLayout {
    device.create_bind_group_layout(&wgpu::BindGroupLayoutDescriptor {
        label: Some("compute bind group layout"),
        entries: &[
            wgpu::BindGroupLayoutEntry { binding: 0, visibility: wgpu::ShaderStages::COMPUTE, count: None,
                ty: wgpu::BindingType::Texture { sample_type: wgpu::TextureSampleType::Float { filterable: true }, view_dimension: wgpu::TextureViewDimension::D2, multisampled: false } },
            wgpu::BindGroupLayoutEntry { binding: 1, visibility: wgpu::ShaderStages::COMPUTE, count: None,
                ty: wgpu::BindingType::StorageTexture { view_dimension: wgpu::TextureViewDimension::D2, format: wgpu::TextureFormat::Rgba8Unorm, access: wgpu::StorageTextureAccess::WriteOnly } },
            wgpu::BindGroupLayoutEntry { binding: 2, visibility: wgpu::ShaderStages::COMPUTE, count: None,
                ty: wgpu::BindingType::Buffer { ty: wgpu::BufferBindingType::Uniform, has_dynamic_offset: false, min_binding_size: None } },
        ],
    })
}

/// Relies on `wgpu::Device::create_pipeline_layout`: a pipeline layout with
/// the given bind group layout as its single group.
#[verifier::external_body]
pub(crate) fn create_pipeline_layout(
    device: &wgpu::Device,
    layout: &wgpu::BindGroupLayout,
) -> wgpu::PipelineLayout {
    device.create_pipeline_layout(&wgpu::PipelineLayoutDescriptor {
        label: Some("compute pipeline layout"),
        bind_group_layouts: &[layout],
        push_constant_ranges: &[],
    })
}

/// Relies on `wgpu::Device::create_compute_pipeline`: compiles the pipeline
/// from the given module at entry point `main` under the given layout.
#[verifier::external_body]
pub(crate) fn create_compute_pipeline(
    device: &wgpu::Device,
    layout: &wgpu::PipelineLayout,
    module: &wgpu::ShaderModule,
) -> wgpu::ComputePipeline {
    device.create_compute_pipeline(&wgpu::ComputePipelineDescriptor {
        label: Some("compute pipeline"),
        layout: Some(layout),
        module,
        entry_point: "main",
        compilation_options: wgpu::PipelineCompilationOptions::default(),
    })
}

/// Relies on `wgpu::Device::create_texture`: allocates a 2D RGBA8-unorm image
/// of exactly `width` by `height` texels, usable as sampling source, render
/// attachment and storage target. Zero dimensions fail GPU validation, so the
/// precondition excludes them. Every call allocates a new resource with a
/// fresh handle identity, so the result differs from any texture handed in as
/// `replaced`; the old image is released with its last handle.
#[verifier::external_body]
pub(crate) fn create_output_texture(
    device: &wgpu::Device,
    width: u32,
    height: u32,
    replaced: Option<&wgpu::Texture>,
) -> (texture: wgpu::Texture)
    requires
        1 <= width,
        1 <= height,
    ensures
        replaced matches Some(prev) ==> texture != *prev,
{
    let _ = replaced;
    device.create_texture(&wgpu::TextureDescriptor {
        size: wgpu::Extent3d { width, height, depth_or_array_layers: 1 },
        mip_level_count: 1,
        sample_count: 1,
        dimension: wgpu::TextureDimension::D2,
        format: wgpu::TextureFormat::Rgba8Unorm,
        usage: wgpu::TextureUsages::TEXTURE_BINDING | wgpu::TextureUsages::RENDER_ATTACHMENT | wgpu::TextureUsages::STORAGE_BINDING,
        label: Some("postrender texture"),
        view_formats: &[],
    })
}

/// Relies on `wgpu::util::DeviceExt::create_buffer_init`: allocates a buffer
/// flagged uniform and copy-destination, initialized with the bytes of the
/// parameter record's 32-bit time field.
#[verifier::external_body]
pub(crate) fn create_parameter_buffer(
    device: &wgpu::Device,
    params: &ComputeParametersUniform,
) -> wgpu::Buffer {
    device.create_buffer_init(&wgpu::util::BufferInitDescriptor {
        label: Some("compute parameter buffer"),
        contents: bytemuck::cast_slice(&[params.time]),
        usage: wgpu::BufferUsages::UNIFORM | wgpu::BufferUsages::COPY_DST,
    })
}

/// Relies on `wgpu::Texture::create_view`: a full view onto the texture.
#[verifier::external_body]
pub(crate) fn create_output_view(texture: &wgpu::Texture) -> wgpu::TextureView {
    texture.create_view(&wgpu::TextureViewDescriptor::default())
}

/// Relies on `wgpu::Device::create_bind_group` and
/// `wgpu::ComputePipeline::get_bind_group_layout`: instantiates the program's
/// binding shape with the given input view, output view and parameter buffer.
#[verifier::external_body]
pub(crate) fn create_bind_group(
    device: &wgpu::Device,
    pipeline: &wgpu::ComputePipeline,
    input_view: &wgpu::TextureView,
    output_view: &wgpu::TextureView,
    parameter_buffer: &wgpu::Buffer,
) -> wgpu::BindGroup {
    device.create_bind_group(&wgpu::BindGroupDescriptor {
        label: Some("compute bind group"),
        layout: &pipeline.get_bind_group_layout(0),
        entries: &[
            wgpu::BindGroupEntry { binding: 0, resource: wgpu::BindingResource::TextureView(input_view) },
            wgpu::BindGroupEntry { binding: 1, resource: wgpu::BindingResource::TextureView(output_view) },
            wgpu::BindGroupEntry { binding: 2, resource: parameter_buffer.as_entire_binding() },
        ],
    })
}

/// Relies on `wgpu::Queue::write_buffer`: enqueues a write of the parameter
/// record's bytes at offset zero of the buffer, ordered before any work
/// submitted to the queue afterwards.
#[verifier::external_body]
pub(crate) fn write_parameter_buffer(
    queue: &wgpu::Queue,
    buffer: &wgpu::Buffer,
    params: &ComputeParametersUniform,
) {
    queue.write_buffer(buffer, 0, bytemuck::cast_slice(&[params.time]));
}

/// Relies on `wgpu::Device::create_command_encoder`,
/// `wgpu::CommandEncoder::begin_compute_pass`, `wgpu::ComputePass`'s
/// `set_pipeline`, `set_bind_group` and `dispatch_workgroups`,
/// `wgpu::CommandEncoder::finish` and `wgpu::Queue::submit`: encodes one
/// compute pass that binds the pipeline and the bind group at group index 0,
/// dispatches a `groups_x` by `groups_y` by 1 grid, and submits the encoded
/// commands to the queue exactly once.
#[verifier::external_body]
pub(crate) fn encode_and_submit_dispatch(
    device: &wgpu::Device,
    queue: &wgpu::Queue,
    pipeline: &wgpu::ComputePipeline,
    bind_group: &wgpu::BindGroup,
    groups_x: u32,
    groups_y: u32,
) {
    let mut encoder = device.create_command_encoder(&wgpu::CommandEncoderDescriptor {
        label: Some("compute encoder"),
    });
    {
        let mut pass = encoder.begin_compute_pass(&wgpu::ComputePassDescriptor {
            label: Some("compute pass"),
            timestamp_writes: None,
        });
        pass.set_pipeline(pipeline);
        pass.set_bind_group(0, bind_group, &[]);
        pass.dispatch_workgroups(groups_x, groups_y, 1);
    }
    queue.submit(std::iter::once(encoder.finish()));
}

} // verus!
