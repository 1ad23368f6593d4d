//! Pipeline and command buffer planning.
//!
//! Both tile meshes are triangle fans around a shared center vertex: six
//! vertices for a square tile, eight for a hexagon. The graphics pipeline
//! fixes that topology and keeps only the viewport dynamic, so a resize
//! rebuilds framebuffers and command buffers but not the pipeline itself.
//! Drawing records one command buffer per framebuffer, each a single
//! instanced draw of the tile mesh with one instance per grid tile; the
//! shader finds each instance's grid position and palette index through a
//! two-binding descriptor set.

use vstd::prelude::*;

use crate::project::CanvasSize;
use crate::project::GridType;

verus! {

/// The primitive topologies the renderer distinguishes.
#[derive(Debug, Clone, Copy, PartialEq, Eq, Structural)]
pub enum PrimitiveTopology {
    TriangleList,
    TriangleFan,
}

/// The fixed-function choices of the tile pipeline.
#[derive(Debug, Clone, Copy, PartialEq, Eq, Structural)]
pub struct PipelineConfig {
    pub topology: PrimitiveTopology,
    /// Only the viewport is dynamic state, so resizes keep the pipeline.
    pub dynamic_viewport: bool,
    /// Vertices in the tile mesh handed to every draw.
    pub vertex_count: u32,
}

/// One buffer binding of the canvas descriptor set.
#[derive(Debug, Clone, Copy, PartialEq, Eq, Structural)]
pub struct DescriptorBinding {
    pub binding: u32,
    pub uniform_buffer: bool,
    pub vertex_stage: bool,
    pub update_after_bind: bool,
}

/// One instanced draw as recorded into a command buffer.
#[derive(Debug, Clone, Copy, PartialEq, Eq, Structural)]
pub struct DrawCall {
    pub vertex_count: u32,
    pub instance_count: u32,
    pub first_vertex: u32,
    pub first_instance: u32,
}

/// How many vertices the tile mesh of a grid type holds, expressed as a
/// fan with a shared center vertex.
pub fn fan_vertex_count(grid: GridType) -> (n: u32)
    ensures
        grid is Square ==> n == 6,
        grid is Hexagonal ==> n == 8,
{
    match grid {
        GridType::Square => 6,
        GridType::Hexagonal => 8,
    }
}

/// Fixes the pipeline state for a grid type: triangle-fan topology over
/// the grid's tile mesh, with the viewport as the only dynamic state.
pub fn plan_pipeline(grid: GridType) -> (c: PipelineConfig)
    ensures
        c.topology is TriangleFan,
        c.dynamic_viewport,
        grid is Square ==> c.vertex_count == 6,
        grid is Hexagonal ==> c.vertex_count == 8,
{
    let vertex_count = fan_vertex_count(grid);
    PipelineConfig { topology: PrimitiveTopology::TriangleFan, dynamic_viewport: true, vertex_count }
}

/// Lays out the canvas descriptor set: the settings buffer at binding
/// zero and the index buffer at binding one, both update-after-bind
/// uniform buffers visible to the vertex stage.
pub fn plan_descriptor_bindings() -> (v: Vec<DescriptorBinding>)
    ensures
        v@.len() == 2,
        v@[0] == (DescriptorBinding {
            binding: 0,
            uniform_buffer: true,
            vertex_stage: true,
            update_after_bind: true,
        }),
        v@[1] == (DescriptorBinding {
            binding: 1,
            uniform_buffer: true,
            vertex_stage: true,
            update_after_bind: true,
        }),
{
    let mut v: Vec<DescriptorBinding> = Vec::new();
    v.push(
        DescriptorBinding {
            binding: 0,
            uniform_buffer: true,
            vertex_stage: true,
            update_after_bind: true,
        },
    );
    v.push(
        DescriptorBinding {
            binding: 1,
            uniform_buffer: true,
            vertex_stage: true,
            update_after_bind: true,
        },
    );
    v
}

/// How many instances one draw call issues: one per grid tile.
pub fn instance_count_for(size: &CanvasSize) -> (n: u32)
    requires
        size.spec_area() <= u32::MAX,
    ensures
        n == size.spec_area(),
{
    let a: u64 = size.area();
    a as u32
}

/// Records the drawing plan: one command buffer per framebuffer, each
/// issuing a single instanced draw of the whole tile mesh from vertex
/// zero, instance zero.
pub fn plan_draw_command_buffers(
    framebuffer_count: usize,
    vertex_count: u32,
    instance_count: u32,
) -> (v: Vec<DrawCall>)
    ensures
        v@.len() == framebuffer_count,
        forall|i: int|
            0 <= i < v@.len() ==> v@[i] == (DrawCall {
                vertex_count,
                instance_count,
                first_vertex: 0,
                first_instance: 0,
            }),
{
    let mut v: Vec<DrawCall> = Vec::new();
    let mut i: usize = 0;
    while i < framebuffer_count
        invariant
            i <= framebuffer_count,
            v@.len() == i,
            forall|j: int|
                0 <= j < i ==> v@[j] == (DrawCall {
                    vertex_count,
                    instance_count,
                    first_vertex: 0,
                    first_instance: 0,
                }),
        decreases framebuffer_count - i,
    {
        v.push(DrawCall { vertex_count, instance_count, first_vertex: 0, first_instance: 0 });
        i += 1;
    }
    v
}

} // verus!
