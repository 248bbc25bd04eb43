//! The lines pipeline's control flow: how vertices are assembled, a
//! GPU-visible vertex buffer allocated exactly once on first prepare
//! and reused ever after, and the fixed draw call issued each frame.
//! The vertex positions and colours themselves, and the shader modules,
//! belong to the rendering framework and its front end; what is
//! verified here is when the buffer is created and what drawing is
//! allowed to assume.

use vstd::prelude::*;

verus! {

/// How a pipeline assembles primitives from its vertex stream.
#[derive(Clone, Copy, PartialEq, Eq, Structural, Debug)]
pub enum Topology {
    /// Independent line segments: every two vertices make one line.
    LineList,
    /// Independent triangles: every three vertices make one triangle.
    TriangleList,
}

/// The input assembly a pipeline declares.
#[derive(Clone, Copy, PartialEq, Eq, Structural, Debug)]
pub struct InputAssemblerDesc {
    pub topology: Topology,
    /// Whether a sentinel index may cut a primitive strip short.
    pub primitive_restart: bool,
}

/// A request to allocate the vertex buffer and upload the fixed
/// vertices into it, issued at most once over a pipeline's life.
#[derive(Clone, Copy, PartialEq, Eq, Structural, Debug)]
pub struct BufferRequest {
    /// How many vertices the upload carries.
    pub vertex_count: u64,
}

/// The draw call the pipeline issues each frame: a fixed vertex range
/// and a single instance.
#[derive(Clone, Copy, PartialEq, Eq, Structural, Debug)]
pub struct DrawCall {
    pub first_vertex: u32,
    pub vertex_count: u32,
    pub first_instance: u32,
    pub instance_count: u32,
}

/// The pipeline that draws the world's single hard-coded line: two
/// endpoints, uploaded once, drawn every frame.
#[derive(Clone, Copy, PartialEq, Eq, Structural, Debug)]
pub struct LinesPipeline {
    /// Whether the vertex buffer has been allocated and filled.
    pub lines_buffer_ready: bool,
}

impl LinesPipeline {
    /// A freshly built pipeline owns no vertex buffer yet.
    pub fn new() -> (p: LinesPipeline)
        ensures
            !p.lines_buffer_ready,
    {
        LinesPipeline { lines_buffer_ready: false }
    }

    /// The lines pipeline assembles its vertices as a list of
    /// independent line segments, without primitive restart.
    pub fn input_assembler(&self) -> (d: InputAssemblerDesc)
        ensures
            d.topology is LineList,
            !d.primitive_restart,
    {
        InputAssemblerDesc { topology: Topology::LineList, primitive_restart: false }
    }

    /// Prepare one frame: on the first call, and only then, ask the
    /// caller to allocate the vertex buffer and upload the line's two
    /// endpoints; afterwards the existing buffer is reused.
    pub fn prepare(&mut self) -> (request: Option<BufferRequest>)
        ensures
            final(self).lines_buffer_ready,
            request is Some <==> !old(self).lines_buffer_ready,
            request matches Some(r) ==> r.vertex_count == 2,
    {
        if self.lines_buffer_ready {
            None
        } else {
            self.lines_buffer_ready = true;
            Some(BufferRequest { vertex_count: 2 })
        }
    }

    /// Draw one frame: bind the vertex buffer and issue the fixed
    /// call. The buffer must exist, which any caller that ran
    /// [`LinesPipeline::prepare`] first has ensured.
    pub fn draw(&self) -> (call: DrawCall)
        requires
            self.lines_buffer_ready,
        ensures
            call == (DrawCall {
                first_vertex: 0,
                vertex_count: 3,
                first_instance: 0,
                instance_count: 1,
            }),
    {
        DrawCall { first_vertex: 0, vertex_count: 3, first_instance: 0, instance_count: 1 }
    }
}

} // verus!
