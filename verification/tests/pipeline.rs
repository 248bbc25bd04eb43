//! The lines pipeline: one-time buffer allocation, the declared input
//! assembly, and the fixed draw call.

use game_world::pipeline::{BufferRequest, DrawCall, LinesPipeline, Topology};

#[test]
fn buffer_is_allocated_exactly_once() {
    let mut pipeline = LinesPipeline::new();
    let first = pipeline.prepare();
    assert_eq!(first, Some(BufferRequest { vertex_count: 2 }));
    let second = pipeline.prepare();
    assert_eq!(second, None);
    let third = pipeline.prepare();
    assert_eq!(third, None);
}

#[test]
fn lines_are_assembled_as_a_line_list() {
    let pipeline = LinesPipeline::new();
    let desc = pipeline.input_assembler();
    assert_eq!(desc.topology, Topology::LineList);
    assert!(!desc.primitive_restart);
}

#[test]
fn draw_issues_the_fixed_call() {
    let mut pipeline = LinesPipeline::new();
    pipeline.prepare();
    let call = pipeline.draw();
    assert_eq!(
        call,
        DrawCall { first_vertex: 0, vertex_count: 3, first_instance: 0, instance_count: 1 }
    );
}
