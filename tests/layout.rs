use render_loop::layout::{
    attribute_size, buffer_layout, colored_vertex_layout, colored_vertex_layout_2d, instance_layout,
    textured_vertex_layout, AttributeFormat, StepMode,
};

fn offsets(l: &render_loop::layout::BufferLayout) -> Vec<(u64, u32)> {
    l.attributes.iter().map(|a| (a.offset, a.shader_location)).collect()
}

#[test]
fn attribute_sizes() {
    assert_eq!(attribute_size(AttributeFormat::Float32x2), 8);
    assert_eq!(attribute_size(AttributeFormat::Float32x3), 12);
    assert_eq!(attribute_size(AttributeFormat::Float32x4), 16);
}

#[test]
fn offsets_are_cumulative_sums() {
    let l = buffer_layout(
        &vec![AttributeFormat::Float32x3, AttributeFormat::Float32x2, AttributeFormat::Float32x4],
        2,
        StepMode::Vertex,
    );
    assert_eq!(l.array_stride, 36);
    assert_eq!(offsets(&l), vec![(0, 2), (12, 3), (20, 4)]);
    assert_eq!(l.step_mode, StepMode::Vertex);
}

#[test]
fn empty_layout_has_zero_stride() {
    let l = buffer_layout(&vec![], 0, StepMode::Instance);
    assert_eq!(l.array_stride, 0);
    assert!(l.attributes.is_empty());
}

#[test]
fn colored_2d_vertex() {
    let l = colored_vertex_layout_2d();
    assert_eq!(l.array_stride, 20);
    assert_eq!(offsets(&l), vec![(0, 0), (8, 1)]);
    assert_eq!(l.attributes[1].format, AttributeFormat::Float32x3);
}

#[test]
fn colored_vertex() {
    let l = colored_vertex_layout();
    assert_eq!(l.array_stride, 24);
    assert_eq!(offsets(&l), vec![(0, 0), (12, 1)]);
}

#[test]
fn textured_vertex() {
    let l = textured_vertex_layout();
    assert_eq!(l.array_stride, 20);
    assert_eq!(offsets(&l), vec![(0, 0), (12, 1)]);
    assert_eq!(l.attributes[1].format, AttributeFormat::Float32x2);
}

#[test]
fn instance_stream_is_a_matrix_per_instance() {
    let l = instance_layout();
    assert_eq!(l.array_stride, 64);
    assert_eq!(l.step_mode, StepMode::Instance);
    assert_eq!(offsets(&l), vec![(0, 5), (16, 6), (32, 7), (48, 8)]);
}
