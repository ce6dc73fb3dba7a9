use gl_triangle::vertex_layout::{
    color_offset, position_offset, vertex_buffer_size, vertex_stride,
};

#[test]
fn stride_is_six_components_of_four_bytes() {
    assert_eq!(vertex_stride(), 24);
}

#[test]
fn position_comes_first() {
    assert_eq!(position_offset(), 0);
}

#[test]
fn color_follows_position_without_padding() {
    assert_eq!(color_offset(), 12);
}

#[test]
fn three_vertices_fill_seventy_two_bytes() {
    assert_eq!(vertex_buffer_size(3), 72);
}
