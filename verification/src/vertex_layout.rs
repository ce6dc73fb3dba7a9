//! The byte layout of the vertex upload format.
//!
//! A vertex is six 4-byte floating-point components: three of
//! position, then three of color, contiguous and unpadded. The
//! embedder holds the actual floating-point data; this module states
//! the serialization contract the upload relies on — field order,
//! offsets, stride and total buffer size — so the attribute-pointer
//! setup and the buffer upload agree by proof rather than by accident.

use vstd::prelude::*;

verus! {

/// Bytes per floating-point component.
pub const COMPONENT_BYTES: usize = 4;

/// Components of the position field.
pub const POSITION_COMPONENTS: usize = 3;

/// Components of the color field.
pub const COLOR_COMPONENTS: usize = 3;

/// Byte distance between consecutive vertices: six components,
/// nothing between them.
pub fn vertex_stride() -> (n: usize)
    ensures
        n == 24,
        n == (POSITION_COMPONENTS + COLOR_COMPONENTS) * COMPONENT_BYTES,
{
    (POSITION_COMPONENTS + COLOR_COMPONENTS) * COMPONENT_BYTES
}

/// Byte offset of the position field inside a vertex: it comes first.
pub fn position_offset() -> (n: usize)
    ensures
        n == 0,
{
    0
}

/// Byte offset of the color field inside a vertex: right after the
/// position, with no padding.
pub fn color_offset() -> (n: usize)
    ensures
        n == 12,
        n == POSITION_COMPONENTS * COMPONENT_BYTES,
{
    POSITION_COMPONENTS * COMPONENT_BYTES
}

/// Total byte size of a buffer of `count` vertices.
pub fn vertex_buffer_size(count: usize) -> (n: usize)
    requires
        count * 24 <= usize::MAX,
    ensures
        n == count * 24,
{
    count * 24
}

/// Law: the layout is dense — the two fields cover the stride exactly,
/// the color field begins where the position field ends, and a buffer
/// of `count` vertices is `count` stride-sized records.
pub proof fn lemma_layout_dense(count: usize)
    requires
        count * 24 <= usize::MAX,
    ensures
        POSITION_COMPONENTS * COMPONENT_BYTES + COLOR_COMPONENTS * COMPONENT_BYTES == 24,
        count * 24 == count * ((POSITION_COMPONENTS + COLOR_COMPONENTS) * COMPONENT_BYTES),
{
}

} // verus!
