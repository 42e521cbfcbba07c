//! The numeric codes of the WebGL 1.0 interface that the samples use.
//!
//! Every code is the value that the WebGL specification assigns to the name;
//! the host hands them to the rendering context unchanged.

use vstd::prelude::*;

verus! {

/// Clear-mask bit of the depth buffer.
pub const DEPTH_BUFFER_BIT: u32 = 0x0100;

/// Clear-mask bit of the colour buffer.
pub const COLOR_BUFFER_BIT: u32 = 0x4000;

/// Primitive mode: every three vertices form one triangle.
pub const TRIANGLES: u32 = 0x0004;

/// Primitive mode: every vertex after the second forms a triangle with its two predecessors.
pub const TRIANGLE_STRIP: u32 = 0x0005;

/// Binding point of vertex attribute data.
pub const ARRAY_BUFFER: u32 = 0x8892;

/// Binding point of element indices.
pub const ELEMENT_ARRAY_BUFFER: u32 = 0x8893;

/// Usage hint: written once, drawn many times.
pub const STATIC_DRAW: u32 = 0x88E4;

/// Capability: depth testing.
pub const DEPTH_TEST: u32 = 0x0B71;

/// Depth comparison under which a fragment passes when it is nearer or equally near.
pub const LEQUAL: u32 = 0x0203;

/// Component type: 32-bit floating point.
pub const FLOAT: u32 = 0x1406;

/// Shader kind: fragment stage.
pub const FRAGMENT_SHADER: u32 = 0x8B30;

/// Shader kind: vertex stage.
pub const VERTEX_SHADER: u32 = 0x8B31;

/// Shader parameter: whether the last compilation succeeded.
pub const COMPILE_STATUS: u32 = 0x8B81;

/// Program parameter: whether the last link succeeded.
pub const LINK_STATUS: u32 = 0x8B82;

/// The mask that clears the colour buffer and, if `depth` is set, the depth buffer with it.
pub open spec fn clear_mask_of(depth: bool) -> u32 {
    if depth {
        COLOR_BUFFER_BIT | DEPTH_BUFFER_BIT
    } else {
        COLOR_BUFFER_BIT
    }
}

/// Computes the clear mask of a frame.
pub fn clear_mask(depth: bool) -> (mask: u32)
    ensures
        mask == clear_mask_of(depth),
        mask == if depth { 0x4100u32 } else { 0x4000u32 },
{
    assert(0x4000u32 | 0x0100u32 == 0x4100u32) by (bit_vector);
    if depth {
        COLOR_BUFFER_BIT | DEPTH_BUFFER_BIT
    } else {
        COLOR_BUFFER_BIT
    }
}

} // verus!
