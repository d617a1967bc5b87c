//! The numeric codes of the graphics interface that the scene uses.

use vstd::prelude::*;

verus! {

/// Clear mask bit of the depth buffer.
pub const DEPTH_BUFFER_BIT: u32 = 256;

/// Clear mask bit of the colour buffer.
pub const COLOR_BUFFER_BIT: u32 = 16384;

/// Primitive kind: every three indices form one triangle.
pub const TRIANGLES: u32 = 4;

/// Comparison under which a fragment passes when it is no farther than what is stored.
pub const LEQUAL: u32 = 515;

/// Capability: depth testing.
pub const DEPTH_TEST: u32 = 2929;

/// Element type: unsigned 16-bit integer.
pub const UNSIGNED_SHORT: u32 = 5123;

/// Element type: 32-bit floating point.
pub const FLOAT: u32 = 5126;

/// Buffer target for vertex attributes.
pub const ARRAY_BUFFER: u32 = 34962;

/// Buffer target for vertex indices.
pub const ELEMENT_ARRAY_BUFFER: u32 = 34963;

/// Usage hint: written once, drawn many times.
pub const STATIC_DRAW: u32 = 35044;

/// Shader kind: fragment shader.
pub const FRAGMENT_SHADER: u32 = 35632;

/// Shader kind: vertex shader.
pub const VERTEX_SHADER: u32 = 35633;

/// Shader parameter: whether the last compilation succeeded.
pub const COMPILE_STATUS: u32 = 35713;

/// Program parameter: whether the last link succeeded.
pub const LINK_STATUS: u32 = 35714;

/// The mask that clears colour and depth together.
pub const CLEAR_MASK: u32 = COLOR_BUFFER_BIT | DEPTH_BUFFER_BIT;

/// The clear mask holds the colour bit and the depth bit and no other.
pub proof fn clear_mask_bits()
    ensures
        CLEAR_MASK == COLOR_BUFFER_BIT + DEPTH_BUFFER_BIT,
        CLEAR_MASK & COLOR_BUFFER_BIT == COLOR_BUFFER_BIT,
        CLEAR_MASK & DEPTH_BUFFER_BIT == DEPTH_BUFFER_BIT,
{
    assert(16384u32 | 256u32 == 16640u32) by (bit_vector);
    assert(16640u32 & 16384u32 == 16384u32) by (bit_vector);
    assert(16640u32 & 256u32 == 256u32) by (bit_vector);
}

} // verus!
