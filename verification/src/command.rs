//! The commands that the library hands to its host, one for each call into the
//! graphics context or the frame scheduler.

use vstd::prelude::*;
use crate::codes::{ARRAY_BUFFER, ELEMENT_ARRAY_BUFFER};
use crate::shader::{Attribute, ShaderKind, Uniform};

verus! {

/// The three buffers of the scene.
#[derive(Clone, Copy, Debug, PartialEq, Eq, Structural)]
pub enum BufferSlot {
    Position,
    Color,
    Index,
}

/// One thing for the host to do.
#[derive(Clone, Copy, Debug, PartialEq, Eq, Structural)]
pub enum Command {
    /// Look the canvas element up in the document.
    FindCanvas,
    /// Ask the canvas for its graphics context.
    GetContext,
    /// Create a shader of this kind from its source text and compile it.
    CompileShader { kind: ShaderKind },
    /// Create the program, attach both shaders and link it.
    LinkProgram,
    /// Look up where the program takes this attribute.
    LocateAttribute { attribute: Attribute },
    /// Look up where the program takes this uniform.
    LocateUniform { uniform: Uniform },
    /// Allocate the buffer.
    CreateBuffer { slot: BufferSlot },
    /// Make the buffer the current one of `target`.
    BindBuffer { target: u32, slot: BufferSlot },
    /// Copy the buffer's data into the current buffer of `target`.
    FillBuffer { target: u32, slot: BufferSlot, usage: u32 },
    /// Set the colour that clearing writes; each channel is 0 or 1.
    ClearColor { red: u8, green: u8, blue: u8, alpha: u8 },
    /// Set the depth that clearing writes.
    ClearDepth { depth: u8 },
    /// Switch a capability on.
    Enable { capability: u32 },
    /// Choose the comparison of the depth test.
    DepthFunc { comparison: u32 },
    /// Clear the buffers that `mask` names.
    Clear { mask: u32 },
    /// Describe how the attribute reads the buffer bound to the array target.
    VertexAttribPointer {
        attribute: Attribute,
        components: i32,
        component_type: u32,
        normalize: bool,
        stride: i32,
        offset: i32,
    },
    /// Let the attribute read from its buffer.
    EnableVertexAttribArray { attribute: Attribute },
    /// Make the program the current one.
    UseProgram,
    /// Upload the frame's matrix for this uniform, column by column.
    UniformMatrix { uniform: Uniform, transpose: bool },
    /// Write the frame's matrix for this uniform to the diagnostic log.
    LogMatrix { uniform: Uniform },
    /// Draw indexed primitives from the bound buffers.
    DrawElements { mode: u32, count: i32, index_type: u32, offset: i32 },
    /// Ask the scheduler to call for the next frame.
    RequestFrame,
}

impl BufferSlot {
    /// The target that the buffer is bound to: indices go to the element
    /// target, vertex data to the array target.
    pub open spec fn target_spec(self) -> u32 {
        match self {
            BufferSlot::Index => ELEMENT_ARRAY_BUFFER,
            _ => ARRAY_BUFFER,
        }
    }

    /// The target that the buffer is bound to.
    #[verifier::when_used_as_spec(target_spec)]
    pub fn target(self) -> (target: u32)
        ensures
            target == self.target_spec(),
    {
        match self {
            BufferSlot::Index => ELEMENT_ARRAY_BUFFER,
            _ => ARRAY_BUFFER,
        }
    }
}

impl Command {
    /// Whether the command brings a new object of the graphics context into
    /// being: a shader, a program or a buffer.
    pub open spec fn creates_spec(self) -> bool {
        self is CompileShader || self is LinkProgram || self is CreateBuffer
    }

    /// Whether the command brings a new object of the graphics context into
    /// being.
    #[verifier::when_used_as_spec(creates_spec)]
    pub fn creates(self) -> (creates: bool)
        ensures
            creates == self.creates_spec(),
    {
        match self {
            Command::CompileShader { .. } | Command::LinkProgram | Command::CreateBuffer { .. } => true,
            _ => false,
        }
    }
}

} // verus!
