//! Abstract resource-usage states and the native synchronization vocabulary:
//! pipeline-stage bits, memory-access bits, image layouts, and format aspects.
//! The bit values of the native masks are the native API's own.

use vstd::prelude::*;

verus! {

// Abstract buffer usage states (combinable bit flags).
pub const BUFFER_USE_MAP_READ: u32 = 0x1;
pub const BUFFER_USE_MAP_WRITE: u32 = 0x2;
pub const BUFFER_USE_COPY_SRC: u32 = 0x4;
pub const BUFFER_USE_COPY_DST: u32 = 0x8;
pub const BUFFER_USE_INDEX: u32 = 0x10;
pub const BUFFER_USE_VERTEX: u32 = 0x20;
pub const BUFFER_USE_UNIFORM: u32 = 0x40;
pub const BUFFER_USE_STORAGE_LOAD: u32 = 0x80;
pub const BUFFER_USE_STORAGE_STORE: u32 = 0x100;
pub const BUFFER_USE_INDIRECT: u32 = 0x200;

// Abstract texture usage states (combinable bit flags).
pub const TEXTURE_USE_COPY_SRC: u32 = 0x1;
pub const TEXTURE_USE_COPY_DST: u32 = 0x2;
pub const TEXTURE_USE_SAMPLED: u32 = 0x4;
pub const TEXTURE_USE_COLOR_TARGET: u32 = 0x8;
pub const TEXTURE_USE_DEPTH_STENCIL_READ: u32 = 0x10;
pub const TEXTURE_USE_DEPTH_STENCIL_WRITE: u32 = 0x20;
pub const TEXTURE_USE_STORAGE_LOAD: u32 = 0x40;
pub const TEXTURE_USE_STORAGE_STORE: u32 = 0x80;
/// A state only meaningful at submission boundaries: it maps to empty
/// stage/access masks and the undefined layout.
pub const TEXTURE_USE_UNINITIALIZED: u32 = 0x100;

// Native pipeline-stage mask bits.
pub const STAGE_DRAW_INDIRECT: u32 = 0x2;
pub const STAGE_VERTEX_INPUT: u32 = 0x4;
pub const STAGE_VERTEX_SHADER: u32 = 0x8;
pub const STAGE_FRAGMENT_SHADER: u32 = 0x80;
pub const STAGE_EARLY_FRAGMENT_TESTS: u32 = 0x100;
pub const STAGE_LATE_FRAGMENT_TESTS: u32 = 0x200;
pub const STAGE_COLOR_ATTACHMENT_OUTPUT: u32 = 0x400;
pub const STAGE_COMPUTE_SHADER: u32 = 0x800;
pub const STAGE_TRANSFER: u32 = 0x1000;
pub const STAGE_HOST: u32 = 0x4000;

/// The stages at which shader resource accesses may happen.
pub const STAGE_ALL_SHADERS: u32 = STAGE_VERTEX_SHADER | STAGE_FRAGMENT_SHADER
    | STAGE_COMPUTE_SHADER;

// Native memory-access mask bits.
pub const ACCESS_INDIRECT_COMMAND_READ: u32 = 0x1;
pub const ACCESS_INDEX_READ: u32 = 0x2;
pub const ACCESS_VERTEX_ATTRIBUTE_READ: u32 = 0x4;
pub const ACCESS_UNIFORM_READ: u32 = 0x8;
pub const ACCESS_SHADER_READ: u32 = 0x20;
pub const ACCESS_SHADER_WRITE: u32 = 0x40;
pub const ACCESS_COLOR_ATTACHMENT_READ: u32 = 0x80;
pub const ACCESS_COLOR_ATTACHMENT_WRITE: u32 = 0x100;
pub const ACCESS_DEPTH_STENCIL_READ: u32 = 0x200;
pub const ACCESS_DEPTH_STENCIL_WRITE: u32 = 0x400;
pub const ACCESS_TRANSFER_READ: u32 = 0x800;
pub const ACCESS_TRANSFER_WRITE: u32 = 0x1000;
pub const ACCESS_HOST_READ: u32 = 0x2000;
pub const ACCESS_HOST_WRITE: u32 = 0x4000;

// Format aspects a texture may declare.
pub const ASPECT_COLOR: u32 = 0x1;
pub const ASPECT_DEPTH: u32 = 0x2;
pub const ASPECT_STENCIL: u32 = 0x4;

/// Native image layouts a texture subresource can be arranged in.
#[derive(Clone, Copy, Debug, PartialEq, Eq, Structural)]
pub enum ImageLayout {
    Undefined,
    General,
    ColorAttachmentOptimal,
    DepthStencilAttachmentOptimal,
    DepthStencilReadOnlyOptimal,
    ShaderReadOnlyOptimal,
    TransferSrcOptimal,
    TransferDstOptimal,
}

} // verus!
