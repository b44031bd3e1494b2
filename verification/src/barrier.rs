//! Usage-to-barrier translation: a pure mapping from an abstract resource-usage
//! state to the native pipeline-stage mask and memory-access mask, and, for
//! textures, the required image layout.

use vstd::prelude::*;

use crate::flags::ACCESS_COLOR_ATTACHMENT_READ;
use crate::flags::ACCESS_COLOR_ATTACHMENT_WRITE;
use crate::flags::ACCESS_DEPTH_STENCIL_READ;
use crate::flags::ACCESS_DEPTH_STENCIL_WRITE;
use crate::flags::ACCESS_HOST_READ;
use crate::flags::ACCESS_HOST_WRITE;
use crate::flags::ACCESS_INDEX_READ;
use crate::flags::ACCESS_INDIRECT_COMMAND_READ;
use crate::flags::ACCESS_SHADER_READ;
use crate::flags::ACCESS_SHADER_WRITE;
use crate::flags::ACCESS_TRANSFER_READ;
use crate::flags::ACCESS_TRANSFER_WRITE;
use crate::flags::ACCESS_UNIFORM_READ;
use crate::flags::ACCESS_VERTEX_ATTRIBUTE_READ;
use crate::flags::BUFFER_USE_COPY_DST;
use crate::flags::BUFFER_USE_COPY_SRC;
use crate::flags::BUFFER_USE_INDEX;
use crate::flags::BUFFER_USE_INDIRECT;
use crate::flags::BUFFER_USE_MAP_READ;
use crate::flags::BUFFER_USE_MAP_WRITE;
use crate::flags::BUFFER_USE_STORAGE_LOAD;
use crate::flags::BUFFER_USE_STORAGE_STORE;
use crate::flags::BUFFER_USE_UNIFORM;
use crate::flags::BUFFER_USE_VERTEX;
use crate::flags::ImageLayout;
use crate::flags::STAGE_ALL_SHADERS;
use crate::flags::STAGE_COLOR_ATTACHMENT_OUTPUT;
use crate::flags::STAGE_DRAW_INDIRECT;
use crate::flags::STAGE_EARLY_FRAGMENT_TESTS;
use crate::flags::STAGE_HOST;
use crate::flags::STAGE_LATE_FRAGMENT_TESTS;
use crate::flags::STAGE_TRANSFER;
use crate::flags::STAGE_VERTEX_INPUT;
use crate::flags::TEXTURE_USE_COLOR_TARGET;
use crate::flags::TEXTURE_USE_COPY_DST;
use crate::flags::TEXTURE_USE_COPY_SRC;
use crate::flags::TEXTURE_USE_DEPTH_STENCIL_READ;
use crate::flags::TEXTURE_USE_DEPTH_STENCIL_WRITE;
use crate::flags::TEXTURE_USE_SAMPLED;
use crate::flags::TEXTURE_USE_STORAGE_LOAD;
use crate::flags::TEXTURE_USE_STORAGE_STORE;
use crate::flags::TEXTURE_USE_UNINITIALIZED;

verus! {

/// The pipeline stages at which a buffer in the given usage state is touched.
pub open spec fn buffer_usage_stages(usage: u32) -> u32 {
    (if usage & BUFFER_USE_MAP_READ != 0 { STAGE_HOST } else { 0 })
    | (if usage & BUFFER_USE_MAP_WRITE != 0 { STAGE_HOST } else { 0 })
    | (if usage & BUFFER_USE_COPY_SRC != 0 { STAGE_TRANSFER } else { 0 })
    | (if usage & BUFFER_USE_COPY_DST != 0 { STAGE_TRANSFER } else { 0 })
    | (if usage & BUFFER_USE_INDEX != 0 { STAGE_VERTEX_INPUT } else { 0 })
    | (if usage & BUFFER_USE_VERTEX != 0 { STAGE_VERTEX_INPUT } else { 0 })
    | (if usage & BUFFER_USE_UNIFORM != 0 { STAGE_ALL_SHADERS } else { 0 })
    | (if usage & BUFFER_USE_STORAGE_LOAD != 0 { STAGE_ALL_SHADERS } else { 0 })
    | (if usage & BUFFER_USE_STORAGE_STORE != 0 { STAGE_ALL_SHADERS } else { 0 })
    | (if usage & BUFFER_USE_INDIRECT != 0 { STAGE_DRAW_INDIRECT } else { 0 })
}

/// The memory accesses a buffer in the given usage state is subject to.
pub open spec fn buffer_usage_access(usage: u32) -> u32 {
    (if usage & BUFFER_USE_MAP_READ != 0 { ACCESS_HOST_READ } else { 0 })
    | (if usage & BUFFER_USE_MAP_WRITE != 0 { ACCESS_HOST_WRITE } else { 0 })
    | (if usage & BUFFER_USE_COPY_SRC != 0 { ACCESS_TRANSFER_READ } else { 0 })
    | (if usage & BUFFER_USE_COPY_DST != 0 { ACCESS_TRANSFER_WRITE } else { 0 })
    | (if usage & BUFFER_USE_INDEX != 0 { ACCESS_INDEX_READ } else { 0 })
    | (if usage & BUFFER_USE_VERTEX != 0 { ACCESS_VERTEX_ATTRIBUTE_READ } else { 0 })
    | (if usage & BUFFER_USE_UNIFORM != 0 { ACCESS_UNIFORM_READ } else { 0 })
    | (if usage & BUFFER_USE_STORAGE_LOAD != 0 { ACCESS_SHADER_READ } else { 0 })
    | (if usage & BUFFER_USE_STORAGE_STORE != 0 { ACCESS_SHADER_WRITE } else { 0 })
    | (if usage & BUFFER_USE_INDIRECT != 0 { ACCESS_INDIRECT_COMMAND_READ } else { 0 })
}

/// The pipeline stages at which a texture in the given usage state is touched.
pub open spec fn texture_usage_stages(usage: u32) -> u32 {
    (if usage & TEXTURE_USE_COPY_SRC != 0 { STAGE_TRANSFER } else { 0 })
    | (if usage & TEXTURE_USE_COPY_DST != 0 { STAGE_TRANSFER } else { 0 })
    | (if usage & TEXTURE_USE_SAMPLED != 0 { STAGE_ALL_SHADERS } else { 0 })
    | (if usage & TEXTURE_USE_COLOR_TARGET != 0 { STAGE_COLOR_ATTACHMENT_OUTPUT } else { 0 })
    | (if usage & TEXTURE_USE_DEPTH_STENCIL_READ != 0 {
        STAGE_EARLY_FRAGMENT_TESTS | STAGE_LATE_FRAGMENT_TESTS
    } else { 0 })
    | (if usage & TEXTURE_USE_DEPTH_STENCIL_WRITE != 0 {
        STAGE_EARLY_FRAGMENT_TESTS | STAGE_LATE_FRAGMENT_TESTS
    } else { 0 })
    | (if usage & TEXTURE_USE_STORAGE_LOAD != 0 { STAGE_ALL_SHADERS } else { 0 })
    | (if usage & TEXTURE_USE_STORAGE_STORE != 0 { STAGE_ALL_SHADERS } else { 0 })
}

/// The memory accesses a texture in the given usage state is subject to.
pub open spec fn texture_usage_access(usage: u32) -> u32 {
    (if usage & TEXTURE_USE_COPY_SRC != 0 { ACCESS_TRANSFER_READ } else { 0 })
    | (if usage & TEXTURE_USE_COPY_DST != 0 { ACCESS_TRANSFER_WRITE } else { 0 })
    | (if usage & TEXTURE_USE_SAMPLED != 0 { ACCESS_SHADER_READ } else { 0 })
    | (if usage & TEXTURE_USE_COLOR_TARGET != 0 {
        ACCESS_COLOR_ATTACHMENT_READ | ACCESS_COLOR_ATTACHMENT_WRITE
    } else { 0 })
    | (if usage & TEXTURE_USE_DEPTH_STENCIL_READ != 0 { ACCESS_DEPTH_STENCIL_READ } else { 0 })
    | (if usage & TEXTURE_USE_DEPTH_STENCIL_WRITE != 0 { ACCESS_DEPTH_STENCIL_WRITE } else { 0 })
    | (if usage & TEXTURE_USE_STORAGE_LOAD != 0 { ACCESS_SHADER_READ } else { 0 })
    | (if usage & TEXTURE_USE_STORAGE_STORE != 0 { ACCESS_SHADER_WRITE } else { 0 })
}

/// The image layout a texture must be in for the given usage state. A combined
/// or otherwise unlisted state resolves to the general layout.
pub open spec fn image_layout_for(usage: u32) -> ImageLayout {
    if usage == TEXTURE_USE_UNINITIALIZED { ImageLayout::Undefined }
    else if usage == TEXTURE_USE_COPY_SRC { ImageLayout::TransferSrcOptimal }
    else if usage == TEXTURE_USE_COPY_DST { ImageLayout::TransferDstOptimal }
    else if usage == TEXTURE_USE_SAMPLED { ImageLayout::ShaderReadOnlyOptimal }
    else if usage == TEXTURE_USE_COLOR_TARGET { ImageLayout::ColorAttachmentOptimal }
    else if usage == TEXTURE_USE_DEPTH_STENCIL_WRITE { ImageLayout::DepthStencilAttachmentOptimal }
    else if usage == TEXTURE_USE_DEPTH_STENCIL_READ { ImageLayout::DepthStencilReadOnlyOptimal }
    else { ImageLayout::General }
}

/// Translate a buffer usage state to its (stage mask, access mask) pair.
pub fn map_buffer_usage_to_barrier(usage: u32) -> (r: (u32, u32))
    ensures
        r.0 == buffer_usage_stages(usage),
        r.1 == buffer_usage_access(usage),
{
    let stages: u32 =
        (if usage & BUFFER_USE_MAP_READ != 0 { STAGE_HOST } else { 0 })
        | (if usage & BUFFER_USE_MAP_WRITE != 0 { STAGE_HOST } else { 0 })
        | (if usage & BUFFER_USE_COPY_SRC != 0 { STAGE_TRANSFER } else { 0 })
        | (if usage & BUFFER_USE_COPY_DST != 0 { STAGE_TRANSFER } else { 0 })
        | (if usage & BUFFER_USE_INDEX != 0 { STAGE_VERTEX_INPUT } else { 0 })
        | (if usage & BUFFER_USE_VERTEX != 0 { STAGE_VERTEX_INPUT } else { 0 })
        | (if usage & BUFFER_USE_UNIFORM != 0 { STAGE_ALL_SHADERS } else { 0 })
        | (if usage & BUFFER_USE_STORAGE_LOAD != 0 { STAGE_ALL_SHADERS } else { 0 })
        | (if usage & BUFFER_USE_STORAGE_STORE != 0 { STAGE_ALL_SHADERS } else { 0 })
        | (if usage & BUFFER_USE_INDIRECT != 0 { STAGE_DRAW_INDIRECT } else { 0 });
    let access: u32 =
        (if usage & BUFFER_USE_MAP_READ != 0 { ACCESS_HOST_READ } else { 0 })
        | (if usage & BUFFER_USE_MAP_WRITE != 0 { ACCESS_HOST_WRITE } else { 0 })
        | (if usage & BUFFER_USE_COPY_SRC != 0 { ACCESS_TRANSFER_READ } else { 0 })
        | (if usage & BUFFER_USE_COPY_DST != 0 { ACCESS_TRANSFER_WRITE } else { 0 })
        | (if usage & BUFFER_USE_INDEX != 0 { ACCESS_INDEX_READ } else { 0 })
        | (if usage & BUFFER_USE_VERTEX != 0 { ACCESS_VERTEX_ATTRIBUTE_READ } else { 0 })
        | (if usage & BUFFER_USE_UNIFORM != 0 { ACCESS_UNIFORM_READ } else { 0 })
        | (if usage & BUFFER_USE_STORAGE_LOAD != 0 { ACCESS_SHADER_READ } else { 0 })
        | (if usage & BUFFER_USE_STORAGE_STORE != 0 { ACCESS_SHADER_WRITE } else { 0 })
        | (if usage & BUFFER_USE_INDIRECT != 0 { ACCESS_INDIRECT_COMMAND_READ } else { 0 });
    (stages, access)
}

/// Translate a texture usage state to its (stage mask, access mask) pair.
pub fn map_texture_usage_to_barrier(usage: u32) -> (r: (u32, u32))
    ensures
        r.0 == texture_usage_stages(usage),
        r.1 == texture_usage_access(usage),
{
    let stages: u32 =
        (if usage & TEXTURE_USE_COPY_SRC != 0 { STAGE_TRANSFER } else { 0 })
        | (if usage & TEXTURE_USE_COPY_DST != 0 { STAGE_TRANSFER } else { 0 })
        | (if usage & TEXTURE_USE_SAMPLED != 0 { STAGE_ALL_SHADERS } else { 0 })
        | (if usage & TEXTURE_USE_COLOR_TARGET != 0 { STAGE_COLOR_ATTACHMENT_OUTPUT } else { 0 })
        | (if usage & TEXTURE_USE_DEPTH_STENCIL_READ != 0 {
            STAGE_EARLY_FRAGMENT_TESTS | STAGE_LATE_FRAGMENT_TESTS
        } else { 0 })
        | (if usage & TEXTURE_USE_DEPTH_STENCIL_WRITE != 0 {
            STAGE_EARLY_FRAGMENT_TESTS | STAGE_LATE_FRAGMENT_TESTS
        } else { 0 })
        | (if usage & TEXTURE_USE_STORAGE_LOAD != 0 { STAGE_ALL_SHADERS } else { 0 })
        | (if usage & TEXTURE_USE_STORAGE_STORE != 0 { STAGE_ALL_SHADERS } else { 0 });
    let access: u32 =
        (if usage & TEXTURE_USE_COPY_SRC != 0 { ACCESS_TRANSFER_READ } else { 0 })
        | (if usage & TEXTURE_USE_COPY_DST != 0 { ACCESS_TRANSFER_WRITE } else { 0 })
        | (if usage & TEXTURE_USE_SAMPLED != 0 { ACCESS_SHADER_READ } else { 0 })
        | (if usage & TEXTURE_USE_COLOR_TARGET != 0 {
            ACCESS_COLOR_ATTACHMENT_READ | ACCESS_COLOR_ATTACHMENT_WRITE
        } else { 0 })
        | (if usage & TEXTURE_USE_DEPTH_STENCIL_READ != 0 { ACCESS_DEPTH_STENCIL_READ } else { 0 })
        | (if usage & TEXTURE_USE_DEPTH_STENCIL_WRITE != 0 { ACCESS_DEPTH_STENCIL_WRITE } else { 0 })
        | (if usage & TEXTURE_USE_STORAGE_LOAD != 0 { ACCESS_SHADER_READ } else { 0 })
        | (if usage & TEXTURE_USE_STORAGE_STORE != 0 { ACCESS_SHADER_WRITE } else { 0 });
    (stages, access)
}

/// Resolve the image layout a texture usage state requires.
pub fn derive_image_layout(usage: u32) -> (r: ImageLayout)
    ensures
        r == image_layout_for(usage),
{
    if usage == TEXTURE_USE_UNINITIALIZED { ImageLayout::Undefined }
    else if usage == TEXTURE_USE_COPY_SRC { ImageLayout::TransferSrcOptimal }
    else if usage == TEXTURE_USE_COPY_DST { ImageLayout::TransferDstOptimal }
    else if usage == TEXTURE_USE_SAMPLED { ImageLayout::ShaderReadOnlyOptimal }
    else if usage == TEXTURE_USE_COLOR_TARGET { ImageLayout::ColorAttachmentOptimal }
    else if usage == TEXTURE_USE_DEPTH_STENCIL_WRITE { ImageLayout::DepthStencilAttachmentOptimal }
    else if usage == TEXTURE_USE_DEPTH_STENCIL_READ { ImageLayout::DepthStencilReadOnlyOptimal }
    else { ImageLayout::General }
}

/// Determinism law: the translation of a usage pair is a function of the pair
/// alone. Any two results that meet the translators' contracts for the same
/// `start`/`end` states are equal, so every call returns the same values.
pub proof fn lemma_barrier_translation_deterministic(
    start: u32,
    end: u32,
    first: (u32, u32, u32, u32),
    second: (u32, u32, u32, u32),
)
    requires
        first == (
            texture_usage_stages(start),
            texture_usage_access(start),
            texture_usage_stages(end),
            texture_usage_access(end),
        ),
        second == (
            texture_usage_stages(start),
            texture_usage_access(start),
            texture_usage_stages(end),
            texture_usage_access(end),
        ),
    ensures
        first == second,
{
}

/// A usage state with no corresponding native stage maps to empty stage and
/// access masks: a barrier built from it is a harmless no-op.
pub proof fn lemma_boundary_state_is_noop()
    ensures
        texture_usage_stages(TEXTURE_USE_UNINITIALIZED) == 0,
        texture_usage_access(TEXTURE_USE_UNINITIALIZED) == 0,
{
    assert(TEXTURE_USE_UNINITIALIZED & TEXTURE_USE_COPY_SRC == 0) by (bit_vector);
    assert(TEXTURE_USE_UNINITIALIZED & TEXTURE_USE_COPY_DST == 0) by (bit_vector);
    assert(TEXTURE_USE_UNINITIALIZED & TEXTURE_USE_SAMPLED == 0) by (bit_vector);
    assert(TEXTURE_USE_UNINITIALIZED & TEXTURE_USE_COLOR_TARGET == 0) by (bit_vector);
    assert(TEXTURE_USE_UNINITIALIZED & TEXTURE_USE_DEPTH_STENCIL_READ == 0) by (bit_vector);
    assert(TEXTURE_USE_UNINITIALIZED & TEXTURE_USE_DEPTH_STENCIL_WRITE == 0) by (bit_vector);
    assert(TEXTURE_USE_UNINITIALIZED & TEXTURE_USE_STORAGE_LOAD == 0) by (bit_vector);
    assert(TEXTURE_USE_UNINITIALIZED & TEXTURE_USE_STORAGE_STORE == 0) by (bit_vector);
    assert(0u32 | 0u32 == 0u32) by (bit_vector);
}

/// Layout-consistency law: every usage state that implies a required image
/// layout resolves to the one layout that is a valid arrangement for the
/// native operations that state permits; in particular the copy-destination
/// state always resolves to the transfer-destination-optimal layout.
pub proof fn lemma_layout_consistency()
    ensures
        image_layout_for(TEXTURE_USE_COPY_DST) == ImageLayout::TransferDstOptimal,
        image_layout_for(TEXTURE_USE_COPY_SRC) == ImageLayout::TransferSrcOptimal,
        image_layout_for(TEXTURE_USE_SAMPLED) == ImageLayout::ShaderReadOnlyOptimal,
        image_layout_for(TEXTURE_USE_COLOR_TARGET) == ImageLayout::ColorAttachmentOptimal,
        image_layout_for(TEXTURE_USE_DEPTH_STENCIL_WRITE)
            == ImageLayout::DepthStencilAttachmentOptimal,
        image_layout_for(TEXTURE_USE_DEPTH_STENCIL_READ)
            == ImageLayout::DepthStencilReadOnlyOptimal,
        image_layout_for(TEXTURE_USE_UNINITIALIZED) == ImageLayout::Undefined,
{
}

} // verus!
