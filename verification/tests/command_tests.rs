use hal_command::barrier::{derive_image_layout, map_buffer_usage_to_barrier,
    map_texture_usage_to_barrier};
use hal_command::encoder::{Buffer, BufferBarrier, BufferCopy, CommandEncoder, MemoryRange,
    TextureBarrier, UsageRange, ALLOCATION_GRANULARITY, WHOLE_SIZE};
use hal_command::flags::{ImageLayout, ACCESS_HOST_WRITE, ACCESS_SHADER_READ,
    ACCESS_TRANSFER_READ, ACCESS_TRANSFER_WRITE, ASPECT_COLOR, ASPECT_DEPTH, ASPECT_STENCIL,
    BUFFER_USE_COPY_SRC, BUFFER_USE_COPY_DST, BUFFER_USE_MAP_WRITE, BUFFER_USE_STORAGE_LOAD,
    STAGE_ALL_SHADERS, STAGE_HOST, STAGE_TRANSFER, TEXTURE_USE_COPY_DST, TEXTURE_USE_COPY_SRC,
    TEXTURE_USE_SAMPLED, TEXTURE_USE_UNINITIALIZED};
use hal_command::regions::{map_extent, map_subresource_layers, map_subresource_range,
    BufferLayout, BufferTextureCopy, Extent3d, FormatInfo, ImageRange, Origin3d, Texture,
    TextureCopy, TextureCopyBase, TextureDimension, REMAINING_ARRAY_LAYERS,
    REMAINING_MIP_LEVELS};

fn test_texture(raw: u64, dim: TextureDimension) -> Texture {
    Texture {
        raw,
        dim,
        aspects: ASPECT_COLOR,
        format_info: FormatInfo { block_size: 4, block_width: 1, block_height: 1 },
    }
}

fn recording_encoder() -> CommandEncoder {
    let mut enc = CommandEncoder::new();
    enc.provide_buffers(vec![100, 101]);
    enc.begin_encoding();
    enc
}

#[test]
fn check_dst_image_layout() {
    assert_eq!(
        derive_image_layout(TEXTURE_USE_COPY_DST),
        ImageLayout::TransferDstOptimal
    );
}

#[test]
fn translate_is_deterministic() {
    let first = map_texture_usage_to_barrier(TEXTURE_USE_COPY_DST);
    let second = map_texture_usage_to_barrier(TEXTURE_USE_COPY_DST);
    assert_eq!(first, second);
    let first = map_buffer_usage_to_barrier(BUFFER_USE_COPY_SRC | BUFFER_USE_MAP_WRITE);
    let second = map_buffer_usage_to_barrier(BUFFER_USE_COPY_SRC | BUFFER_USE_MAP_WRITE);
    assert_eq!(first, second);
}

#[test]
fn required_layouts_are_fixed() {
    assert_eq!(derive_image_layout(TEXTURE_USE_COPY_SRC), ImageLayout::TransferSrcOptimal);
    assert_eq!(derive_image_layout(TEXTURE_USE_SAMPLED), ImageLayout::ShaderReadOnlyOptimal);
    assert_eq!(derive_image_layout(TEXTURE_USE_UNINITIALIZED), ImageLayout::Undefined);
    // a combined state has no single required layout and resolves to general
    assert_eq!(
        derive_image_layout(TEXTURE_USE_COPY_SRC | TEXTURE_USE_SAMPLED),
        ImageLayout::General
    );
}

#[test]
fn boundary_state_is_noop() {
    let (stages, access) = map_texture_usage_to_barrier(TEXTURE_USE_UNINITIALIZED);
    assert_eq!(stages, 0);
    assert_eq!(access, 0);
}

#[test]
fn buffer_transition_copy_dst_to_storage_read() {
    // begin -> transition a buffer from copy-destination to storage-read -> end
    let mut enc = recording_encoder();
    let barriers = vec![BufferBarrier {
        buffer: Buffer { raw: 7 },
        usage: UsageRange { start: BUFFER_USE_COPY_DST, end: BUFFER_USE_STORAGE_LOAD },
    }];
    let batch = enc.transition_buffers(&barriers);
    assert_eq!(batch.barriers.len(), 1);
    assert_eq!(batch.barriers[0].buffer, 7);
    assert_eq!(batch.barriers[0].size, WHOLE_SIZE);
    assert_eq!(batch.barriers[0].src_access, ACCESS_TRANSFER_WRITE);
    assert_eq!(batch.barriers[0].dst_access, ACCESS_SHADER_READ);
    assert_eq!(batch.src_stages, STAGE_TRANSFER);
    assert_eq!(batch.dst_stages, STAGE_ALL_SHADERS);
    let sealed = enc.end_encoding();
    assert_eq!(sealed.raw, 101);
}

#[test]
fn buffer_transition_accumulates_stages() {
    let enc = recording_encoder();
    let barriers = vec![
        BufferBarrier {
            buffer: Buffer { raw: 1 },
            usage: UsageRange { start: BUFFER_USE_COPY_DST, end: BUFFER_USE_STORAGE_LOAD },
        },
        BufferBarrier {
            buffer: Buffer { raw: 2 },
            usage: UsageRange { start: BUFFER_USE_MAP_WRITE, end: BUFFER_USE_COPY_SRC },
        },
    ];
    let batch = enc.transition_buffers(&barriers);
    // batch-level stage masks are OR-combined; access masks stay per-barrier
    assert_eq!(batch.src_stages, STAGE_TRANSFER | STAGE_HOST);
    assert_eq!(batch.dst_stages, STAGE_ALL_SHADERS | STAGE_TRANSFER);
    assert_eq!(batch.barriers[0].src_access, ACCESS_TRANSFER_WRITE);
    assert_eq!(batch.barriers[1].src_access, ACCESS_HOST_WRITE);
    assert_eq!(batch.barriers[1].dst_access, ACCESS_TRANSFER_READ);
}

#[test]
fn texture_transition_carries_layouts_and_range() {
    let enc = recording_encoder();
    let texture = Texture {
        raw: 9,
        dim: TextureDimension::D2,
        aspects: ASPECT_DEPTH | ASPECT_STENCIL,
        format_info: FormatInfo { block_size: 4, block_width: 1, block_height: 1 },
    };
    let barriers = vec![TextureBarrier {
        texture,
        range: ImageRange {
            aspects: ASPECT_DEPTH,
            base_mip_level: 1,
            mip_level_count: Some(2),
            base_array_layer: 3,
            array_layer_count: None,
        },
        usage: UsageRange { start: TEXTURE_USE_COPY_DST, end: TEXTURE_USE_SAMPLED },
    }];
    let batch = enc.transition_textures(&barriers);
    assert_eq!(batch.barriers.len(), 1);
    let bar = &batch.barriers[0];
    assert_eq!(bar.image, 9);
    assert_eq!(bar.old_layout, ImageLayout::TransferDstOptimal);
    assert_eq!(bar.new_layout, ImageLayout::ShaderReadOnlyOptimal);
    assert_eq!(bar.src_access, ACCESS_TRANSFER_WRITE);
    assert_eq!(bar.dst_access, ACCESS_SHADER_READ);
    assert_eq!(bar.range.aspect_mask, ASPECT_DEPTH);
    assert_eq!(bar.range.base_mip_level, 1);
    assert_eq!(bar.range.level_count, 2);
    assert_eq!(bar.range.base_array_layer, 3);
    assert_eq!(bar.range.layer_count, REMAINING_ARRAY_LAYERS);
    assert_eq!(batch.src_stages, STAGE_TRANSFER);
    assert_eq!(batch.dst_stages, STAGE_ALL_SHADERS);
}

#[test]
fn empty_batches_are_noops() {
    let enc = recording_encoder();
    let batch = enc.transition_buffers(&Vec::new());
    assert_eq!(batch.src_stages, 0);
    assert_eq!(batch.dst_stages, 0);
    assert!(batch.barriers.is_empty());
    let batch = enc.transition_textures(&Vec::new());
    assert_eq!(batch.src_stages, 0);
    assert_eq!(batch.dst_stages, 0);
    assert!(batch.barriers.is_empty());
    let copies = enc.copy_buffer_to_buffer(&Buffer { raw: 1 }, &Buffer { raw: 2 }, &Vec::new());
    assert!(copies.regions.is_empty());
    let texture = test_texture(3, TextureDimension::D2);
    let copies = enc.copy_texture_to_texture(&texture, TEXTURE_USE_COPY_SRC, &texture,
        &Vec::new());
    assert!(copies.regions.is_empty());
    let copies = enc.copy_buffer_to_texture(&Buffer { raw: 1 }, &texture, &Vec::new());
    assert!(copies.regions.is_empty());
    let copies = enc.copy_texture_to_buffer(&texture, TEXTURE_USE_COPY_SRC, &Buffer { raw: 1 },
        &Vec::new());
    assert!(copies.regions.is_empty());
}

#[test]
fn pitch_math_256_square_texture() {
    // copy a 256x256 single-plane texture, bytes_per_row = 1024, block size 4,
    // no rows_per_image
    let enc = recording_encoder();
    let texture = test_texture(5, TextureDimension::D2);
    let regions = vec![BufferTextureCopy {
        buffer_layout: BufferLayout { offset: 0, bytes_per_row: Some(1024), rows_per_image: None },
        texture_base: TextureCopyBase {
            mip_level: 0,
            origin: Origin3d { x: 0, y: 0, z: 0 },
            aspect: ASPECT_COLOR,
        },
        size: Extent3d { width: 256, height: 256, depth: 1 },
    }];
    let batch = enc.copy_buffer_to_texture(&Buffer { raw: 4 }, &texture, &regions);
    assert_eq!(batch.dst_layout, ImageLayout::TransferDstOptimal);
    assert_eq!(batch.regions.len(), 1);
    assert_eq!(batch.regions[0].buffer_row_length, 256);
    assert_eq!(batch.regions[0].buffer_image_height, 0);
    assert_eq!(batch.regions[0].image_extent.width, 256);
    assert_eq!(batch.regions[0].image_extent.height, 256);
    assert_eq!(batch.regions[0].image_extent.depth, 1);
}

#[test]
fn pitch_round_trip_recovers_bytes_per_row() {
    let enc = recording_encoder();
    let texture = Texture {
        raw: 5,
        dim: TextureDimension::D2,
        aspects: ASPECT_COLOR,
        format_info: FormatInfo { block_size: 8, block_width: 4, block_height: 4 },
    };
    let regions = vec![BufferTextureCopy {
        buffer_layout: BufferLayout {
            offset: 64,
            bytes_per_row: Some(4096),
            rows_per_image: Some(32),
        },
        texture_base: TextureCopyBase {
            mip_level: 2,
            origin: Origin3d { x: 8, y: 16, z: 0 },
            aspect: ASPECT_COLOR,
        },
        size: Extent3d { width: 64, height: 64, depth: 1 },
    }];
    let batch = enc.copy_texture_to_buffer(&texture, TEXTURE_USE_COPY_SRC, &Buffer { raw: 4 },
        &regions);
    assert_eq!(batch.src_layout, ImageLayout::TransferSrcOptimal);
    let region = &batch.regions[0];
    assert_eq!(region.buffer_offset, 64);
    // multiplying the row length back by the block size recovers the pitch
    assert_eq!(region.buffer_row_length, 512);
    assert_eq!(region.buffer_row_length * 8, 4096);
    // plane pitch in rows scales by the block height
    assert_eq!(region.buffer_image_height, 128);
    assert_eq!(region.image_subresource.mip_level, 2);
    assert_eq!(region.image_offset.x, 8);
    assert_eq!(region.image_offset.y, 16);
}

#[test]
fn extent_depth_vs_layers() {
    let size = Extent3d { width: 16, height: 8, depth: 6 };
    // an array texture's depth is a layer count
    let (layers, extent) = map_extent(size, TextureDimension::D2);
    assert_eq!(layers, 6);
    assert_eq!(extent.depth, 1);
    // a volume texture's depth is a real depth and it has one layer
    let (layers, extent) = map_extent(size, TextureDimension::D3);
    assert_eq!(layers, 1);
    assert_eq!(extent.depth, 6);
}

#[test]
fn subresource_layers_depth_vs_layers() {
    let base = TextureCopyBase {
        mip_level: 1,
        origin: Origin3d { x: 2, y: 3, z: 4 },
        aspect: ASPECT_COLOR,
    };
    let (layers, offset) = map_subresource_layers(&base, TextureDimension::D2, ASPECT_COLOR, 5);
    assert_eq!(layers.base_array_layer, 4);
    assert_eq!(layers.layer_count, 5);
    assert_eq!(layers.mip_level, 1);
    assert_eq!(offset.z, 0);
    let (layers, offset) = map_subresource_layers(&base, TextureDimension::D3, ASPECT_COLOR, 1);
    assert_eq!(layers.base_array_layer, 0);
    assert_eq!(offset.z, 4);
    assert_eq!(offset.x, 2);
    assert_eq!(offset.y, 3);
}

#[test]
fn subresource_range_defaults_to_everything() {
    let range = ImageRange {
        aspects: ASPECT_COLOR | ASPECT_DEPTH,
        base_mip_level: 0,
        mip_level_count: None,
        base_array_layer: 0,
        array_layer_count: None,
    };
    let native = map_subresource_range(&range, ASPECT_COLOR);
    // requested aspects are limited to the declared ones
    assert_eq!(native.aspect_mask, ASPECT_COLOR);
    assert_eq!(native.level_count, REMAINING_MIP_LEVELS);
    assert_eq!(native.layer_count, REMAINING_ARRAY_LAYERS);
}

#[test]
fn pool_first_begin_allocates_one_batch() {
    // pool starts empty; one allocation batch of the fixed granularity is
    // requested, one buffer becomes active, the rest stay free
    let mut enc = CommandEncoder::new();
    assert!(enc.needs_allocation());
    let fresh: Vec<u64> = (0..ALLOCATION_GRANULARITY as u64).collect();
    enc.provide_buffers(fresh);
    assert!(!enc.needs_allocation());
    let raw = enc.begin_encoding();
    assert_eq!(raw, ALLOCATION_GRANULARITY as u64 - 1);
    assert_eq!(enc.active, Some(raw));
    assert_eq!(enc.free.len(), ALLOCATION_GRANULARITY as usize - 1);
    assert!(enc.discarded.is_empty());
}

#[test]
fn pool_accounting_over_a_cycle() {
    let mut enc = CommandEncoder::new();
    enc.provide_buffers(vec![1, 2, 3]);
    let raw = enc.begin_encoding();
    assert_eq!(raw, 3);
    let sealed = enc.end_encoding();
    assert_eq!(sealed.raw, 3);
    assert_eq!(enc.active, None);
    // a second recording, abandoned
    enc.begin_encoding();
    enc.discard_encoding();
    assert_eq!(enc.free, vec![1]);
    assert_eq!(enc.discarded, vec![2]);
    // the submitted buffer returns; discarded ones come back too
    enc.reset_all(&vec![sealed]);
    assert_eq!(enc.free, vec![1, 3, 2]);
    assert!(enc.discarded.is_empty());
    assert_eq!(enc.active, None);
}

#[test]
fn reset_all_with_nothing_returned() {
    let mut enc = CommandEncoder::new();
    enc.provide_buffers(vec![8]);
    enc.begin_encoding();
    enc.discard_encoding();
    enc.reset_all(&Vec::new());
    assert_eq!(enc.free, vec![8]);
    assert!(enc.discarded.is_empty());
}

#[test]
fn fill_buffer_replicates_byte() {
    let enc = recording_encoder();
    let cmd = enc.fill_buffer(&Buffer { raw: 12 }, MemoryRange { start: 16, end: 80 }, 0xAB);
    assert_eq!(cmd.buffer, 12);
    assert_eq!(cmd.offset, 16);
    assert_eq!(cmd.size, 64);
    assert_eq!(cmd.pattern, 0xABAB_ABAB);
    let cmd = enc.fill_buffer(&Buffer { raw: 12 }, MemoryRange { start: 0, end: 4 }, 0);
    assert_eq!(cmd.pattern, 0);
}

#[test]
fn copy_buffer_to_buffer_keeps_regions() {
    let enc = recording_encoder();
    let regions = vec![
        BufferCopy { src_offset: 0, dst_offset: 256, size: 128 },
        BufferCopy { src_offset: 512, dst_offset: 0, size: 64 },
    ];
    let batch = enc.copy_buffer_to_buffer(&Buffer { raw: 1 }, &Buffer { raw: 2 }, &regions);
    assert_eq!(batch.src, 1);
    assert_eq!(batch.dst, 2);
    assert_eq!(batch.regions, regions);
}

#[test]
fn copy_texture_to_texture_layouts_and_subresources() {
    let enc = recording_encoder();
    let src = test_texture(21, TextureDimension::D2);
    let dst = test_texture(22, TextureDimension::D2);
    let regions = vec![TextureCopy {
        src_base: TextureCopyBase {
            mip_level: 0,
            origin: Origin3d { x: 0, y: 0, z: 2 },
            aspect: ASPECT_COLOR,
        },
        dst_base: TextureCopyBase {
            mip_level: 1,
            origin: Origin3d { x: 4, y: 4, z: 0 },
            aspect: ASPECT_COLOR,
        },
        size: Extent3d { width: 32, height: 32, depth: 3 },
    }];
    let batch = enc.copy_texture_to_texture(&src, TEXTURE_USE_COPY_SRC, &dst, &regions);
    assert_eq!(batch.src, 21);
    assert_eq!(batch.dst, 22);
    assert_eq!(batch.src_layout, ImageLayout::TransferSrcOptimal);
    assert_eq!(batch.dst_layout, ImageLayout::TransferDstOptimal);
    let region = &batch.regions[0];
    assert_eq!(region.src_subresource.base_array_layer, 2);
    assert_eq!(region.src_subresource.layer_count, 3);
    assert_eq!(region.dst_subresource.base_array_layer, 0);
    assert_eq!(region.dst_subresource.mip_level, 1);
    assert_eq!(region.extent.depth, 1);
    assert_eq!(region.dst_offset.x, 4);
}

#[test]
fn tight_packing_encodes_as_zero() {
    // an absent pitch means tightly packed and is handed to the native layer as 0
    let enc = recording_encoder();
    let texture = test_texture(6, TextureDimension::D2);
    let regions = vec![BufferTextureCopy {
        buffer_layout: BufferLayout { offset: 0, bytes_per_row: None, rows_per_image: None },
        texture_base: TextureCopyBase {
            mip_level: 0,
            origin: Origin3d { x: 0, y: 0, z: 0 },
            aspect: ASPECT_COLOR,
        },
        size: Extent3d { width: 8, height: 8, depth: 1 },
    }];
    let batch = enc.copy_buffer_to_texture(&Buffer { raw: 4 }, &texture, &regions);
    assert_eq!(batch.regions[0].buffer_row_length, 0);
    assert_eq!(batch.regions[0].buffer_image_height, 0);
}
