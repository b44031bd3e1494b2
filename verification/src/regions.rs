//! Format/extent translation: pure conversions from abstract texture geometry
//! (origin, size, mip/array subresource, declared aspects) and a texel-block
//! format description into native subresource descriptors, offsets, extents,
//! and buffer-side row/plane pitch values.

use vstd::prelude::*;

verus! {

/// Native value meaning "every remaining mip level of the image".
pub const REMAINING_MIP_LEVELS: u32 = 0xFFFF_FFFF;

/// Native value meaning "every remaining array layer of the image".
pub const REMAINING_ARRAY_LAYERS: u32 = 0xFFFF_FFFF;

/// Abstract copy size; `depth` is depth for a volume texture and layer count
/// for an array texture.
#[derive(Clone, Copy, Debug, PartialEq, Eq, Structural)]
pub struct Extent3d {
    pub width: u32,
    pub height: u32,
    pub depth: u32,
}

/// Abstract copy origin; `z` is the depth coordinate for a volume texture and
/// the starting array layer otherwise.
#[derive(Clone, Copy, Debug, PartialEq, Eq, Structural)]
pub struct Origin3d {
    pub x: u32,
    pub y: u32,
    pub z: u32,
}

/// Dimensionality a texture was declared with.
#[derive(Clone, Copy, Debug, PartialEq, Eq, Structural)]
pub enum TextureDimension {
    D1,
    D2,
    D3,
}

/// Texel-block description of a texture format: byte size of one block and the
/// block's width and height in texels.
#[derive(Clone, Copy, Debug, PartialEq, Eq, Structural)]
pub struct FormatInfo {
    pub block_size: u8,
    pub block_width: u8,
    pub block_height: u8,
}

impl FormatInfo {
    /// A format's block is at least one byte and one texel in each direction.
    pub open spec fn wf(self) -> bool {
        self.block_size >= 1 && self.block_width >= 1 && self.block_height >= 1
    }
}

/// A texture as this layer reads it: the native image handle and the declared
/// geometry the translators need.
#[derive(Clone, Copy, Debug, PartialEq, Eq, Structural)]
pub struct Texture {
    pub raw: u64,
    pub dim: TextureDimension,
    pub aspects: u32,
    pub format_info: FormatInfo,
}

/// One corner of a texture copy: mip level, origin, and the aspects the copy
/// touches.
#[derive(Clone, Copy, Debug, PartialEq, Eq, Structural)]
pub struct TextureCopyBase {
    pub mip_level: u32,
    pub origin: Origin3d,
    pub aspect: u32,
}

/// Linear layout of texture data in a buffer. An unset pitch means "tightly
/// packed" and is encoded to the native layer as 0 ("infer from the extent").
#[derive(Clone, Copy, Debug)]
pub struct BufferLayout {
    pub offset: u64,
    pub bytes_per_row: Option<u32>,
    pub rows_per_image: Option<u32>,
}

impl BufferLayout {
    /// The plane pitch in texel rows stays within the native 32-bit field.
    pub open spec fn rows_fit(self, format_info: FormatInfo) -> bool {
        self.rows_per_image is Some ==> self.rows_per_image->Some_0
            * (format_info.block_height as int) <= u32::MAX
    }
}

/// One region of a buffer-to-texture or texture-to-buffer copy.
#[derive(Clone, Copy, Debug)]
pub struct BufferTextureCopy {
    pub buffer_layout: BufferLayout,
    pub texture_base: TextureCopyBase,
    pub size: Extent3d,
}

/// One region of a texture-to-texture copy.
#[derive(Clone, Copy, Debug, PartialEq, Eq, Structural)]
pub struct TextureCopy {
    pub src_base: TextureCopyBase,
    pub dst_base: TextureCopyBase,
    pub size: Extent3d,
}

/// A subresource range of a texture barrier; unset counts default to all
/// remaining mips/layers.
#[derive(Clone, Copy, Debug)]
pub struct ImageRange {
    pub aspects: u32,
    pub base_mip_level: u32,
    pub mip_level_count: Option<u32>,
    pub base_array_layer: u32,
    pub array_layer_count: Option<u32>,
}

/// Native 3D extent in texels (depth is always a depth, never a layer count).
#[derive(Clone, Copy, Debug, PartialEq, Eq, Structural)]
pub struct ImageExtent {
    pub width: u32,
    pub height: u32,
    pub depth: u32,
}

/// Native 3D offset in texels.
#[derive(Clone, Copy, Debug, PartialEq, Eq, Structural)]
pub struct ImageOffset {
    pub x: u32,
    pub y: u32,
    pub z: u32,
}

/// Native subresource-layers descriptor of one copy corner.
#[derive(Clone, Copy, Debug, PartialEq, Eq, Structural)]
pub struct ImageSubresourceLayers {
    pub aspect_mask: u32,
    pub mip_level: u32,
    pub base_array_layer: u32,
    pub layer_count: u32,
}

/// Native subresource-range descriptor of a texture barrier.
#[derive(Clone, Copy, Debug, PartialEq, Eq, Structural)]
pub struct ImageSubresourceRange {
    pub aspect_mask: u32,
    pub base_mip_level: u32,
    pub level_count: u32,
    pub base_array_layer: u32,
    pub layer_count: u32,
}

/// Native buffer-image copy-region descriptor.
#[derive(Clone, Copy, Debug, PartialEq, Eq, Structural)]
pub struct BufferImageCopy {
    pub buffer_offset: u64,
    pub buffer_row_length: u32,
    pub buffer_image_height: u32,
    pub image_subresource: ImageSubresourceLayers,
    pub image_offset: ImageOffset,
    pub image_extent: ImageExtent,
}

/// Native image-image copy-region descriptor.
#[derive(Clone, Copy, Debug, PartialEq, Eq, Structural)]
pub struct ImageCopy {
    pub src_subresource: ImageSubresourceLayers,
    pub src_offset: ImageOffset,
    pub dst_subresource: ImageSubresourceLayers,
    pub dst_offset: ImageOffset,
    pub extent: ImageExtent,
}

/// Layer count of a copy: a volume texture always copies one layer; for the
/// other dimensionalities the abstract depth is the layer count.
pub open spec fn layer_count_of(size: Extent3d, dim: TextureDimension) -> u32 {
    if dim is D3 { 1 } else { size.depth }
}

/// Native extent of a copy: the abstract depth is a real depth only for a
/// volume texture.
pub open spec fn image_extent_of(size: Extent3d, dim: TextureDimension) -> ImageExtent {
    ImageExtent {
        width: size.width,
        height: size.height,
        depth: if dim is D3 { size.depth } else { 1 },
    }
}

/// Base array layer of a copy corner: the abstract z origin, except for a
/// volume texture, which has no layers.
pub open spec fn base_array_layer_of(origin: Origin3d, dim: TextureDimension) -> u32 {
    if dim is D3 { 0 } else { origin.z }
}

/// Native z offset of a copy corner: the abstract z origin only for a volume
/// texture.
pub open spec fn origin_z_of(origin: Origin3d, dim: TextureDimension) -> u32 {
    if dim is D3 { origin.z } else { 0 }
}

/// Native subresource layers of a copy corner: the requested aspects limited
/// to those the texture declares.
pub open spec fn subresource_layers_of(
    base: TextureCopyBase,
    dim: TextureDimension,
    aspects: u32,
    layer_count: u32,
) -> ImageSubresourceLayers {
    ImageSubresourceLayers {
        aspect_mask: aspects & base.aspect,
        mip_level: base.mip_level,
        base_array_layer: base_array_layer_of(base.origin, dim),
        layer_count: layer_count,
    }
}

/// Native offset of a copy corner.
pub open spec fn image_offset_of(base: TextureCopyBase, dim: TextureDimension) -> ImageOffset {
    ImageOffset {
        x: base.origin.x,
        y: base.origin.y,
        z: origin_z_of(base.origin, dim),
    }
}

/// Buffer row pitch in whole texel blocks; an unset pitch encodes as 0.
pub open spec fn row_length_of(bytes_per_row: Option<u32>, block_size: u8) -> u32 {
    match bytes_per_row {
        Option::Some(b) => ((b as int) / (block_size as int)) as u32,
        Option::None => 0,
    }
}

/// Buffer plane pitch in texel rows; an unset pitch encodes as 0.
pub open spec fn image_height_of(rows_per_image: Option<u32>, block_height: u8) -> u32 {
    match rows_per_image {
        Option::Some(r) => ((r as int) * (block_height as int)) as u32,
        Option::None => 0,
    }
}

/// Convert an abstract copy size into the native layer count and extent.
pub fn map_extent(size: Extent3d, dim: TextureDimension) -> (r: (u32, ImageExtent))
    ensures
        r.0 == layer_count_of(size, dim),
        r.1 == image_extent_of(size, dim),
{
    match dim {
        TextureDimension::D3 => (1, ImageExtent { width: size.width, height: size.height, depth: size.depth }),
        _ => (size.depth, ImageExtent { width: size.width, height: size.height, depth: 1 }),
    }
}

/// Convert one copy corner into native subresource layers and offset.
pub fn map_subresource_layers(
    base: &TextureCopyBase,
    dim: TextureDimension,
    aspects: u32,
    layer_count: u32,
) -> (r: (ImageSubresourceLayers, ImageOffset))
    ensures
        r.0 == subresource_layers_of(*base, dim, aspects, layer_count),
        r.1 == image_offset_of(*base, dim),
{
    let (base_array_layer, origin_z): (u32, u32) = match dim {
        TextureDimension::D3 => (0, base.origin.z),
        _ => (base.origin.z, 0),
    };
    let subresource = ImageSubresourceLayers {
        aspect_mask: aspects & base.aspect,
        mip_level: base.mip_level,
        base_array_layer: base_array_layer,
        layer_count: layer_count,
    };
    let offset = ImageOffset { x: base.origin.x, y: base.origin.y, z: origin_z };
    (subresource, offset)
}

/// Native subresource range of a barrier: requested aspects limited to the
/// declared ones, and unset counts defaulted to all remaining mips/layers.
pub open spec fn subresource_range_of(range: ImageRange, texture_aspects: u32)
    -> ImageSubresourceRange {
    ImageSubresourceRange {
        aspect_mask: texture_aspects & range.aspects,
        base_mip_level: range.base_mip_level,
        level_count: match range.mip_level_count {
            Option::Some(n) => n,
            Option::None => REMAINING_MIP_LEVELS,
        },
        base_array_layer: range.base_array_layer,
        layer_count: match range.array_layer_count {
            Option::Some(n) => n,
            Option::None => REMAINING_ARRAY_LAYERS,
        },
    }
}

/// Convert a barrier's requested range into the native subresource range.
pub fn map_subresource_range(range: &ImageRange, texture_aspects: u32)
    -> (r: ImageSubresourceRange)
    ensures
        r == subresource_range_of(*range, texture_aspects),
{
    ImageSubresourceRange {
        aspect_mask: texture_aspects & range.aspects,
        base_mip_level: range.base_mip_level,
        level_count: match range.mip_level_count {
            Option::Some(n) => n,
            Option::None => REMAINING_MIP_LEVELS,
        },
        base_array_layer: range.base_array_layer,
        layer_count: match range.array_layer_count {
            Option::Some(n) => n,
            Option::None => REMAINING_ARRAY_LAYERS,
        },
    }
}

impl Texture {
    /// The native buffer-image region for one abstract region of this texture.
    pub open spec fn buffer_image_copy_of(self, r: BufferTextureCopy) -> BufferImageCopy {
        BufferImageCopy {
            buffer_offset: r.buffer_layout.offset,
            buffer_row_length: row_length_of(r.buffer_layout.bytes_per_row,
                self.format_info.block_size),
            buffer_image_height: image_height_of(r.buffer_layout.rows_per_image,
                self.format_info.block_height),
            image_subresource: subresource_layers_of(r.texture_base, self.dim, self.aspects,
                layer_count_of(r.size, self.dim)),
            image_offset: image_offset_of(r.texture_base, self.dim),
            image_extent: image_extent_of(r.size, self.dim),
        }
    }

    /// Translate every abstract buffer-texture region into its native
    /// buffer-image region, applying this texture's format pitch math.
    pub fn map_buffer_copies(&self, regions: &Vec<BufferTextureCopy>)
        -> (out: Vec<BufferImageCopy>)
        requires
            self.format_info.wf(),
            forall|i: int| 0 <= i < regions@.len()
                ==> (#[trigger] regions@[i]).buffer_layout.rows_fit(self.format_info),
        ensures
            out@.len() == regions@.len(),
            forall|i: int| 0 <= i < regions@.len()
                ==> out@[i] == self.buffer_image_copy_of(#[trigger] regions@[i]),
    {
        let mut out: Vec<BufferImageCopy> = Vec::new();
        let mut idx: usize = 0;
        while idx < regions.len()
            invariant
                self.format_info.wf(),
                forall|i: int| 0 <= i < regions@.len()
                    ==> (#[trigger] regions@[i]).buffer_layout.rows_fit(self.format_info),
                idx <= regions@.len(),
                out@.len() == idx,
                forall|i: int| 0 <= i < idx
                    ==> out@[i] == self.buffer_image_copy_of(#[trigger] regions@[i]),
            decreases regions@.len() - idx,
        {
            let r = regions[idx];
            let (layer_count, image_extent) = map_extent(r.size, self.dim);
            let (image_subresource, image_offset) =
                map_subresource_layers(&r.texture_base, self.dim, self.aspects, layer_count);
            let buffer_row_length: u32 = match r.buffer_layout.bytes_per_row {
                Option::Some(b) => b / (self.format_info.block_size as u32),
                Option::None => 0,
            };
            let buffer_image_height: u32 = match r.buffer_layout.rows_per_image {
                Option::Some(rows) => rows * (self.format_info.block_height as u32),
                Option::None => 0,
            };
            out.push(BufferImageCopy {
                buffer_offset: r.buffer_layout.offset,
                buffer_row_length: buffer_row_length,
                buffer_image_height: buffer_image_height,
                image_subresource: image_subresource,
                image_offset: image_offset,
                image_extent: image_extent,
            });
            idx = idx + 1;
        }
        out
    }
}

/// Round-trip pitch-math law: a row pitch that is a whole number of texel
/// blocks translates to that number of blocks, and multiplying back by the
/// block size recovers the pitch exactly; an unset pitch translates to 0.
pub proof fn lemma_row_pitch_round_trip(bytes_per_row: u32, block_size: u8)
    requires
        block_size >= 1,
        bytes_per_row as int % (block_size as int) == 0,
    ensures
        row_length_of(Some(bytes_per_row), block_size) * (block_size as int)
            == bytes_per_row as int,
        row_length_of(None, block_size) == 0,
{
    let b = bytes_per_row as int;
    let s = block_size as int;
    vstd::arithmetic::div_mod::lemma_fundamental_div_mod(b, s);
    assert(b / s <= b && b / s >= 0) by (nonlinear_arith)
        requires b >= 0 && s >= 1,
    ;
    assert(row_length_of(Some(bytes_per_row), block_size) == b / s);
    assert((b / s) * s == s * (b / s)) by (nonlinear_arith);
}

} // verus!
