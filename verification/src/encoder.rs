//! The command encoder: a pool of native command-buffer handles (free list,
//! discard list, at most one active recording) and the recording calls that
//! translate transition and copy batches into native call descriptors.
//!
//! Handles are the native API's plain 64-bit handle values. The encoder never
//! performs a native call itself: each recording function returns the exact
//! descriptor batch the one native call is handed.

use vstd::prelude::*;
use vstd::multiset::Multiset;

use crate::barrier::buffer_usage_access;
use crate::barrier::buffer_usage_stages;
use crate::barrier::image_layout_for;
use crate::barrier::map_buffer_usage_to_barrier;
use crate::barrier::map_texture_usage_to_barrier;
use crate::barrier::derive_image_layout;
use crate::barrier::texture_usage_access;
use crate::barrier::texture_usage_stages;
use crate::flags::ImageLayout;
use crate::regions::BufferImageCopy;
use crate::regions::BufferTextureCopy;
use crate::regions::ImageCopy;
use crate::regions::ImageRange;
use crate::regions::ImageSubresourceRange;
use crate::regions::Texture;
use crate::regions::TextureCopy;
use crate::regions::image_extent_of;
use crate::regions::image_offset_of;
use crate::regions::layer_count_of;
use crate::regions::map_extent;
use crate::regions::map_subresource_layers;
use crate::regions::map_subresource_range;
use crate::regions::subresource_layers_of;
use crate::regions::subresource_range_of;

verus! {

/// How many command buffers one native allocation call asks for when the free
/// list runs dry; a larger batch amortizes allocation calls.
pub const ALLOCATION_GRANULARITY: u32 = 16;

/// Native value meaning "the whole remaining size of the buffer".
pub const WHOLE_SIZE: u64 = 0xFFFF_FFFF_FFFF_FFFF;

/// A buffer as this layer reads it: the native handle.
#[derive(Clone, Copy, Debug, PartialEq, Eq, Structural)]
pub struct Buffer {
    pub raw: u64,
}

/// A sealed recording, handed to the caller by `end_encoding`; the caller owns
/// it until it comes back through `reset_all`.
#[derive(Clone, Copy, Debug, PartialEq, Eq, Structural)]
pub struct CommandBuffer {
    pub raw: u64,
}

/// A half-open range of abstract usage states: the state before and the state
/// after a transition.
#[derive(Clone, Copy, Debug, PartialEq, Eq, Structural)]
pub struct UsageRange {
    pub start: u32,
    pub end: u32,
}

/// A byte range of a buffer.
#[derive(Clone, Copy, Debug, PartialEq, Eq, Structural)]
pub struct MemoryRange {
    pub start: u64,
    pub end: u64,
}

/// A requested usage transition of one buffer.
#[derive(Clone, Copy, Debug, PartialEq, Eq, Structural)]
pub struct BufferBarrier {
    pub buffer: Buffer,
    pub usage: UsageRange,
}

/// A requested usage transition of a texture subresource range.
#[derive(Clone, Copy, Debug)]
pub struct TextureBarrier {
    pub texture: Texture,
    pub range: ImageRange,
    pub usage: UsageRange,
}

/// One region of a buffer-to-buffer copy.
#[derive(Clone, Copy, Debug, PartialEq, Eq, Structural)]
pub struct BufferCopy {
    pub src_offset: u64,
    pub dst_offset: u64,
    pub size: u64,
}

/// Native per-buffer barrier descriptor.
#[derive(Clone, Copy, Debug, PartialEq, Eq, Structural)]
pub struct BufferMemoryBarrier {
    pub buffer: u64,
    pub size: u64,
    pub src_access: u32,
    pub dst_access: u32,
}

/// Native per-image barrier descriptor.
#[derive(Clone, Copy, Debug, PartialEq, Eq, Structural)]
pub struct ImageMemoryBarrier {
    pub image: u64,
    pub range: ImageSubresourceRange,
    pub src_access: u32,
    pub dst_access: u32,
    pub old_layout: ImageLayout,
    pub new_layout: ImageLayout,
}

/// Everything one native pipeline-barrier call on buffers is handed: the
/// OR-accumulated stage masks of the whole batch and one descriptor per
/// barrier.
#[derive(Debug)]
pub struct BufferBarrierBatch {
    pub src_stages: u32,
    pub dst_stages: u32,
    pub barriers: Vec<BufferMemoryBarrier>,
}

/// Everything one native pipeline-barrier call on images is handed.
#[derive(Debug)]
pub struct ImageBarrierBatch {
    pub src_stages: u32,
    pub dst_stages: u32,
    pub barriers: Vec<ImageMemoryBarrier>,
}

/// Everything one native buffer-copy call is handed.
#[derive(Debug)]
pub struct BufferCopyBatch {
    pub src: u64,
    pub dst: u64,
    pub regions: Vec<BufferCopy>,
}

/// Everything one native image-copy call is handed.
#[derive(Debug)]
pub struct ImageCopyBatch {
    pub src: u64,
    pub src_layout: ImageLayout,
    pub dst: u64,
    pub dst_layout: ImageLayout,
    pub regions: Vec<ImageCopy>,
}

/// Everything one native buffer-to-image copy call is handed.
#[derive(Debug)]
pub struct BufferToTextureBatch {
    pub src_buffer: u64,
    pub dst_image: u64,
    pub dst_layout: ImageLayout,
    pub regions: Vec<BufferImageCopy>,
}

/// Everything one native image-to-buffer copy call is handed.
#[derive(Debug)]
pub struct TextureToBufferBatch {
    pub src_image: u64,
    pub src_layout: ImageLayout,
    pub dst_buffer: u64,
    pub regions: Vec<BufferImageCopy>,
}

/// Everything one native fill call is handed; the pattern is the fill byte
/// replicated across 32 bits.
#[derive(Clone, Copy, Debug, PartialEq, Eq, Structural)]
pub struct FillBufferCommand {
    pub buffer: u64,
    pub offset: u64,
    pub size: u64,
    pub pattern: u32,
}

/// OR of the first `n` values of a sequence of masks.
pub open spec fn or_fold_prefix(values: Seq<u32>, n: int) -> u32
    decreases n,
{
    if n <= 0 { 0 } else { or_fold_prefix(values, n - 1) | values[n - 1] }
}

/// Stage masks every buffer barrier of a batch leaves, OR-combined.
pub open spec fn buffer_batch_src_stages(barriers: Seq<BufferBarrier>) -> u32 {
    or_fold_prefix(
        barriers.map_values(|b: BufferBarrier| buffer_usage_stages(b.usage.start)),
        barriers.len() as int,
    )
}

/// Stage masks every buffer barrier of a batch enters, OR-combined.
pub open spec fn buffer_batch_dst_stages(barriers: Seq<BufferBarrier>) -> u32 {
    or_fold_prefix(
        barriers.map_values(|b: BufferBarrier| buffer_usage_stages(b.usage.end)),
        barriers.len() as int,
    )
}

/// Stage masks every texture barrier of a batch leaves, OR-combined.
pub open spec fn texture_batch_src_stages(barriers: Seq<TextureBarrier>) -> u32 {
    or_fold_prefix(
        barriers.map_values(|b: TextureBarrier| texture_usage_stages(b.usage.start)),
        barriers.len() as int,
    )
}

/// Stage masks every texture barrier of a batch enters, OR-combined.
pub open spec fn texture_batch_dst_stages(barriers: Seq<TextureBarrier>) -> u32 {
    or_fold_prefix(
        barriers.map_values(|b: TextureBarrier| texture_usage_stages(b.usage.end)),
        barriers.len() as int,
    )
}

/// The native barrier descriptor of one buffer transition: per-barrier access
/// masks over the buffer's whole size.
pub open spec fn buffer_memory_barrier_of(b: BufferBarrier) -> BufferMemoryBarrier {
    BufferMemoryBarrier {
        buffer: b.buffer.raw,
        size: WHOLE_SIZE,
        src_access: buffer_usage_access(b.usage.start),
        dst_access: buffer_usage_access(b.usage.end),
    }
}

/// The native barrier descriptor of one texture transition: per-barrier access
/// masks, old and new layout, and the precise subresource range.
pub open spec fn image_memory_barrier_of(b: TextureBarrier) -> ImageMemoryBarrier {
    ImageMemoryBarrier {
        image: b.texture.raw,
        range: subresource_range_of(b.range, b.texture.aspects),
        src_access: texture_usage_access(b.usage.start),
        dst_access: texture_usage_access(b.usage.end),
        old_layout: image_layout_for(b.usage.start),
        new_layout: image_layout_for(b.usage.end),
    }
}

/// The native region of one texture-to-texture copy.
pub open spec fn image_copy_of(src: Texture, dst: Texture, r: TextureCopy) -> ImageCopy {
    ImageCopy {
        src_subresource: subresource_layers_of(r.src_base, src.dim, src.aspects,
            layer_count_of(r.size, src.dim)),
        src_offset: image_offset_of(r.src_base, src.dim),
        dst_subresource: subresource_layers_of(r.dst_base, dst.dim, dst.aspects,
            layer_count_of(r.size, src.dim)),
        dst_offset: image_offset_of(r.dst_base, dst.dim),
        extent: image_extent_of(r.size, src.dim),
    }
}

/// The command-buffer pool and recording state: handles ready to record into,
/// abandoned recordings awaiting the pool reset, and at most one recording in
/// progress.
#[derive(Debug)]
pub struct CommandEncoder {
    pub free: Vec<u64>,
    pub discarded: Vec<u64>,
    pub active: Option<u64>,
}

impl CommandEncoder {
    /// Every handle this pool currently holds, as a multiset: the free list,
    /// the discard list, and the active recording if there is one. Handles
    /// handed out by `end_encoding` and not yet returned are not in it.
    pub open spec fn pool_contents(self) -> Multiset<u64> {
        self.free@.to_multiset().add(self.discarded@.to_multiset()).add(
            match self.active {
                Option::Some(h) => Multiset::empty().insert(h),
                Option::None => Multiset::empty(),
            },
        )
    }

    /// A fresh encoder: no handles, nothing recording.
    pub fn new() -> (r: Self)
        ensures
            r.free@.len() == 0,
            r.discarded@.len() == 0,
            r.active is None,
            r.pool_contents() == Multiset::<u64>::empty(),
    {
        let r = CommandEncoder { free: Vec::new(), discarded: Vec::new(), active: None };
        proof {
            broadcast use vstd::seq_lib::group_to_multiset_ensures;
            broadcast use vstd::multiset::group_multiset_axioms;
            assert(r.pool_contents() =~= Multiset::<u64>::empty());
        }
        r
    }

    /// Whether `begin_encoding` needs a fresh allocation batch first.
    pub fn needs_allocation(&self) -> (r: bool)
        ensures
            r == (self.free@.len() == 0),
    {
        self.free.len() == 0
    }

    /// Append a freshly allocated batch of handles to the free list.
    pub fn provide_buffers(&mut self, buffers: Vec<u64>)
        ensures
            final(self).free@ == old(self).free@ + buffers@,
            final(self).discarded@ == old(self).discarded@,
            final(self).active == old(self).active,
            final(self).pool_contents()
                == old(self).pool_contents().add(buffers@.to_multiset()),
    {
        let mut buffers = buffers;
        let ghost added = buffers@;
        self.free.append(&mut buffers);
        proof {
            broadcast use vstd::multiset::group_multiset_axioms;
            vstd::seq_lib::lemma_multiset_commutative(old(self).free@, added);
            assert(self.pool_contents()
                =~= old(self).pool_contents().add(added.to_multiset()));
        }
    }

    /// Take one free handle and make it the active recording. The caller must
    /// have replenished the free list first and must not already be recording.
    pub fn begin_encoding(&mut self) -> (raw: u64)
        requires
            old(self).active is None,
            old(self).free@.len() > 0,
        ensures
            raw == old(self).free@.last(),
            final(self).free@ == old(self).free@.drop_last(),
            final(self).discarded@ == old(self).discarded@,
            final(self).active == Some(raw),
            final(self).pool_contents() == old(self).pool_contents(),
    {
        let raw = self.free.pop().unwrap();
        self.active = Some(raw);
        proof {
            broadcast use vstd::seq_lib::group_to_multiset_ensures;
            broadcast use vstd::multiset::group_multiset_axioms;
            assert(old(self).free@ =~= self.free@.push(raw));
            assert(old(self).free@.to_multiset() =~= self.free@.to_multiset().insert(raw));
            assert(self.pool_contents() =~= old(self).pool_contents());
        }
        raw
    }

    /// Seal the active recording and hand it out; the caller owns the sealed
    /// buffer until it returns through `reset_all`.
    pub fn end_encoding(&mut self) -> (r: CommandBuffer)
        requires
            old(self).active is Some,
        ensures
            r.raw == old(self).active->Some_0,
            final(self).free@ == old(self).free@,
            final(self).discarded@ == old(self).discarded@,
            final(self).active is None,
            old(self).pool_contents() == final(self).pool_contents().insert(r.raw),
    {
        let raw = self.active.unwrap();
        self.active = None;
        proof {
            broadcast use vstd::multiset::group_multiset_axioms;
            assert(old(self).pool_contents() =~= self.pool_contents().insert(raw));
        }
        CommandBuffer { raw }
    }

    /// Abandon the active recording without submitting it; the handle waits on
    /// the discard list until the pool-level reset makes it reusable.
    pub fn discard_encoding(&mut self)
        requires
            old(self).active is Some,
        ensures
            final(self).free@ == old(self).free@,
            final(self).discarded@ == old(self).discarded@.push(old(self).active->Some_0),
            final(self).active is None,
            final(self).pool_contents() == old(self).pool_contents(),
    {
        let raw = self.active.unwrap();
        self.discarded.push(raw);
        self.active = None;
        proof {
            broadcast use vstd::seq_lib::group_to_multiset_ensures;
            broadcast use vstd::multiset::group_multiset_axioms;
            assert(self.pool_contents() =~= old(self).pool_contents());
        }
    }

    /// Return previously submitted buffers, together with every discarded one,
    /// to the free list. The native pool-level reset that makes them
    /// recordable again follows this bookkeeping; the caller guarantees none
    /// of them is still executing.
    pub fn reset_all(&mut self, cmd_bufs: &Vec<CommandBuffer>)
        ensures
            final(self).free@ == old(self).free@
                + cmd_bufs@.map_values(|cb: CommandBuffer| cb.raw) + old(self).discarded@,
            final(self).discarded@.len() == 0,
            final(self).active == old(self).active,
            final(self).pool_contents() == old(self).pool_contents().add(
                cmd_bufs@.map_values(|cb: CommandBuffer| cb.raw).to_multiset()),
    {
        let ghost returned = cmd_bufs@.map_values(|cb: CommandBuffer| cb.raw);
        let mut i: usize = 0;
        while i < cmd_bufs.len()
            invariant
                i <= cmd_bufs@.len(),
                returned == cmd_bufs@.map_values(|cb: CommandBuffer| cb.raw),
                self.free@ == old(self).free@ + returned.subrange(0, i as int),
                self.discarded@ == old(self).discarded@,
                self.active == old(self).active,
            decreases cmd_bufs@.len() - i,
        {
            self.free.push(cmd_bufs[i].raw);
            proof {
                assert(returned.subrange(0, (i + 1) as int)
                    =~= returned.subrange(0, i as int).push(returned[i as int]));
            }
            i = i + 1;
        }
        proof {
            assert(returned.subrange(0, returned.len() as int) =~= returned);
        }
        let mut j: usize = 0;
        while j < self.discarded.len()
            invariant
                j <= self.discarded@.len(),
                self.discarded@ == old(self).discarded@,
                self.free@ == old(self).free@ + returned
                    + old(self).discarded@.subrange(0, j as int),
                self.active == old(self).active,
            decreases self.discarded@.len() - j,
        {
            let h = self.discarded[j];
            self.free.push(h);
            proof {
                assert(old(self).discarded@.subrange(0, (j + 1) as int)
                    =~= old(self).discarded@.subrange(0, j as int).push(
                        old(self).discarded@[j as int]));
            }
            j = j + 1;
        }
        proof {
            assert(old(self).discarded@.subrange(0, old(self).discarded@.len() as int)
                =~= old(self).discarded@);
        }
        self.discarded.clear();
        proof {
            broadcast use vstd::multiset::group_multiset_axioms;
            broadcast use vstd::seq_lib::group_to_multiset_ensures;
            vstd::seq_lib::lemma_multiset_commutative(old(self).free@ + returned,
                old(self).discarded@);
            vstd::seq_lib::lemma_multiset_commutative(old(self).free@, returned);
            assert(Seq::<u64>::empty().to_multiset() =~= Multiset::<u64>::empty());
            assert(self.discarded@ =~= Seq::<u64>::empty());
            assert(self.pool_contents()
                =~= old(self).pool_contents().add(returned.to_multiset()));
        }
    }

    /// The handle recording calls are issued on.
    pub fn active_handle(&self) -> (raw: u64)
        requires
            self.active is Some,
        ensures
            raw == self.active->Some_0,
    {
        self.active.unwrap()
    }

    /// Translate a batch of buffer transitions into the one native
    /// pipeline-barrier call's arguments: OR-accumulated stage masks for the
    /// whole batch and one descriptor per barrier. An empty batch yields empty
    /// masks and no descriptors.
    pub fn transition_buffers(&self, barriers: &Vec<BufferBarrier>) -> (batch: BufferBarrierBatch)
        requires
            self.active is Some,
        ensures
            batch.barriers@.len() == barriers@.len(),
            forall|i: int| 0 <= i < barriers@.len()
                ==> batch.barriers@[i] == buffer_memory_barrier_of(#[trigger] barriers@[i]),
            batch.src_stages == buffer_batch_src_stages(barriers@),
            batch.dst_stages == buffer_batch_dst_stages(barriers@),
    {
        let ghost src_masks = barriers@.map_values(
            |b: BufferBarrier| buffer_usage_stages(b.usage.start));
        let ghost dst_masks = barriers@.map_values(
            |b: BufferBarrier| buffer_usage_stages(b.usage.end));
        let mut src_stages: u32 = 0;
        let mut dst_stages: u32 = 0;
        let mut out: Vec<BufferMemoryBarrier> = Vec::new();
        let mut idx: usize = 0;
        while idx < barriers.len()
            invariant
                idx <= barriers@.len(),
                src_masks == barriers@.map_values(
                    |b: BufferBarrier| buffer_usage_stages(b.usage.start)),
                dst_masks == barriers@.map_values(
                    |b: BufferBarrier| buffer_usage_stages(b.usage.end)),
                src_stages == or_fold_prefix(src_masks, idx as int),
                dst_stages == or_fold_prefix(dst_masks, idx as int),
                out@.len() == idx,
                forall|i: int| 0 <= i < idx
                    ==> out@[i] == buffer_memory_barrier_of(#[trigger] barriers@[i]),
            decreases barriers@.len() - idx,
        {
            let bar = barriers[idx];
            let (src_stage, src_access) = map_buffer_usage_to_barrier(bar.usage.start);
            src_stages = src_stages | src_stage;
            let (dst_stage, dst_access) = map_buffer_usage_to_barrier(bar.usage.end);
            dst_stages = dst_stages | dst_stage;
            out.push(BufferMemoryBarrier {
                buffer: bar.buffer.raw,
                size: WHOLE_SIZE,
                src_access: src_access,
                dst_access: dst_access,
            });
            idx = idx + 1;
        }
        BufferBarrierBatch { src_stages, dst_stages, barriers: out }
    }

    /// Translate a batch of texture transitions into the one native
    /// pipeline-barrier call's arguments, each descriptor carrying its own
    /// access masks, old/new layouts, and subresource range.
    pub fn transition_textures(&self, barriers: &Vec<TextureBarrier>) -> (batch: ImageBarrierBatch)
        requires
            self.active is Some,
        ensures
            batch.barriers@.len() == barriers@.len(),
            forall|i: int| 0 <= i < barriers@.len()
                ==> batch.barriers@[i] == image_memory_barrier_of(#[trigger] barriers@[i]),
            batch.src_stages == texture_batch_src_stages(barriers@),
            batch.dst_stages == texture_batch_dst_stages(barriers@),
    {
        let ghost src_masks = barriers@.map_values(
            |b: TextureBarrier| texture_usage_stages(b.usage.start));
        let ghost dst_masks = barriers@.map_values(
            |b: TextureBarrier| texture_usage_stages(b.usage.end));
        let mut src_stages: u32 = 0;
        let mut dst_stages: u32 = 0;
        let mut out: Vec<ImageMemoryBarrier> = Vec::new();
        let mut idx: usize = 0;
        while idx < barriers.len()
            invariant
                idx <= barriers@.len(),
                src_masks == barriers@.map_values(
                    |b: TextureBarrier| texture_usage_stages(b.usage.start)),
                dst_masks == barriers@.map_values(
                    |b: TextureBarrier| texture_usage_stages(b.usage.end)),
                src_stages == or_fold_prefix(src_masks, idx as int),
                dst_stages == or_fold_prefix(dst_masks, idx as int),
                out@.len() == idx,
                forall|i: int| 0 <= i < idx
                    ==> out@[i] == image_memory_barrier_of(#[trigger] barriers@[i]),
            decreases barriers@.len() - idx,
        {
            let bar = &barriers[idx];
            let range = map_subresource_range(&bar.range, bar.texture.aspects);
            let (src_stage, src_access) = map_texture_usage_to_barrier(bar.usage.start);
            let src_layout = derive_image_layout(bar.usage.start);
            src_stages = src_stages | src_stage;
            let (dst_stage, dst_access) = map_texture_usage_to_barrier(bar.usage.end);
            let dst_layout = derive_image_layout(bar.usage.end);
            dst_stages = dst_stages | dst_stage;
            out.push(ImageMemoryBarrier {
                image: bar.texture.raw,
                range: range,
                src_access: src_access,
                dst_access: dst_access,
                old_layout: src_layout,
                new_layout: dst_layout,
            });
            idx = idx + 1;
        }
        ImageBarrierBatch { src_stages, dst_stages, barriers: out }
    }

    /// Translate a fill of a byte range with one byte value into the native
    /// fill call's arguments; the byte is replicated across the 32-bit
    /// pattern. Only patterns expressible as a repeated byte are supported.
    pub fn fill_buffer(&self, buffer: &Buffer, range: MemoryRange, value: u8)
        -> (cmd: FillBufferCommand)
        requires
            self.active is Some,
            range.start <= range.end,
        ensures
            cmd.buffer == buffer.raw,
            cmd.offset == range.start,
            cmd.size == range.end - range.start,
            cmd.pattern == (value as int) * 0x0101_0101,
    {
        proof {
            assert((value as int) * 0x0101_0101 <= 0xFFFF_FFFF) by (nonlinear_arith)
                requires value <= 255,
            ;
        }
        let pattern: u32 = (value as u32) * 0x0101_0101;
        FillBufferCommand {
            buffer: buffer.raw,
            offset: range.start,
            size: range.end - range.start,
            pattern: pattern,
        }
    }

    /// Translate a batch of buffer-to-buffer copy regions into the one native
    /// copy call's arguments.
    pub fn copy_buffer_to_buffer(&self, src: &Buffer, dst: &Buffer, regions: &Vec<BufferCopy>)
        -> (batch: BufferCopyBatch)
        requires
            self.active is Some,
        ensures
            batch.src == src.raw,
            batch.dst == dst.raw,
            batch.regions@ == regions@,
    {
        let mut out: Vec<BufferCopy> = Vec::new();
        let mut idx: usize = 0;
        while idx < regions.len()
            invariant
                idx <= regions@.len(),
                out@ == regions@.subrange(0, idx as int),
            decreases regions@.len() - idx,
        {
            out.push(regions[idx]);
            proof {
                assert(regions@.subrange(0, (idx + 1) as int)
                    =~= regions@.subrange(0, idx as int).push(regions@[idx as int]));
            }
            idx = idx + 1;
        }
        proof {
            assert(regions@.subrange(0, regions@.len() as int) =~= regions@);
        }
        BufferCopyBatch { src: src.raw, dst: dst.raw, regions: out }
    }

    /// Translate a batch of texture-to-texture copy regions into the one
    /// native copy call's arguments. The source must be in the layout its
    /// usage state requires; the destination is always in the
    /// transfer-destination-optimal layout.
    pub fn copy_texture_to_texture(
        &self,
        src: &Texture,
        src_usage: u32,
        dst: &Texture,
        regions: &Vec<TextureCopy>,
    ) -> (batch: ImageCopyBatch)
        requires
            self.active is Some,
        ensures
            batch.src == src.raw,
            batch.src_layout == image_layout_for(src_usage),
            batch.dst == dst.raw,
            batch.dst_layout == ImageLayout::TransferDstOptimal,
            batch.regions@.len() == regions@.len(),
            forall|i: int| 0 <= i < regions@.len()
                ==> batch.regions@[i] == image_copy_of(*src, *dst, #[trigger] regions@[i]),
    {
        let src_layout = derive_image_layout(src_usage);
        let mut out: Vec<ImageCopy> = Vec::new();
        let mut idx: usize = 0;
        while idx < regions.len()
            invariant
                idx <= regions@.len(),
                out@.len() == idx,
                forall|i: int| 0 <= i < idx
                    ==> out@[i] == image_copy_of(*src, *dst, #[trigger] regions@[i]),
            decreases regions@.len() - idx,
        {
            let r = regions[idx];
            let (layer_count, extent) = map_extent(r.size, src.dim);
            let (src_subresource, src_offset) =
                map_subresource_layers(&r.src_base, src.dim, src.aspects, layer_count);
            let (dst_subresource, dst_offset) =
                map_subresource_layers(&r.dst_base, dst.dim, dst.aspects, layer_count);
            out.push(ImageCopy {
                src_subresource: src_subresource,
                src_offset: src_offset,
                dst_subresource: dst_subresource,
                dst_offset: dst_offset,
                extent: extent,
            });
            idx = idx + 1;
        }
        ImageCopyBatch {
            src: src.raw,
            src_layout: src_layout,
            dst: dst.raw,
            dst_layout: ImageLayout::TransferDstOptimal,
            regions: out,
        }
    }

    /// Translate a batch of buffer-to-texture copy regions into the one native
    /// copy call's arguments; the destination image is always in the
    /// transfer-destination-optimal layout.
    pub fn copy_buffer_to_texture(
        &self,
        src: &Buffer,
        dst: &Texture,
        regions: &Vec<BufferTextureCopy>,
    ) -> (batch: BufferToTextureBatch)
        requires
            self.active is Some,
            dst.format_info.wf(),
            forall|i: int| 0 <= i < regions@.len()
                ==> (#[trigger] regions@[i]).buffer_layout.rows_fit(dst.format_info),
        ensures
            batch.src_buffer == src.raw,
            batch.dst_image == dst.raw,
            batch.dst_layout == ImageLayout::TransferDstOptimal,
            batch.regions@.len() == regions@.len(),
            forall|i: int| 0 <= i < regions@.len()
                ==> batch.regions@[i] == dst.buffer_image_copy_of(#[trigger] regions@[i]),
    {
        let out = dst.map_buffer_copies(regions);
        BufferToTextureBatch {
            src_buffer: src.raw,
            dst_image: dst.raw,
            dst_layout: ImageLayout::TransferDstOptimal,
            regions: out,
        }
    }

    /// Translate a batch of texture-to-buffer copy regions into the one native
    /// copy call's arguments; the source image must be in the layout its usage
    /// state requires.
    pub fn copy_texture_to_buffer(
        &self,
        src: &Texture,
        src_usage: u32,
        dst: &Buffer,
        regions: &Vec<BufferTextureCopy>,
    ) -> (batch: TextureToBufferBatch)
        requires
            self.active is Some,
            src.format_info.wf(),
            forall|i: int| 0 <= i < regions@.len()
                ==> (#[trigger] regions@[i]).buffer_layout.rows_fit(src.format_info),
        ensures
            batch.src_image == src.raw,
            batch.src_layout == image_layout_for(src_usage),
            batch.dst_buffer == dst.raw,
            batch.regions@.len() == regions@.len(),
            forall|i: int| 0 <= i < regions@.len()
                ==> batch.regions@[i] == src.buffer_image_copy_of(#[trigger] regions@[i]),
    {
        let src_layout = derive_image_layout(src_usage);
        let out = src.map_buffer_copies(regions);
        TextureToBufferBatch {
            src_image: src.raw,
            src_layout: src_layout,
            dst_buffer: dst.raw,
            regions: out,
        }
    }
}

/// Empty-batch law: a transition batch built from no barriers carries empty
/// stage masks and no descriptors, so the native call it describes is a
/// harmless no-op.
pub proof fn lemma_empty_batch_is_noop(bs: Seq<BufferBarrier>, ts: Seq<TextureBarrier>)
    requires
        bs.len() == 0,
        ts.len() == 0,
    ensures
        buffer_batch_src_stages(bs) == 0,
        buffer_batch_dst_stages(bs) == 0,
        texture_batch_src_stages(ts) == 0,
        texture_batch_dst_stages(ts) == 0,
{
}

/// Pool-accounting law: no handle is lost or duplicated across a recording
/// cycle. If a recording is begun, sealed, and the sealed buffer later comes
/// back through the pool reset, the pool holds exactly the handles it started
/// with.
pub proof fn lemma_pool_accounting_cycle(
    s0: CommandEncoder,
    s1: CommandEncoder,
    s2: CommandEncoder,
    s3: CommandEncoder,
    raw: u64,
)
    requires
        // a begin_encoding step
        s1.pool_contents() == s0.pool_contents(),
        // an end_encoding step that hands out `raw`
        s1.pool_contents() == s2.pool_contents().insert(raw),
        // a reset_all step that takes the one sealed buffer back
        s3.pool_contents() == s2.pool_contents().add(seq![raw].to_multiset()),
    ensures
        s3.pool_contents() == s0.pool_contents(),
{
    broadcast use vstd::multiset::group_multiset_axioms;
    broadcast use vstd::seq_lib::group_to_multiset_ensures;

    assert(seq![raw] =~= Seq::<u64>::empty().push(raw));
    assert(Seq::<u64>::empty().to_multiset() =~= Multiset::<u64>::empty());
    assert(seq![raw].to_multiset() =~= Multiset::<u64>::empty().insert(raw));
    assert(s3.pool_contents() =~= s0.pool_contents());
}

} // verus!
