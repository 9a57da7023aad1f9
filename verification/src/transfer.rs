//! Barriers, fills, copies and queries: the commands that need no pass.

use crate::barrier::{
    buffer_barriers, push_buffer_barriers, push_texture_barriers, texture_barriers,
    texture_barriers_wf, Barrier, BufferBarrier, TextureBarrier,
};
use crate::encoder::{
    lemma_emit_next, lemma_emit_nothing, CommandEncoder, EncoderView, ZERO_BUFFER_SIZE,
};
use crate::native::{Box3d, Command, CopyLocation, NativeCommand, PlacedFootprint};
use crate::resource::{
    Buffer, CopyExtent, Format, Origin3d, QuerySet, ResourceHandle, Texture, TextureCopyBase,
    QUERY_TYPE_TIMESTAMP, TEXTURE_DATA_PITCH_ALIGNMENT,
};
use crate::temp::TempView;
use crate::usage::TextureUses;
use core::ops::Range;
use vstd::prelude::*;
use vstd::slice::slice_to_vec;

verus! {

/// Bytes copied from one buffer into another.
#[derive(Clone, Copy, Debug, PartialEq, Eq, Structural)]
pub struct BufferCopy {
    pub src_offset: u64,
    pub dst_offset: u64,
    pub size: u64,
}

/// Texels copied from one texture into another.
#[derive(Clone, Copy, Debug, PartialEq, Eq, Structural)]
pub struct TextureCopy {
    pub src_base: TextureCopyBase,
    pub dst_base: TextureCopyBase,
    pub size: CopyExtent,
}

/// How the texels of a copy lie in a buffer: where they start, and the
/// bytes of a row and the rows of an image where they are not those of the
/// copied region.
#[derive(Clone, Copy, Debug, PartialEq, Eq, Structural)]
pub struct ImageDataLayout {
    pub offset: u64,
    pub bytes_per_row: Option<u32>,
    pub rows_per_image: Option<u32>,
}

/// Texels copied between a buffer and a texture.
#[derive(Clone, Copy, Debug, PartialEq, Eq, Structural)]
pub struct BufferTextureCopy {
    pub buffer_layout: ImageDataLayout,
    pub texture_base: TextureCopyBase,
    pub size: CopyExtent,
}

/// Whether the box of the given size at `origin` has corners that are
/// coordinates.
pub open spec fn box_fits(origin: Origin3d, size: CopyExtent) -> bool {
    &&& origin.x + size.width <= u32::MAX
    &&& origin.y + size.height <= u32::MAX
    &&& origin.z + size.depth <= u32::MAX
}

/// The box of the given size whose corner next to zero is `origin`.
pub open spec fn box_at(origin: Origin3d, size: CopyExtent) -> Box3d {
    Box3d {
        left: origin.x,
        top: origin.y,
        right: (origin.x + size.width) as u32,
        bottom: (origin.y + size.height) as u32,
        front: origin.z,
        back: (origin.z + size.depth) as u32,
    }
}

pub fn make_box(origin: &Origin3d, size: &CopyExtent) -> (b: Box3d)
    requires
        box_fits(*origin, *size),
    ensures
        b == box_at(*origin, *size),
{
    Box3d {
        left: origin.x,
        top: origin.y,
        right: origin.x + size.width,
        bottom: origin.y + size.height,
        front: origin.z,
        back: origin.z + size.depth,
    }
}

/// The number of copies that fill the bytes from `start` up to `end` with
/// zeros: as many as it takes when none is larger than the buffer of zeros.
pub open spec fn fill_copy_count(start: u64, end: u64) -> int {
    if start < end {
        (end - start + ZERO_BUFFER_SIZE - 1) / (ZERO_BUFFER_SIZE as int)
    } else {
        0
    }
}

/// Where the `i`-th of these copies starts.
pub open spec fn fill_copy_offset(start: u64, i: int) -> int {
    start + i * ZERO_BUFFER_SIZE
}

/// How many bytes the `i`-th of these copies fills.
pub open spec fn fill_copy_size(start: u64, end: u64, i: int) -> int {
    if end - fill_copy_offset(start, i) < ZERO_BUFFER_SIZE {
        end - fill_copy_offset(start, i)
    } else {
        ZERO_BUFFER_SIZE as int
    }
}

/// The `i`-th of these copies, from the start of the buffer of zeros.
pub open spec fn fill_copy(dst: ResourceHandle, zeros: ResourceHandle, start: u64, end: u64, i: int)
    -> Command {
    Command::Plain(
        NativeCommand::CopyBufferRegion {
            dst,
            dst_offset: fill_copy_offset(start, i) as u64,
            src: zeros,
            src_offset: 0,
            size: fill_copy_size(start, end, i) as u64,
        },
    )
}

/// The first `n` of these copies.
pub open spec fn fill_copies(
    dst: ResourceHandle,
    zeros: ResourceHandle,
    start: u64,
    end: u64,
    n: int,
) -> Seq<Command> {
    Seq::new(n as nat, |i: int| fill_copy(dst, zeros, start, end, i))
}

/// The copies that fill a range cover it exactly once and in order. There
/// are as many as the size of the range divided by the size of the buffer of
/// zeros, rounded up. Each fills at least one byte and at most that size;
/// the first starts where the range starts, each other where the one
/// before it ends, and the last ends where the range ends.
pub proof fn lemma_fill_covers(start: u64, end: u64)
    requires
        start < end,
    ensures
        fill_copy_count(start, end) >= 1,
        (fill_copy_count(start, end) - 1) * ZERO_BUFFER_SIZE < end - start <= fill_copy_count(
            start,
            end,
        ) * ZERO_BUFFER_SIZE,
        fill_copy_offset(start, 0) == start,
        forall|i: int|
            0 <= i < fill_copy_count(start, end) ==> 1 <= #[trigger] fill_copy_size(start, end, i)
                <= ZERO_BUFFER_SIZE,
        forall|i: int|
            0 <= i < fill_copy_count(start, end) - 1 ==> #[trigger] fill_copy_offset(start, i)
                + fill_copy_size(start, end, i) == fill_copy_offset(start, i + 1),
        fill_copy_offset(start, fill_copy_count(start, end) - 1) + fill_copy_size(
            start,
            end,
            fill_copy_count(start, end) - 1,
        ) == end,
{
}

/// The native copy for a region of a copy between buffers.
pub open spec fn buffer_copy_command(src: Buffer, dst: Buffer, region: BufferCopy) -> Command {
    Command::Plain(
        NativeCommand::CopyBufferRegion {
            dst: dst.resource,
            dst_offset: region.dst_offset,
            src: src.resource,
            src_offset: region.src_offset,
            size: region.size,
        },
    )
}

/// The native copies for a copy between buffers.
pub open spec fn buffer_copy_commands(src: Buffer, dst: Buffer, regions: Seq<BufferCopy>) -> Seq<
    Command,
> {
    regions.map_values(|region: BufferCopy| buffer_copy_command(src, dst, region))
}

/// The subresource of `texture` that a copy names, as one end of a native
/// copy.
pub open spec fn subresource_location(texture: Texture, base: TextureCopyBase) -> CopyLocation {
    CopyLocation::Subresource {
        resource: texture.resource,
        index: texture.subresource_index(base.mip_level as int, base.array_layer as int, 0) as u32,
    }
}

/// The texels of a copy in `buffer`, as one end of a native copy. A row
/// pitch below `min_row_pitch` is raised to it; without a row pitch it is
/// zero.
pub open spec fn footprint_location(
    buffer: Buffer,
    format: Format,
    region: BufferTextureCopy,
    min_row_pitch: u32,
) -> CopyLocation {
    CopyLocation::Footprint {
        resource: buffer.resource,
        footprint: PlacedFootprint {
            offset: region.buffer_layout.offset,
            format,
            width: region.size.width,
            height: match region.buffer_layout.rows_per_image {
                Some(rows) => rows,
                None => region.size.height,
            },
            depth: region.size.depth,
            row_pitch: match region.buffer_layout.bytes_per_row {
                Some(bytes) => if bytes < min_row_pitch {
                    min_row_pitch
                } else {
                    bytes
                },
                None => 0,
            },
        },
    }
}

/// Whether a region can be copied from `src` into `dst`.
pub open spec fn texture_copy_fits(src: Texture, dst: Texture, region: TextureCopy) -> bool {
    &&& src.has_subresource(region.src_base)
    &&& dst.has_subresource(region.dst_base)
    &&& box_fits(region.src_base.origin, region.size)
}

/// The native copy for a region of a copy between textures.
pub open spec fn texture_copy_command(src: Texture, dst: Texture, region: TextureCopy) -> Command {
    Command::Plain(
        NativeCommand::CopyTextureRegion {
            dst: subresource_location(dst, region.dst_base),
            dst_x: region.dst_base.origin.x,
            dst_y: region.dst_base.origin.y,
            dst_z: region.dst_base.origin.z,
            src: subresource_location(src, region.src_base),
            src_box: box_at(region.src_base.origin, region.size),
        },
    )
}

/// The native copies for a copy between textures.
pub open spec fn texture_copy_commands(src: Texture, dst: Texture, regions: Seq<TextureCopy>)
    -> Seq<Command> {
    regions.map_values(|region: TextureCopy| texture_copy_command(src, dst, region))
}

/// The native copy for a region of a copy from a buffer into a texture.
pub open spec fn buffer_to_texture_command(src: Buffer, dst: Texture, region: BufferTextureCopy)
    -> Command {
    Command::Plain(
        NativeCommand::CopyTextureRegion {
            dst: subresource_location(dst, region.texture_base),
            dst_x: region.texture_base.origin.x,
            dst_y: region.texture_base.origin.y,
            dst_z: region.texture_base.origin.z,
            src: footprint_location(src, dst.format, region, TEXTURE_DATA_PITCH_ALIGNMENT),
            src_box: box_at(Origin3d { x: 0, y: 0, z: 0 }, region.size),
        },
    )
}

/// The native copies for a copy from a buffer into a texture.
pub open spec fn buffer_to_texture_commands(
    src: Buffer,
    dst: Texture,
    regions: Seq<BufferTextureCopy>,
) -> Seq<Command> {
    regions.map_values(|region: BufferTextureCopy| buffer_to_texture_command(src, dst, region))
}

/// The native copy for a region of a copy from a texture into a buffer.
pub open spec fn texture_to_buffer_command(src: Texture, dst: Buffer, region: BufferTextureCopy)
    -> Command {
    Command::Plain(
        NativeCommand::CopyTextureRegion {
            dst: footprint_location(dst, src.format, region, 0),
            dst_x: 0,
            dst_y: 0,
            dst_z: 0,
            src: subresource_location(src, region.texture_base),
            src_box: box_at(region.texture_base.origin, region.size),
        },
    )
}

/// The native copies for a copy from a texture into a buffer.
pub open spec fn texture_to_buffer_commands(
    src: Texture,
    dst: Buffer,
    regions: Seq<BufferTextureCopy>,
) -> Seq<Command> {
    regions.map_values(|region: BufferTextureCopy| texture_to_buffer_command(src, dst, region))
}

fn placed_footprint(layout: &ImageDataLayout, format: Format, size: &CopyExtent, min_row_pitch: u32)
    -> (footprint: PlacedFootprint)
    ensures
        footprint == (PlacedFootprint {
            offset: layout.offset,
            format,
            width: size.width,
            height: match layout.rows_per_image {
                Some(rows) => rows,
                None => size.height,
            },
            depth: size.depth,
            row_pitch: match layout.bytes_per_row {
                Some(bytes) => if bytes < min_row_pitch {
                    min_row_pitch
                } else {
                    bytes
                },
                None => 0,
            },
        }),
{
    PlacedFootprint {
        offset: layout.offset,
        format,
        width: size.width,
        height: match layout.rows_per_image {
            Some(rows) => rows,
            None => size.height,
        },
        depth: size.depth,
        row_pitch: match layout.bytes_per_row {
            Some(bytes) => if bytes < min_row_pitch {
                min_row_pitch
            } else {
                bytes
            },
            None => 0,
        },
    }
}

impl EncoderView {
    /// What submitting a batch of barriers leads to: the batch is left in
    /// the scratch storage, and it is recorded as one command unless it is
    /// empty.
    pub open spec fn submit_barriers(self, barriers: Seq<Barrier>) -> EncoderView {
        let staged = EncoderView { temp: TempView { barriers, ..self.temp }, ..self };
        if barriers.len() > 0 {
            staged.emit(seq![Command::ResourceBarrier(barriers)])
        } else {
            staged
        }
    }
}

impl CommandEncoder {
    /// Records the staged barriers as one batch, if there are any.
    fn flush_barriers(&mut self)
        requires
            old(self)@.temp.barriers.len() > 0 ==> old(self)@.list is Some,
        ensures
            final(self)@ == old(self)@.submit_barriers(old(self)@.temp.barriers),
    {
        if !self.temp.barriers.is_empty() {
            let batch = slice_to_vec(self.temp.barriers.as_slice());
            self.emit(NativeCommand::ResourceBarrier(batch));
        }
    }

    /// Records the barriers that the usage changes of buffers ask for, as
    /// one batch. Without any barrier nothing is recorded.
    pub fn transition_buffers(&mut self, barriers: &[BufferBarrier])
        requires
            buffer_barriers(barriers@).len() > 0 ==> old(self)@.list is Some,
        ensures
            final(self)@ == old(self)@.submit_barriers(buffer_barriers(barriers@)),
    {
        self.temp.barriers.clear();
        push_buffer_barriers(&mut self.temp.barriers, barriers);
        assert(self@.temp.barriers =~= buffer_barriers(barriers@));
        self.flush_barriers();
    }

    /// Records the barriers that the usage changes of texture ranges ask
    /// for, as one batch. Without any barrier nothing is recorded.
    pub fn transition_textures(&mut self, barriers: &[TextureBarrier])
        requires
            texture_barriers_wf(barriers@),
            texture_barriers(barriers@).len() > 0 ==> old(self)@.list is Some,
        ensures
            final(self)@ == old(self)@.submit_barriers(texture_barriers(barriers@)),
    {
        self.temp.barriers.clear();
        push_texture_barriers(&mut self.temp.barriers, barriers);
        assert(self@.temp.barriers =~= texture_barriers(barriers@));
        self.flush_barriers();
    }

    /// Fills a range of a buffer with zeros, by copies from the shared
    /// buffer of zeros. No other value can be filled in.
    pub fn fill_buffer(&mut self, buffer: &Buffer, range: Range<u64>, value: u8)
        requires
            old(self)@.list is Some,
            value == 0,
        ensures
            final(self)@ == old(self)@.emit(
                fill_copies(
                    buffer.resource,
                    old(self)@.shared.zero_buffer,
                    range.start,
                    range.end,
                    fill_copy_count(range.start, range.end),
                ),
            ),
    {
        let mut offset = range.start;
        let ghost n: int = 0;
        proof {
            lemma_emit_nothing(self@);
            assert(fill_copies(
                buffer.resource,
                self@.shared.zero_buffer,
                range.start,
                range.end,
                0,
            ) =~= Seq::<Command>::empty());
        }
        while offset < range.end
            invariant
                old(self)@.list is Some,
                0 <= n,
                n <= fill_copy_count(range.start, range.end),
                n < fill_copy_count(range.start, range.end) ==> offset == fill_copy_offset(
                    range.start,
                    n,
                ),
                range.start < range.end && n == fill_copy_count(range.start, range.end)
                    ==> offset == range.end,
                range.start >= range.end ==> offset == range.start,
                self@ == old(self)@.emit(
                    fill_copies(
                        buffer.resource,
                        old(self)@.shared.zero_buffer,
                        range.start,
                        range.end,
                        n,
                    ),
                ),
            decreases range.end - offset,
        {
            let size = if range.end - offset < ZERO_BUFFER_SIZE {
                range.end - offset
            } else {
                ZERO_BUFFER_SIZE
            };
            let command = NativeCommand::CopyBufferRegion {
                dst: buffer.resource,
                dst_offset: offset,
                src: self.shared.zero_buffer,
                src_offset: 0,
                size,
            };
            proof {
                let done = fill_copies(
                    buffer.resource,
                    old(self)@.shared.zero_buffer,
                    range.start,
                    range.end,
                    n,
                );
                lemma_emit_next(old(self)@, done, command@);
                assert(done.push(command@) =~= fill_copies(
                    buffer.resource,
                    old(self)@.shared.zero_buffer,
                    range.start,
                    range.end,
                    n + 1,
                ));
                n = n + 1;
            }
            self.emit(command);
            offset += size;
        }
    }

    /// Copies regions of one buffer into another.
    pub fn copy_buffer_to_buffer(&mut self, src: &Buffer, dst: &Buffer, regions: &[BufferCopy])
        requires
            old(self)@.list is Some,
        ensures
            final(self)@ == old(self)@.emit(buffer_copy_commands(*src, *dst, regions@)),
    {
        let mut i: usize = 0;
        proof {
            lemma_emit_nothing(self@);
            assert(buffer_copy_commands(*src, *dst, regions@.take(0)) =~= Seq::<Command>::empty());
        }
        while i < regions.len()
            invariant
                old(self)@.list is Some,
                i <= regions.len(),
                self@ == old(self)@.emit(buffer_copy_commands(*src, *dst, regions@.take(i as int))),
            decreases regions.len() - i,
        {
            let r = regions[i];
            let command = NativeCommand::CopyBufferRegion {
                dst: dst.resource,
                dst_offset: r.dst_offset,
                src: src.resource,
                src_offset: r.src_offset,
                size: r.size,
            };
            proof {
                let done = buffer_copy_commands(*src, *dst, regions@.take(i as int));
                lemma_emit_next(old(self)@, done, command@);
                assert(done.push(command@) =~= buffer_copy_commands(
                    *src,
                    *dst,
                    regions@.take(i + 1),
                ));
            }
            self.emit(command);
            i += 1;
        }
        assert(regions@.take(i as int) =~= regions@);
    }

    /// Copies regions of one texture into another.
    pub fn copy_texture_to_texture(
        &mut self,
        src: &Texture,
        src_usage: TextureUses,
        dst: &Texture,
        regions: &[TextureCopy],
    )
        requires
            old(self)@.list is Some,
            src.wf(),
            dst.wf(),
            forall|i: int|
                0 <= i < regions@.len() ==> texture_copy_fits(*src, *dst, #[trigger] regions@[i]),
        ensures
            final(self)@ == old(self)@.emit(texture_copy_commands(*src, *dst, regions@)),
    {
        let mut i: usize = 0;
        proof {
            lemma_emit_nothing(self@);
            assert(texture_copy_commands(*src, *dst, regions@.take(0)) =~= Seq::<Command>::empty());
        }
        while i < regions.len()
            invariant
                old(self)@.list is Some,
                src.wf(),
                dst.wf(),
                forall|i: int|
                    0 <= i < regions@.len() ==> texture_copy_fits(
                        *src,
                        *dst,
                        #[trigger] regions@[i],
                    ),
                i <= regions.len(),
                self@ == old(self)@.emit(
                    texture_copy_commands(*src, *dst, regions@.take(i as int)),
                ),
            decreases regions.len() - i,
        {
            let r = regions[i];
            let src_box = make_box(&r.src_base.origin, &r.size);
            let command = NativeCommand::CopyTextureRegion {
                dst: CopyLocation::Subresource {
                    resource: dst.resource,
                    index: dst.calc_subresource_for_copy(&r.dst_base),
                },
                dst_x: r.dst_base.origin.x,
                dst_y: r.dst_base.origin.y,
                dst_z: r.dst_base.origin.z,
                src: CopyLocation::Subresource {
                    resource: src.resource,
                    index: src.calc_subresource_for_copy(&r.src_base),
                },
                src_box,
            };
            proof {
                let done = texture_copy_commands(*src, *dst, regions@.take(i as int));
                lemma_emit_next(old(self)@, done, command@);
                assert(done.push(command@) =~= texture_copy_commands(
                    *src,
                    *dst,
                    regions@.take(i + 1),
                ));
            }
            self.emit(command);
            i += 1;
        }
        assert(regions@.take(i as int) =~= regions@);
    }

    /// Copies texels that lie in a buffer into a texture.
    pub fn copy_buffer_to_texture(
        &mut self,
        src: &Buffer,
        dst: &Texture,
        regions: &[BufferTextureCopy],
    )
        requires
            old(self)@.list is Some,
            dst.wf(),
            forall|i: int|
                0 <= i < regions@.len() ==> dst.has_subresource(
                    (#[trigger] regions@[i]).texture_base,
                ),
        ensures
            final(self)@ == old(self)@.emit(buffer_to_texture_commands(*src, *dst, regions@)),
    {
        let mut i: usize = 0;
        proof {
            lemma_emit_nothing(self@);
            assert(buffer_to_texture_commands(*src, *dst, regions@.take(0)) =~= Seq::<
                Command,
            >::empty());
        }
        while i < regions.len()
            invariant
                old(self)@.list is Some,
                dst.wf(),
                forall|i: int|
                    0 <= i < regions@.len() ==> dst.has_subresource(
                        (#[trigger] regions@[i]).texture_base,
                    ),
                i <= regions.len(),
                self@ == old(self)@.emit(
                    buffer_to_texture_commands(*src, *dst, regions@.take(i as int)),
                ),
            decreases regions.len() - i,
        {
            let r = regions[i];
            let src_box = make_box(&Origin3d { x: 0, y: 0, z: 0 }, &r.size);
            let command = NativeCommand::CopyTextureRegion {
                dst: CopyLocation::Subresource {
                    resource: dst.resource,
                    index: dst.calc_subresource_for_copy(&r.texture_base),
                },
                dst_x: r.texture_base.origin.x,
                dst_y: r.texture_base.origin.y,
                dst_z: r.texture_base.origin.z,
                src: CopyLocation::Footprint {
                    resource: src.resource,
                    footprint: placed_footprint(
                        &r.buffer_layout,
                        dst.format,
                        &r.size,
                        TEXTURE_DATA_PITCH_ALIGNMENT,
                    ),
                },
                src_box,
            };
            proof {
                let done = buffer_to_texture_commands(*src, *dst, regions@.take(i as int));
                lemma_emit_next(old(self)@, done, command@);
                assert(done.push(command@) =~= buffer_to_texture_commands(
                    *src,
                    *dst,
                    regions@.take(i + 1),
                ));
            }
            self.emit(command);
            i += 1;
        }
        assert(regions@.take(i as int) =~= regions@);
    }

    /// Copies texels of a texture into a buffer.
    pub fn copy_texture_to_buffer(
        &mut self,
        src: &Texture,
        src_usage: TextureUses,
        dst: &Buffer,
        regions: &[BufferTextureCopy],
    )
        requires
            old(self)@.list is Some,
            src.wf(),
            forall|i: int|
                0 <= i < regions@.len() ==> src.has_subresource(
                    (#[trigger] regions@[i]).texture_base,
                ) && box_fits(regions@[i].texture_base.origin, regions@[i].size),
        ensures
            final(self)@ == old(self)@.emit(texture_to_buffer_commands(*src, *dst, regions@)),
    {
        let mut i: usize = 0;
        proof {
            lemma_emit_nothing(self@);
            assert(texture_to_buffer_commands(*src, *dst, regions@.take(0)) =~= Seq::<
                Command,
            >::empty());
        }
        while i < regions.len()
            invariant
                old(self)@.list is Some,
                src.wf(),
                forall|i: int|
                    0 <= i < regions@.len() ==> src.has_subresource(
                        (#[trigger] regions@[i]).texture_base,
                    ) && box_fits(regions@[i].texture_base.origin, regions@[i].size),
                i <= regions.len(),
                self@ == old(self)@.emit(
                    texture_to_buffer_commands(*src, *dst, regions@.take(i as int)),
                ),
            decreases regions.len() - i,
        {
            let r = regions[i];
            let src_box = make_box(&r.texture_base.origin, &r.size);
            let command = NativeCommand::CopyTextureRegion {
                dst: CopyLocation::Footprint {
                    resource: dst.resource,
                    footprint: placed_footprint(&r.buffer_layout, src.format, &r.size, 0),
                },
                dst_x: 0,
                dst_y: 0,
                dst_z: 0,
                src: CopyLocation::Subresource {
                    resource: src.resource,
                    index: src.calc_subresource_for_copy(&r.texture_base),
                },
                src_box,
            };
            proof {
                let done = texture_to_buffer_commands(*src, *dst, regions@.take(i as int));
                lemma_emit_next(old(self)@, done, command@);
                assert(done.push(command@) =~= texture_to_buffer_commands(
                    *src,
                    *dst,
                    regions@.take(i + 1),
                ));
            }
            self.emit(command);
            i += 1;
        }
        assert(regions@.take(i as int) =~= regions@);
    }

    /// Begins query `index` of a set.
    pub fn begin_query(&mut self, set: &QuerySet, index: u32)
        requires
            old(self)@.list is Some,
        ensures
            final(self)@ == old(self)@.emit(
                seq![
                    Command::Plain(
                        NativeCommand::BeginQuery { heap: set.raw, ty: set.raw_ty, index },
                    ),
                ],
            ),
    {
        self.emit(NativeCommand::BeginQuery { heap: set.raw, ty: set.raw_ty, index });
    }

    /// Ends query `index` of a set.
    pub fn end_query(&mut self, set: &QuerySet, index: u32)
        requires
            old(self)@.list is Some,
        ensures
            final(self)@ == old(self)@.emit(
                seq![
                    Command::Plain(NativeCommand::EndQuery { heap: set.raw, ty: set.raw_ty, index }),
                ],
            ),
    {
        self.emit(NativeCommand::EndQuery { heap: set.raw, ty: set.raw_ty, index });
    }

    /// Writes a timestamp into query `index` of a set.
    pub fn write_timestamp(&mut self, set: &QuerySet, index: u32)
        requires
            old(self)@.list is Some,
        ensures
            final(self)@ == old(self)@.emit(
                seq![
                    Command::Plain(
                        NativeCommand::EndQuery {
                            heap: set.raw,
                            ty: QUERY_TYPE_TIMESTAMP,
                            index,
                        },
                    ),
                ],
            ),
    {
        self.emit(NativeCommand::EndQuery { heap: set.raw, ty: QUERY_TYPE_TIMESTAMP, index });
    }

    /// Resets a range of queries. The driver asks for no reset before a
    /// query is used again, so nothing is done.
    pub fn reset_queries(&mut self, set: &QuerySet, range: Range<u32>)
        ensures
            final(self)@ == old(self)@,
    {
    }

    /// Writes the results of the queries of `range` into a buffer, from
    /// `offset` on.
    pub fn copy_query_results(
        &mut self,
        set: &QuerySet,
        range: Range<u32>,
        buffer: &Buffer,
        offset: u64,
        stride: u64,
    )
        requires
            old(self)@.list is Some,
            range.start <= range.end,
        ensures
            final(self)@ == old(self)@.emit(
                seq![
                    Command::Plain(
                        NativeCommand::ResolveQueryData {
                            heap: set.raw,
                            ty: set.raw_ty,
                            start: range.start,
                            count: (range.end - range.start) as u32,
                            dst: buffer.resource,
                            dst_offset: offset,
                        },
                    ),
                ],
            ),
    {
        self.emit(
            NativeCommand::ResolveQueryData {
                heap: set.raw,
                ty: set.raw_ty,
                start: range.start,
                count: range.end - range.start,
                dst: buffer.resource,
                dst_offset: offset,
            },
        );
    }
}

} // verus!
