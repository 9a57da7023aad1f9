//! Handles and plain descriptions of the objects the encoder works with.
//!
//! Buffers, textures, views and query sets are made elsewhere. The encoder
//! reads from each only a handle that names the native object, and the few
//! numbers it computes with.

use vstd::prelude::*;

verus! {

/// Names a native buffer or texture object.
pub type ResourceHandle = u64;

/// An address in GPU memory.
pub type GpuAddress = u64;

/// The base of a descriptor table that shaders can read.
pub type GpuDescriptor = u64;

/// A descriptor that only the CPU side refers to (render target and
/// depth-stencil views).
pub type CpuDescriptor = usize;

/// A native pixel or index format code.
pub type Format = u32;

/// Names a native descriptor heap.
pub type HeapHandle = u64;

/// Names a native query heap.
pub type QueryHeap = u64;

/// A native query type code.
pub type QueryType = u32;

/// Names a native signature for indirect execution.
pub type CommandSignature = u64;

/// The number of color attachments a render pass can have.
pub const MAX_COLOR_TARGETS: usize = 4;

/// The number of vertex buffer slots.
pub const MAX_VERTEX_BUFFERS: usize = 16;

/// The native query type of a timestamp.
pub const QUERY_TYPE_TIMESTAMP: QueryType = 2;

/// The native format of 16-bit indices.
pub const FORMAT_R16_UINT: Format = 57;

/// The native format of 32-bit indices.
pub const FORMAT_R32_UINT: Format = 42;

/// The row pitch that a buffer must at least have as the source of a copy
/// into a texture.
pub const TEXTURE_DATA_PITCH_ALIGNMENT: u32 = 256;

/// A buffer: its native object, where it starts in GPU memory, and its size
/// in bytes.
#[derive(Clone, Copy, Debug, PartialEq, Eq, Structural)]
pub struct Buffer {
    pub resource: ResourceHandle,
    pub gpu_address: GpuAddress,
    pub size: u64,
}

/// A range of a buffer that is bound for some use: from `offset`, `size`
/// bytes, or to the end of the buffer where no size is given.
#[derive(Clone, Copy, Debug, PartialEq, Eq, Structural)]
pub struct BufferBinding {
    pub buffer: Buffer,
    pub offset: u64,
    pub size: Option<u64>,
}

impl BufferBinding {
    /// The binding lies within what the machine can address: the offset is
    /// not behind the buffer's end where the size is taken from it, and the
    /// address of its first byte is an address.
    pub open spec fn wf(self) -> bool {
        &&& self.size is None ==> self.offset <= self.buffer.size
        &&& self.buffer.gpu_address + self.offset <= u64::MAX
    }

    /// The number of bytes bound.
    pub open spec fn size_in_bytes(self) -> int {
        match self.size {
            Some(size) => size as int,
            None => self.buffer.size - self.offset,
        }
    }

    /// The GPU address of the first byte bound.
    pub open spec fn address(self) -> int {
        self.buffer.gpu_address + self.offset
    }

    pub fn resolve_size(&self) -> (size: u64)
        requires
            self.size is None ==> self.offset <= self.buffer.size,
        ensures
            size == self.size_in_bytes(),
    {
        match self.size {
            Some(size) => size,
            None => self.buffer.size - self.offset,
        }
    }

    pub fn resolve_address(&self) -> (address: GpuAddress)
        requires
            self.buffer.gpu_address + self.offset <= u64::MAX,
        ensures
            address == self.address(),
    {
        self.buffer.gpu_address + self.offset
    }
}

/// A texture: its native object, its format, and the shape of its
/// subresources.
#[derive(Clone, Copy, Debug, PartialEq, Eq, Structural)]
pub struct Texture {
    pub resource: ResourceHandle,
    pub format: Format,
    pub mip_level_count: u32,
    pub array_layer_count: u32,
}

/// The parts of a texture's data that an operation touches.
#[derive(Clone, Copy, Debug, PartialEq, Eq, Structural)]
pub enum TextureAspect {
    All,
    StencilOnly,
    DepthOnly,
}

/// A point in a texture, in texels.
#[derive(Clone, Copy, Debug, PartialEq, Eq, Structural)]
pub struct Origin3d {
    pub x: u32,
    pub y: u32,
    pub z: u32,
}

/// The size of a copied region, in texels.
#[derive(Clone, Copy, Debug, PartialEq, Eq, Structural)]
pub struct CopyExtent {
    pub width: u32,
    pub height: u32,
    pub depth: u32,
}

/// Where in a texture a copy starts: the subresource and the point in it.
#[derive(Clone, Copy, Debug, PartialEq, Eq, Structural)]
pub struct TextureCopyBase {
    pub mip_level: u32,
    pub array_layer: u32,
    pub origin: Origin3d,
    pub aspect: TextureAspect,
}

impl Texture {
    /// The number of subresources fits the native index type.
    pub open spec fn wf(self) -> bool {
        self.mip_level_count * self.array_layer_count <= u32::MAX
    }

    /// The native index of a subresource: mip levels are numbered first,
    /// then array layers, then planes.
    pub open spec fn subresource_index(self, mip_level: int, array_layer: int, plane: int) -> int {
        mip_level + (array_layer + plane * self.array_layer_count) * self.mip_level_count
    }

    /// Whether the texture has the subresource that a copy names.
    pub open spec fn has_subresource(self, base: TextureCopyBase) -> bool {
        base.mip_level < self.mip_level_count && base.array_layer < self.array_layer_count
    }

    /// A subresource of plane 0 of a well-formed texture has an index below
    /// the number of subresources.
    pub proof fn lemma_subresource_index_bound(self, mip_level: int, array_layer: int)
        requires
            self.wf(),
            0 <= mip_level < self.mip_level_count,
            0 <= array_layer < self.array_layer_count,
        ensures
            0 <= self.subresource_index(mip_level, array_layer, 0) < self.mip_level_count
                * self.array_layer_count,
            self.subresource_index(mip_level, array_layer, 0) == mip_level + array_layer
                * self.mip_level_count,
    {
        let mips = self.mip_level_count as int;
        let layers = self.array_layer_count as int;
        assert(0 * layers == 0);
        assert(0 <= array_layer * mips <= (layers - 1) * mips) by (nonlinear_arith)
            requires
                0 <= array_layer <= layers - 1,
                0 <= mips,
        ;
        assert((layers - 1) * mips == mips * layers - mips) by (nonlinear_arith);
    }

    pub fn calc_subresource(&self, mip_level: u32, array_layer: u32, plane: u32) -> (index: u32)
        requires
            self.subresource_index(mip_level as int, array_layer as int, plane as int) <= u32::MAX,
        ensures
            index == self.subresource_index(mip_level as int, array_layer as int, plane as int),
    {
        assert(plane * self.array_layer_count <= 0xFFFF_FFFF * 0xFFFF_FFFF) by (nonlinear_arith)
            requires
                plane <= 0xFFFF_FFFF,
                self.array_layer_count <= 0xFFFF_FFFF,
        ;
        let slice: u64 = array_layer as u64 + plane as u64 * self.array_layer_count as u64;
        assert(0 <= slice * self.mip_level_count) by (nonlinear_arith)
            requires
                0 <= slice,
                0 <= self.mip_level_count,
        ;
        let index: u64 = mip_level as u64 + slice * self.mip_level_count as u64;
        index as u32
    }

    pub fn calc_subresource_for_copy(&self, base: &TextureCopyBase) -> (index: u32)
        requires
            self.wf(),
            self.has_subresource(*base),
        ensures
            index == self.subresource_index(base.mip_level as int, base.array_layer as int, 0),
    {
        proof {
            self.lemma_subresource_index_bound(base.mip_level as int, base.array_layer as int);
        }
        self.calc_subresource(base.mip_level, base.array_layer, 0)
    }
}

/// A block of subresources of a texture: mip levels and array layers from a
/// base on, as many as the counts say, or all that follow where a count is
/// not given.
#[derive(Clone, Copy, Debug, PartialEq, Eq, Structural)]
pub struct TextureRange {
    pub aspect: TextureAspect,
    pub base_mip_level: u32,
    pub mip_level_count: Option<u32>,
    pub base_array_layer: u32,
    pub array_layer_count: Option<u32>,
}

impl TextureRange {
    /// The range lies in `texture`, and a count that is given is not zero.
    pub open spec fn within(self, texture: Texture) -> bool {
        &&& match self.mip_level_count {
            Some(count) => 1 <= count && self.base_mip_level + count <= texture.mip_level_count,
            None => self.base_mip_level <= texture.mip_level_count,
        }
        &&& match self.array_layer_count {
            Some(count) => 1 <= count && self.base_array_layer + count
                <= texture.array_layer_count,
            None => self.base_array_layer <= texture.array_layer_count,
        }
    }

    /// The number of mip levels in the range.
    pub open spec fn mip_levels(self, texture: Texture) -> int {
        match self.mip_level_count {
            Some(count) => count as int,
            None => texture.mip_level_count - self.base_mip_level,
        }
    }

    /// The number of array layers in the range.
    pub open spec fn array_layers(self, texture: Texture) -> int {
        match self.array_layer_count {
            Some(count) => count as int,
            None => texture.array_layer_count - self.base_array_layer,
        }
    }

    /// Whether the range is all of `texture`: every aspect, every mip level
    /// and every array layer.
    pub open spec fn covers(self, texture: Texture) -> bool {
        &&& self.aspect == TextureAspect::All
        &&& self.base_mip_level == 0
        &&& self.mip_levels(texture) == texture.mip_level_count
        &&& self.base_array_layer == 0
        &&& self.array_layers(texture) == texture.array_layer_count
    }
}

/// One subresource of a texture: the texture's native object and the
/// subresource's index in it.
#[derive(Clone, Copy, Debug, PartialEq, Eq, Structural)]
pub struct SubresourceRef {
    pub resource: ResourceHandle,
    pub index: u32,
}

/// A view of one subresource of a texture, with the descriptors under which
/// it can be bound as a target.
#[derive(Clone, Copy, Debug, PartialEq, Eq, Structural)]
pub struct TextureView {
    pub raw_format: Format,
    pub target_base: SubresourceRef,
    pub handle_rtv: Option<CpuDescriptor>,
    pub handle_dsv_ro: Option<CpuDescriptor>,
    pub handle_dsv_rw: Option<CpuDescriptor>,
}

/// A set of queries of one native type.
#[derive(Clone, Copy, Debug, PartialEq, Eq, Structural)]
pub struct QuerySet {
    pub raw: QueryHeap,
    pub raw_ty: QueryType,
}

/// The width of the indices in an index buffer.
#[derive(Clone, Copy, Debug, PartialEq, Eq, Structural)]
pub enum IndexFormat {
    Uint16,
    Uint32,
}

/// The native format of indices of the given width.
pub open spec fn index_format(format: IndexFormat) -> Format {
    match format {
        IndexFormat::Uint16 => FORMAT_R16_UINT,
        IndexFormat::Uint32 => FORMAT_R32_UINT,
    }
}

pub fn map_index_format(format: IndexFormat) -> (raw: Format)
    ensures
        raw == index_format(format),
{
    match format {
        IndexFormat::Uint16 => FORMAT_R16_UINT,
        IndexFormat::Uint32 => FORMAT_R32_UINT,
    }
}

/// A rectangle given by a corner and its extent.
#[derive(Clone, Copy, Debug, PartialEq, Eq, Structural)]
pub struct Rect {
    pub x: u32,
    pub y: u32,
    pub w: u32,
    pub h: u32,
}

/// A 32-bit float, kept as its bit pattern. The encoder hands such numbers
/// on and never computes with them.
#[derive(Clone, Copy, Debug, PartialEq, Eq, Structural)]
pub struct FloatBits {
    pub bits: u32,
}

} // verus!
