//! Abstract buffer and texture usages, native resource states, and the
//! mapping from the former to the latter.

use vstd::prelude::*;

verus! {

/// The ways a buffer is used between two synchronization points, as a set of
/// flags.
#[derive(Clone, Copy, Debug, PartialEq, Eq, Structural)]
pub struct BufferUses {
    pub bits: u32,
}

impl BufferUses {
    pub const MAP_READ: u32 = 0x1;

    pub const MAP_WRITE: u32 = 0x2;

    pub const COPY_SRC: u32 = 0x4;

    pub const COPY_DST: u32 = 0x8;

    pub const INDEX: u32 = 0x10;

    pub const VERTEX: u32 = 0x20;

    pub const UNIFORM: u32 = 0x40;

    pub const STORAGE_READ: u32 = 0x80;

    pub const STORAGE_WRITE: u32 = 0x100;

    pub const INDIRECT: u32 = 0x200;

    /// Whether any of `flags` is part of this usage.
    pub open spec fn has_any(self, flags: u32) -> bool {
        self.bits & flags != 0
    }

    /// Whether this usage is a storage write and nothing else.
    pub open spec fn is_exclusive_storage_write(self) -> bool {
        self.bits == Self::STORAGE_WRITE
    }

    #[verifier::when_used_as_spec(has_any)]
    pub fn intersects(self, flags: u32) -> (r: bool)
        ensures
            r == self.has_any(flags),
    {
        self.bits & flags != 0
    }
}

/// The ways a texture is used between two synchronization points, as a set
/// of flags.
#[derive(Clone, Copy, Debug, PartialEq, Eq, Structural)]
pub struct TextureUses {
    pub bits: u32,
}

impl TextureUses {
    pub const COPY_SRC: u32 = 0x1;

    pub const COPY_DST: u32 = 0x2;

    pub const RESOURCE: u32 = 0x4;

    pub const COLOR_TARGET: u32 = 0x8;

    pub const DEPTH_STENCIL_READ: u32 = 0x10;

    pub const DEPTH_STENCIL_WRITE: u32 = 0x20;

    pub const STORAGE_READ: u32 = 0x40;

    pub const STORAGE_WRITE: u32 = 0x80;

    /// The contents of the texture are not defined yet.
    pub const UNINITIALIZED: u32 = 0xFFFF;

    /// Whether any of `flags` is part of this usage.
    pub open spec fn has_any(self, flags: u32) -> bool {
        self.bits & flags != 0
    }

    /// Whether this usage is a storage write and nothing else.
    pub open spec fn is_exclusive_storage_write(self) -> bool {
        self.bits == Self::STORAGE_WRITE
    }

    #[verifier::when_used_as_spec(has_any)]
    pub fn intersects(self, flags: u32) -> (r: bool)
        ensures
            r == self.has_any(flags),
    {
        self.bits & flags != 0
    }
}

/// A native resource state: the set of accesses the driver has prepared a
/// resource for. The empty set is the common state.
#[derive(Clone, Copy, Debug, PartialEq, Eq, Structural)]
pub struct ResourceStates {
    pub bits: u32,
}

impl ResourceStates {
    pub const COMMON: u32 = 0;

    pub const VERTEX_AND_CONSTANT_BUFFER: u32 = 0x1;

    pub const INDEX_BUFFER: u32 = 0x2;

    pub const RENDER_TARGET: u32 = 0x4;

    pub const UNORDERED_ACCESS: u32 = 0x8;

    pub const DEPTH_WRITE: u32 = 0x10;

    pub const DEPTH_READ: u32 = 0x20;

    pub const NON_PIXEL_SHADER_RESOURCE: u32 = 0x40;

    pub const PIXEL_SHADER_RESOURCE: u32 = 0x80;

    pub const INDIRECT_ARGUMENT: u32 = 0x200;

    pub const COPY_DEST: u32 = 0x400;

    pub const COPY_SOURCE: u32 = 0x800;

    pub const RESOLVE_DEST: u32 = 0x1000;

    pub const RESOLVE_SOURCE: u32 = 0x2000;
}

/// `bits` if `wanted`, no bits otherwise.
pub open spec fn bits_if(wanted: bool, bits: u32) -> u32 {
    if wanted {
        bits
    } else {
        0
    }
}

#[verifier::when_used_as_spec(bits_if)]
fn select(wanted: bool, bits: u32) -> (r: u32)
    ensures
        r == bits_if(wanted, bits),
{
    if wanted {
        bits
    } else {
        0
    }
}

/// The bits of the native state of a buffer whose usage has the bits
/// `usage`: the union of the states that the single uses ask for. A buffer
/// written as storage is in the unordered-access state even if it is also
/// read as storage.
pub open spec fn buffer_state_bits(usage: u32) -> u32 {
    bits_if(usage & BufferUses::COPY_SRC != 0, ResourceStates::COPY_SOURCE) | bits_if(
        usage & BufferUses::COPY_DST != 0,
        ResourceStates::COPY_DEST,
    ) | bits_if(usage & BufferUses::INDEX != 0, ResourceStates::INDEX_BUFFER) | bits_if(
        usage & (BufferUses::VERTEX | BufferUses::UNIFORM) != 0,
        ResourceStates::VERTEX_AND_CONSTANT_BUFFER,
    ) | bits_if(usage & BufferUses::STORAGE_WRITE != 0, ResourceStates::UNORDERED_ACCESS) | bits_if(
        !(usage & BufferUses::STORAGE_WRITE != 0) && usage & BufferUses::STORAGE_READ != 0,
        ResourceStates::PIXEL_SHADER_RESOURCE | ResourceStates::NON_PIXEL_SHADER_RESOURCE,
    ) | bits_if(usage & BufferUses::INDIRECT != 0, ResourceStates::INDIRECT_ARGUMENT)
}

/// The native state of a buffer that is used as `usage` says.
pub open spec fn buffer_state(usage: BufferUses) -> ResourceStates {
    ResourceStates { bits: buffer_state_bits(usage.bits) }
}

/// The bits of the native state of a texture whose usage has the bits
/// `usage`. A texture without defined contents is in the common state; the
/// states of a resolve are never the result of a usage.
pub open spec fn texture_state_bits(usage: u32) -> u32 {
    if usage == TextureUses::UNINITIALIZED {
        ResourceStates::COMMON
    } else {
        bits_if(usage & TextureUses::COPY_SRC != 0, ResourceStates::COPY_SOURCE) | bits_if(
            usage & TextureUses::COPY_DST != 0,
            ResourceStates::COPY_DEST,
        ) | bits_if(
            usage & TextureUses::RESOURCE != 0,
            ResourceStates::PIXEL_SHADER_RESOURCE | ResourceStates::NON_PIXEL_SHADER_RESOURCE,
        ) | bits_if(usage & TextureUses::COLOR_TARGET != 0, ResourceStates::RENDER_TARGET)
            | bits_if(usage & TextureUses::DEPTH_STENCIL_READ != 0, ResourceStates::DEPTH_READ)
            | bits_if(usage & TextureUses::DEPTH_STENCIL_WRITE != 0, ResourceStates::DEPTH_WRITE)
            | bits_if(
            usage & (TextureUses::STORAGE_READ | TextureUses::STORAGE_WRITE) != 0,
            ResourceStates::UNORDERED_ACCESS,
        )
    }
}

/// The native state of a texture that is used as `usage` says.
pub open spec fn texture_state(usage: TextureUses) -> ResourceStates {
    ResourceStates { bits: texture_state_bits(usage.bits) }
}

/// Which uses put a buffer into which state: each state is part of the
/// buffer's state exactly if one of the uses that ask for it is part of the
/// usage, and no state is part of it that no use asks for.
pub proof fn lemma_buffer_state(usage: u32)
    by (bit_vector)
    ensures
        buffer_state_bits(usage) & ResourceStates::COPY_SOURCE != 0 <==> usage
            & BufferUses::COPY_SRC != 0,
        buffer_state_bits(usage) & ResourceStates::COPY_DEST != 0 <==> usage & BufferUses::COPY_DST
            != 0,
        buffer_state_bits(usage) & ResourceStates::INDEX_BUFFER != 0 <==> usage & BufferUses::INDEX
            != 0,
        buffer_state_bits(usage) & ResourceStates::VERTEX_AND_CONSTANT_BUFFER != 0 <==> usage
            & BufferUses::VERTEX != 0 || usage & BufferUses::UNIFORM != 0,
        buffer_state_bits(usage) & ResourceStates::UNORDERED_ACCESS != 0 <==> usage
            & BufferUses::STORAGE_WRITE != 0,
        buffer_state_bits(usage) & ResourceStates::PIXEL_SHADER_RESOURCE != 0 <==> usage
            & BufferUses::STORAGE_WRITE == 0 && usage & BufferUses::STORAGE_READ != 0,
        buffer_state_bits(usage) & ResourceStates::NON_PIXEL_SHADER_RESOURCE != 0 <==> usage
            & BufferUses::STORAGE_WRITE == 0 && usage & BufferUses::STORAGE_READ != 0,
        buffer_state_bits(usage) & ResourceStates::INDIRECT_ARGUMENT != 0 <==> usage
            & BufferUses::INDIRECT != 0,
        buffer_state_bits(usage) & (ResourceStates::RENDER_TARGET | ResourceStates::DEPTH_WRITE
            | ResourceStates::DEPTH_READ | ResourceStates::RESOLVE_DEST
            | ResourceStates::RESOLVE_SOURCE) == 0,
        buffer_state_bits(usage) <= 0xFFFF,
{
}

/// Which uses put a texture with defined contents into which state.
pub proof fn lemma_texture_state(usage: u32)
    by (bit_vector)
    requires
        usage != TextureUses::UNINITIALIZED,
    ensures
        texture_state_bits(usage) & ResourceStates::COPY_SOURCE != 0 <==> usage
            & TextureUses::COPY_SRC != 0,
        texture_state_bits(usage) & ResourceStates::COPY_DEST != 0 <==> usage
            & TextureUses::COPY_DST != 0,
        texture_state_bits(usage) & ResourceStates::PIXEL_SHADER_RESOURCE != 0 <==> usage
            & TextureUses::RESOURCE != 0,
        texture_state_bits(usage) & ResourceStates::NON_PIXEL_SHADER_RESOURCE != 0 <==> usage
            & TextureUses::RESOURCE != 0,
        texture_state_bits(usage) & ResourceStates::RENDER_TARGET != 0 <==> usage
            & TextureUses::COLOR_TARGET != 0,
        texture_state_bits(usage) & ResourceStates::DEPTH_READ != 0 <==> usage
            & TextureUses::DEPTH_STENCIL_READ != 0,
        texture_state_bits(usage) & ResourceStates::DEPTH_WRITE != 0 <==> usage
            & TextureUses::DEPTH_STENCIL_WRITE != 0,
        texture_state_bits(usage) & ResourceStates::UNORDERED_ACCESS != 0 <==> usage
            & TextureUses::STORAGE_READ != 0 || usage & TextureUses::STORAGE_WRITE != 0,
        texture_state_bits(usage) & (ResourceStates::VERTEX_AND_CONSTANT_BUFFER
            | ResourceStates::INDEX_BUFFER | ResourceStates::INDIRECT_ARGUMENT
            | ResourceStates::RESOLVE_DEST | ResourceStates::RESOLVE_SOURCE) == 0,
        texture_state_bits(usage) <= 0xFFFF,
{
}

/// Maps a buffer usage to the native state that serves it.
pub fn map_buffer_usage_to_state(usage: BufferUses) -> (state: ResourceStates)
    ensures
        state == buffer_state(usage),
{
    let storage_write = usage.intersects(BufferUses::STORAGE_WRITE);
    let bits = select(usage.intersects(BufferUses::COPY_SRC), ResourceStates::COPY_SOURCE) | select(
        usage.intersects(BufferUses::COPY_DST),
        ResourceStates::COPY_DEST,
    ) | select(usage.intersects(BufferUses::INDEX), ResourceStates::INDEX_BUFFER) | select(
        usage.intersects(BufferUses::VERTEX | BufferUses::UNIFORM),
        ResourceStates::VERTEX_AND_CONSTANT_BUFFER,
    ) | select(storage_write, ResourceStates::UNORDERED_ACCESS) | select(
        !storage_write && usage.intersects(BufferUses::STORAGE_READ),
        ResourceStates::PIXEL_SHADER_RESOURCE | ResourceStates::NON_PIXEL_SHADER_RESOURCE,
    ) | select(usage.intersects(BufferUses::INDIRECT), ResourceStates::INDIRECT_ARGUMENT);
    ResourceStates { bits }
}

/// Maps a texture usage to the native state that serves it.
pub fn map_texture_usage_to_state(usage: TextureUses) -> (state: ResourceStates)
    ensures
        state == texture_state(usage),
{
    if usage.bits == TextureUses::UNINITIALIZED {
        return ResourceStates { bits: ResourceStates::COMMON };
    }
    let bits = select(usage.intersects(TextureUses::COPY_SRC), ResourceStates::COPY_SOURCE)
        | select(usage.intersects(TextureUses::COPY_DST), ResourceStates::COPY_DEST) | select(
        usage.intersects(TextureUses::RESOURCE),
        ResourceStates::PIXEL_SHADER_RESOURCE | ResourceStates::NON_PIXEL_SHADER_RESOURCE,
    ) | select(usage.intersects(TextureUses::COLOR_TARGET), ResourceStates::RENDER_TARGET)
        | select(usage.intersects(TextureUses::DEPTH_STENCIL_READ), ResourceStates::DEPTH_READ)
        | select(usage.intersects(TextureUses::DEPTH_STENCIL_WRITE), ResourceStates::DEPTH_WRITE)
        | select(
        usage.intersects(TextureUses::STORAGE_READ | TextureUses::STORAGE_WRITE),
        ResourceStates::UNORDERED_ACCESS,
    );
    ResourceStates { bits }
}

} // verus!
