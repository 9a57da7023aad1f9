//! The native commands that the encoder records, and the lists that hold
//! them.
//!
//! A command stands for one call on the driver's command list. The encoder
//! decides which calls are made, in which order and with which arguments;
//! making them is left to whoever replays the list on the native object.

use crate::barrier::Barrier;
use crate::resource::{
    CommandSignature, CpuDescriptor, FloatBits, Format, GpuAddress, GpuDescriptor, HeapHandle,
    QueryHeap, QueryType, ResourceHandle,
};
use vstd::prelude::*;

verus! {

/// Names a native command list object.
pub type ListHandle = u64;

/// Names a native root signature: the identity of a pipeline layout.
pub type RootSignature = u64;

/// Names a native pipeline state object.
pub type PipelineState = u64;

/// A native primitive topology code.
pub type PrimitiveTopology = u32;

/// The index of a root parameter.
pub type RootIndex = u32;

/// What the input assembler knows of one vertex buffer slot.
#[derive(Clone, Copy, Debug, PartialEq, Eq, Structural)]
pub struct VertexBufferView {
    pub buffer_location: GpuAddress,
    pub size_in_bytes: u32,
    pub stride_in_bytes: u32,
}

/// A box of texels: from `left`, `top`, `front` up to, but without, `right`,
/// `bottom`, `back`.
#[derive(Clone, Copy, Debug, PartialEq, Eq, Structural)]
pub struct Box3d {
    pub left: u32,
    pub top: u32,
    pub front: u32,
    pub right: u32,
    pub bottom: u32,
    pub back: u32,
}

/// How texel data lies in a buffer.
#[derive(Clone, Copy, Debug, PartialEq, Eq, Structural)]
pub struct PlacedFootprint {
    pub offset: u64,
    pub format: Format,
    pub width: u32,
    pub height: u32,
    pub depth: u32,
    pub row_pitch: u32,
}

/// One end of a texture copy.
#[derive(Clone, Copy, Debug, PartialEq, Eq, Structural)]
pub enum CopyLocation {
    /// A subresource of a texture.
    Subresource { resource: ResourceHandle, index: u32 },
    /// Texel data in a buffer.
    Footprint { resource: ResourceHandle, footprint: PlacedFootprint },
}

/// A color of four floats, each kept as its bit pattern.
#[derive(Clone, Copy, Debug, PartialEq, Eq, Structural)]
pub struct ColorBits {
    pub r: FloatBits,
    pub g: FloatBits,
    pub b: FloatBits,
    pub a: FloatBits,
}

/// One call on a native command list.
#[allow(inconsistent_fields)]
#[derive(Debug, PartialEq, Eq)]
pub enum NativeCommand {
    /// Make the list empty and ready to record.
    Reset,
    /// End recording.
    Close,
    /// Name the list for debugging. The text is UTF-16 and ends with a zero.
    SetName(Vec<u16>),
    /// Open a debug scope. The text is UTF-16 and ends with a zero; `size`
    /// is its size in bytes.
    BeginEvent { text: Vec<u16>, size: u32 },
    /// Insert a debug marker, given as for `BeginEvent`.
    SetMarker { text: Vec<u16>, size: u32 },
    /// Close the innermost debug scope.
    EndEvent,
    /// Bind the two descriptor heaps that shaders read from.
    SetDescriptorHeaps { views: HeapHandle, samplers: HeapHandle },
    /// Bind no descriptor heap.
    ClearDescriptorHeaps,
    /// Submit a batch of barriers.
    ResourceBarrier(Vec<Barrier>),
    CopyBufferRegion {
        dst: ResourceHandle,
        dst_offset: u64,
        src: ResourceHandle,
        src_offset: u64,
        size: u64,
    },
    CopyTextureRegion {
        dst: CopyLocation,
        dst_x: u32,
        dst_y: u32,
        dst_z: u32,
        src: CopyLocation,
        src_box: Box3d,
    },
    BeginQuery { heap: QueryHeap, ty: QueryType, index: u32 },
    EndQuery { heap: QueryHeap, ty: QueryType, index: u32 },
    ResolveQueryData {
        heap: QueryHeap,
        ty: QueryType,
        start: u32,
        count: u32,
        dst: ResourceHandle,
        dst_offset: u64,
    },
    /// Bind the color targets, in order, and the depth-stencil target if
    /// there is one.
    SetRenderTargets { colors: Vec<CpuDescriptor>, depth_stencil: Option<CpuDescriptor> },
    ClearRenderTargetView { view: CpuDescriptor, color: ColorBits },
    /// Clear depth, stencil or both of a depth-stencil target.
    ClearDepthStencilView {
        view: CpuDescriptor,
        clear_depth: bool,
        clear_stencil: bool,
        depth: FloatBits,
        stencil: u8,
    },
    ResolveSubresource {
        dst: ResourceHandle,
        dst_subresource: u32,
        src: ResourceHandle,
        src_subresource: u32,
        format: Format,
    },
    SetGraphicsRootSignature(RootSignature),
    SetComputeRootSignature(RootSignature),
    SetGraphicsRootDescriptorTable { index: RootIndex, table: GpuDescriptor },
    SetComputeRootDescriptorTable { index: RootIndex, table: GpuDescriptor },
    SetGraphicsRootConstantBufferView { index: RootIndex, address: GpuAddress },
    SetComputeRootConstantBufferView { index: RootIndex, address: GpuAddress },
    SetGraphicsRootShaderResourceView { index: RootIndex, address: GpuAddress },
    SetComputeRootShaderResourceView { index: RootIndex, address: GpuAddress },
    SetGraphicsRootUnorderedAccessView { index: RootIndex, address: GpuAddress },
    SetComputeRootUnorderedAccessView { index: RootIndex, address: GpuAddress },
    SetPipelineState(PipelineState),
    SetPrimitiveTopology(PrimitiveTopology),
    /// Bind one vertex buffer slot.
    SetVertexBuffer { slot: u32, view: VertexBufferView },
    SetIndexBuffer { address: GpuAddress, size: u32, format: Format },
    SetViewport {
        x: FloatBits,
        y: FloatBits,
        width: FloatBits,
        height: FloatBits,
        min_depth: FloatBits,
        max_depth: FloatBits,
    },
    SetScissorRect { left: i32, top: i32, right: i32, bottom: i32 },
    SetStencilReference(u32),
    SetBlendFactor(ColorBits),
    Draw { vertex_count: u32, instance_count: u32, start_vertex: u32, start_instance: u32 },
    DrawIndexed {
        index_count: u32,
        instance_count: u32,
        start_index: u32,
        base_vertex: i32,
        start_instance: u32,
    },
    /// Run up to `max_count` commands of the kind `signature` names, with
    /// arguments read from a buffer, and their number read from a second
    /// buffer if one is given.
    ExecuteIndirect {
        signature: CommandSignature,
        max_count: u32,
        arguments: ResourceHandle,
        arguments_offset: u64,
        count: Option<ResourceHandle>,
        count_offset: u64,
    },
    Dispatch { x: u32, y: u32, z: u32 },
}

/// A command as a mathematical value: a command that owns a buffer is the
/// sequence that the buffer holds, any other command is itself.
#[allow(inconsistent_fields)]
pub ghost enum Command {
    SetName(Seq<u16>),
    BeginEvent { text: Seq<u16>, size: u32 },
    SetMarker { text: Seq<u16>, size: u32 },
    ResourceBarrier(Seq<Barrier>),
    SetRenderTargets { colors: Seq<CpuDescriptor>, depth_stencil: Option<CpuDescriptor> },
    Plain(NativeCommand),
}

impl View for NativeCommand {
    type V = Command;

    open spec fn view(&self) -> Command {
        match *self {
            NativeCommand::SetName(text) => Command::SetName(text@),
            NativeCommand::BeginEvent { text, size } => Command::BeginEvent { text: text@, size },
            NativeCommand::SetMarker { text, size } => Command::SetMarker { text: text@, size },
            NativeCommand::ResourceBarrier(barriers) => Command::ResourceBarrier(barriers@),
            NativeCommand::SetRenderTargets { colors, depth_stencil } => Command::SetRenderTargets {
                colors: colors@,
                depth_stencil,
            },
            command => Command::Plain(command),
        }
    }
}

/// A native command list that is being recorded.
#[derive(Debug, PartialEq, Eq)]
pub struct CommandList {
    pub raw: ListHandle,
    pub commands: Vec<NativeCommand>,
}

/// A command list as a mathematical value.
#[verifier::ext_equal]
pub ghost struct ListView {
    pub raw: ListHandle,
    pub commands: Seq<Command>,
}

/// The commands that a vector holds, each as a mathematical value.
pub open spec fn commands_view(commands: Seq<NativeCommand>) -> Seq<Command> {
    commands.map_values(|command: NativeCommand| command@)
}

impl View for CommandList {
    type V = ListView;

    open spec fn view(&self) -> ListView {
        ListView { raw: self.raw, commands: commands_view(self.commands@) }
    }
}

impl CommandList {
    /// Appends one command.
    pub fn record(&mut self, command: NativeCommand)
        ensures
            final(self)@ == (ListView {
                commands: old(self)@.commands.push(command@),
                ..old(self)@
            }),
    {
        self.commands.push(command);
        assert(final(self)@.commands =~= old(self)@.commands.push(command@));
    }
}

/// A closed command list: an ordered batch of recorded commands that can be
/// replayed on the native list `raw`.
#[derive(Debug, PartialEq, Eq)]
pub struct CommandBuffer {
    pub raw: ListHandle,
    pub commands: Vec<NativeCommand>,
}

impl View for CommandBuffer {
    type V = ListView;

    open spec fn view(&self) -> ListView {
        ListView { raw: self.raw, commands: commands_view(self.commands@) }
    }
}

} // verus!
