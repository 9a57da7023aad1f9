//! The root binding table: what each root parameter slot was last set to,
//! and the native calls that bind a range of slots.

use crate::native::{Command, NativeCommand, RootIndex, RootSignature};
use crate::resource::{GpuAddress, GpuDescriptor};
use vstd::prelude::*;

verus! {

/// The number of root parameter slots of the table.
pub const MAX_ROOT_ELEMENTS: usize = 64;

/// The kind of pass that is open. A transfer pass stands for no pass too.
#[derive(Clone, Copy, Debug, PartialEq, Eq, Structural)]
pub enum PassKind {
    Render,
    Compute,
    Transfer,
}

/// How a shader reads a buffer that is bound by its address.
#[derive(Clone, Copy, Debug, PartialEq, Eq, Structural)]
pub enum BufferViewKind {
    Constant,
    ShaderResource,
    UnorderedAccess,
}

/// The value last written to a root parameter slot.
#[derive(Clone, Copy, Debug, PartialEq, Eq, Structural)]
pub enum RootElement {
    /// Nothing is bound to the slot.
    Empty,
    /// A descriptor table, by its base.
    Table(GpuDescriptor),
    /// A buffer with a dynamic offset, by the address that the offset gives.
    DynamicOffsetBuffer { kind: BufferViewKind, address: GpuAddress },
}

/// Which descriptor tables a bind group has.
#[derive(Clone, Copy, Debug, PartialEq, Eq, Structural)]
pub struct TableTypes {
    /// A table of shader resource, constant buffer and unordered access
    /// views.
    pub srv_cbv_uav: bool,
    /// A table of samplers.
    pub samplers: bool,
}

impl TableTypes {
    /// The number of tables.
    pub open spec fn count(self) -> int {
        (if self.srv_cbv_uav {
            1int
        } else {
            0
        }) + (if self.samplers {
            1int
        } else {
            0
        })
    }
}

/// Which root slots a bind group owns in a pipeline layout: from
/// `base_root_index` on, one for each table it has, views before samplers,
/// then one for each buffer with a dynamic offset.
#[derive(Debug)]
pub struct BindGroupInfo {
    pub base_root_index: RootIndex,
    pub tables: TableTypes,
    pub dynamic_buffers: Vec<BufferViewKind>,
}

impl BindGroupInfo {
    /// The slot of the sampler table, if the group has one.
    pub open spec fn samplers_index(self) -> int {
        self.base_root_index + if self.tables.srv_cbv_uav {
            1int
        } else {
            0
        }
    }

    /// The slot of the first buffer with a dynamic offset.
    pub open spec fn dynamic_base(self) -> int {
        self.base_root_index + self.tables.count()
    }

    /// The slot behind the last slot of the group.
    pub open spec fn end(self) -> int {
        self.dynamic_base() + self.dynamic_buffers@.len()
    }
}

/// A pipeline layout: its identity, the slots of each bind group, and the
/// number of root slots in all.
#[derive(Debug)]
pub struct PipelineLayout {
    pub raw: RootSignature,
    pub bind_group_infos: Vec<BindGroupInfo>,
    pub total_root_elements: RootIndex,
}

impl PipelineLayout {
    /// The slots of the layout are slots of the table, and those of every
    /// bind group are slots of the layout.
    pub open spec fn wf(self) -> bool {
        &&& self.total_root_elements <= MAX_ROOT_ELEMENTS
        &&& forall|i: int|
            0 <= i < self.bind_group_infos@.len() ==> (#[trigger] self.bind_group_infos@[i]).end()
                <= self.total_root_elements
    }
}

/// A bind group: the bases of its descriptor tables, where it has them, and
/// the base addresses of its buffers with a dynamic offset.
#[derive(Debug)]
pub struct BindGroup {
    pub handle_views: Option<GpuDescriptor>,
    pub handle_samplers: Option<GpuDescriptor>,
    pub dynamic_buffers: Vec<GpuAddress>,
}

/// How much of a bind group has to be bound again.
#[derive(Clone, Copy, Debug, PartialEq, Eq, Structural)]
pub enum BindingInvalidation {
    /// Its tables and its dynamic offsets.
    All,
    /// Its dynamic offsets only: the tables are bound as they should be.
    DynamicOffsetsOnly,
}

/// Whether a bind group can be bound through `info`: it has the tables that
/// `info` names, as far as they are bound, it has as many buffers with a
/// dynamic offset as `info` and as there are offsets, and each offset gives
/// an address.
pub open spec fn bind_group_fits(
    info: BindGroupInfo,
    group: BindGroup,
    dynamic_offsets: Seq<u32>,
    invalidation: BindingInvalidation,
) -> bool {
    &&& invalidation == BindingInvalidation::All && info.tables.srv_cbv_uav
        ==> group.handle_views is Some
    &&& invalidation == BindingInvalidation::All && info.tables.samplers
        ==> group.handle_samplers is Some
    &&& group.dynamic_buffers@.len() == info.dynamic_buffers@.len()
    &&& dynamic_offsets.len() == info.dynamic_buffers@.len()
    &&& forall|i: int|
        0 <= i < dynamic_offsets.len() ==> #[trigger] group.dynamic_buffers@[i]
            + dynamic_offsets[i] <= u64::MAX
}

/// What slot `i` holds once a bind group is bound: its table, where `i` is
/// the slot of a table and tables are bound; its buffer's base address plus
/// the offset, where `i` is the slot of a buffer; what it held before
/// otherwise.
pub open spec fn bound_element(
    elements: Seq<RootElement>,
    info: BindGroupInfo,
    group: BindGroup,
    dynamic_offsets: Seq<u32>,
    invalidation: BindingInvalidation,
    i: int,
) -> RootElement {
    if invalidation == BindingInvalidation::All && info.tables.srv_cbv_uav && i
        == info.base_root_index {
        RootElement::Table(group.handle_views->0)
    } else if invalidation == BindingInvalidation::All && info.tables.samplers && i
        == info.samplers_index() {
        RootElement::Table(group.handle_samplers->0)
    } else if info.dynamic_base() <= i < info.end() {
        let k = i - info.dynamic_base();
        RootElement::DynamicOffsetBuffer {
            kind: info.dynamic_buffers@[k],
            address: (group.dynamic_buffers@[k] + dynamic_offsets[k]) as u64,
        }
    } else {
        elements[i]
    }
}

/// The root table once a bind group is bound.
pub open spec fn bound_elements(
    elements: Seq<RootElement>,
    info: BindGroupInfo,
    group: BindGroup,
    dynamic_offsets: Seq<u32>,
    invalidation: BindingInvalidation,
) -> Seq<RootElement> {
    Seq::new(
        elements.len(),
        |i: int| bound_element(elements, info, group, dynamic_offsets, invalidation, i),
    )
}

/// The slots that binding a bind group writes, as the first of them and the
/// slot behind the last.
pub open spec fn touched_range(info: BindGroupInfo, invalidation: BindingInvalidation) -> (
    int,
    int,
) {
    (
        if invalidation == BindingInvalidation::All {
            info.base_root_index as int
        } else {
            info.dynamic_base()
        },
        info.end(),
    )
}

/// The slots that have to be bound natively after a call that wrote the
/// slots `touched` under the layout `signature`: all `total` slots of the
/// layout where another layout, or none, was bound before, else the written
/// slots only.
pub open spec fn flush_range(
    bound: Option<RootSignature>,
    signature: RootSignature,
    total: RootIndex,
    touched: (int, int),
) -> (int, int) {
    if bound != Some(signature) {
        (0, total as int)
    } else {
        touched
    }
}

/// A call under another layout than the one bound binds every root slot of
/// that layout natively; a call under the layout that is bound binds the
/// slots it wrote and no other.
pub proof fn lemma_flush_range(
    bound: Option<RootSignature>,
    signature: RootSignature,
    total: RootIndex,
    touched: (int, int),
)
    ensures
        bound != Some(signature) ==> flush_range(bound, signature, total, touched) == (
            0int,
            total as int,
        ),
        bound == Some(signature) ==> flush_range(bound, signature, total, touched) == touched,
{
}

/// The native call that binds one slot: none for an empty slot and none in
/// a transfer pass, else the call of the pass kind for what the slot holds.
pub open spec fn root_command(kind: PassKind, index: RootIndex, element: RootElement) -> Seq<
    Command,
> {
    match (kind, element) {
        (_, RootElement::Empty) => seq![],
        (PassKind::Transfer, _) => seq![],
        (PassKind::Render, RootElement::Table(table)) => seq![
            Command::Plain(NativeCommand::SetGraphicsRootDescriptorTable { index, table }),
        ],
        (PassKind::Compute, RootElement::Table(table)) => seq![
            Command::Plain(NativeCommand::SetComputeRootDescriptorTable { index, table }),
        ],
        (
            PassKind::Render,
            RootElement::DynamicOffsetBuffer { kind: BufferViewKind::Constant, address },
        ) => seq![
            Command::Plain(NativeCommand::SetGraphicsRootConstantBufferView { index, address }),
        ],
        (
            PassKind::Compute,
            RootElement::DynamicOffsetBuffer { kind: BufferViewKind::Constant, address },
        ) => seq![
            Command::Plain(NativeCommand::SetComputeRootConstantBufferView { index, address }),
        ],
        (
            PassKind::Render,
            RootElement::DynamicOffsetBuffer { kind: BufferViewKind::ShaderResource, address },
        ) => seq![
            Command::Plain(NativeCommand::SetGraphicsRootShaderResourceView { index, address }),
        ],
        (
            PassKind::Compute,
            RootElement::DynamicOffsetBuffer { kind: BufferViewKind::ShaderResource, address },
        ) => seq![
            Command::Plain(NativeCommand::SetComputeRootShaderResourceView { index, address }),
        ],
        (
            PassKind::Render,
            RootElement::DynamicOffsetBuffer { kind: BufferViewKind::UnorderedAccess, address },
        ) => seq![
            Command::Plain(NativeCommand::SetGraphicsRootUnorderedAccessView { index, address }),
        ],
        (
            PassKind::Compute,
            RootElement::DynamicOffsetBuffer { kind: BufferViewKind::UnorderedAccess, address },
        ) => seq![
            Command::Plain(NativeCommand::SetComputeRootUnorderedAccessView { index, address }),
        ],
    }
}

/// The native calls that bind the slots from `start` up to, but without,
/// `end`, in the order of the slots.
pub open spec fn root_commands(
    kind: PassKind,
    elements: Seq<RootElement>,
    start: int,
    end: int,
) -> Seq<Command>
    decreases end - start,
{
    if start >= end {
        seq![]
    } else {
        root_commands(kind, elements, start, end - 1) + root_command(
            kind,
            (end - 1) as u32,
            elements[end - 1],
        )
    }
}

/// In a transfer pass no slot is bound natively.
pub proof fn lemma_transfer_binds_nothing(elements: Seq<RootElement>, start: int, end: int)
    ensures
        root_commands(PassKind::Transfer, elements, start, end) == Seq::<Command>::empty(),
    decreases end - start,
{
    if start < end {
        lemma_transfer_binds_nothing(elements, start, end - 1);
    }
}

/// The native call that binds one slot, if it takes one.
pub fn root_command_for(kind: PassKind, index: RootIndex, element: RootElement) -> (command:
    Option<NativeCommand>)
    ensures
        match command {
            Some(command) => root_command(kind, index, element) == seq![command@],
            None => root_command(kind, index, element) == Seq::<Command>::empty(),
        },
{
    match element {
        RootElement::Empty => None,
        RootElement::Table(table) => match kind {
            PassKind::Render => Some(
                NativeCommand::SetGraphicsRootDescriptorTable { index, table },
            ),
            PassKind::Compute => Some(
                NativeCommand::SetComputeRootDescriptorTable { index, table },
            ),
            PassKind::Transfer => None,
        },
        RootElement::DynamicOffsetBuffer { kind: view, address } => match (kind, view) {
            (PassKind::Render, BufferViewKind::Constant) => Some(
                NativeCommand::SetGraphicsRootConstantBufferView { index, address },
            ),
            (PassKind::Compute, BufferViewKind::Constant) => Some(
                NativeCommand::SetComputeRootConstantBufferView { index, address },
            ),
            (PassKind::Render, BufferViewKind::ShaderResource) => Some(
                NativeCommand::SetGraphicsRootShaderResourceView { index, address },
            ),
            (PassKind::Compute, BufferViewKind::ShaderResource) => Some(
                NativeCommand::SetComputeRootShaderResourceView { index, address },
            ),
            (PassKind::Render, BufferViewKind::UnorderedAccess) => Some(
                NativeCommand::SetGraphicsRootUnorderedAccessView { index, address },
            ),
            (PassKind::Compute, BufferViewKind::UnorderedAccess) => Some(
                NativeCommand::SetComputeRootUnorderedAccessView { index, address },
            ),
            (PassKind::Transfer, _) => None,
        },
    }
}

/// Writes a bind group into the root table and returns the slots written,
/// as the first of them and the slot behind the last.
pub fn bind_group_elements(
    elements: &mut [RootElement; MAX_ROOT_ELEMENTS],
    info: &BindGroupInfo,
    group: &BindGroup,
    dynamic_offsets: &[u32],
    invalidation: BindingInvalidation,
) -> (touched: (RootIndex, RootIndex))
    requires
        info.end() <= MAX_ROOT_ELEMENTS,
        bind_group_fits(*info, *group, dynamic_offsets@, invalidation),
    ensures
        final(elements)@ == bound_elements(
            old(elements)@,
            *info,
            *group,
            dynamic_offsets@,
            invalidation,
        ),
        touched.0 == touched_range(*info, invalidation).0,
        touched.1 == touched_range(*info, invalidation).1,
{
    let mut root_index: usize = info.base_root_index as usize;
    let base_update_index = match invalidation {
        BindingInvalidation::All => {
            // Bind the table of views.
            if info.tables.srv_cbv_uav {
                elements[root_index] = RootElement::Table(group.handle_views.unwrap());
                root_index += 1;
            }
            // Bind the table of samplers.
            if info.tables.samplers {
                elements[root_index] = RootElement::Table(group.handle_samplers.unwrap());
                root_index += 1;
            }
            info.base_root_index
        },
        BindingInvalidation::DynamicOffsetsOnly => {
            // Skip the tables.
            if info.tables.srv_cbv_uav {
                root_index += 1;
            }
            if info.tables.samplers {
                root_index += 1;
            }
            root_index as RootIndex
        },
    };
    let ghost tables = elements@;
    let dynamic_base = root_index;
    let mut k: usize = 0;
    while k < dynamic_offsets.len()
        invariant
            info.end() <= MAX_ROOT_ELEMENTS,
            bind_group_fits(*info, *group, dynamic_offsets@, invalidation),
            dynamic_base == info.dynamic_base(),
            k <= dynamic_offsets.len(),
            elements@.len() == MAX_ROOT_ELEMENTS,
            forall|i: int|
                0 <= i < MAX_ROOT_ELEMENTS ==> #[trigger] elements@[i] == if dynamic_base <= i
                    < dynamic_base + k {
                    bound_element(old(elements)@, *info, *group, dynamic_offsets@, invalidation, i)
                } else {
                    tables[i]
                },
        decreases dynamic_offsets.len() - k,
    {
        let kind = info.dynamic_buffers[k];
        let gpu_base = group.dynamic_buffers[k];
        let offset = dynamic_offsets[k];
        assert(group.dynamic_buffers@[k as int] + dynamic_offsets@[k as int] <= u64::MAX);
        elements[dynamic_base + k] = RootElement::DynamicOffsetBuffer {
            kind,
            address: gpu_base + offset as u64,
        };
        k += 1;
    }
    assert(elements@ =~= bound_elements(
        old(elements)@,
        *info,
        *group,
        dynamic_offsets@,
        invalidation,
    ));
    (base_update_index, (dynamic_base + k) as RootIndex)
}

} // verus!
