//! The state of the pass that is open: the root binding table, the vertex
//! buffer slots with the mask of those that changed, and the resolves that
//! wait for the end of a render pass.

use crate::barrier::{Barrier, Subresource};
use crate::native::{Command, NativeCommand, RootSignature, VertexBufferView};
use crate::resource::{BufferBinding, Format, SubresourceRef, MAX_VERTEX_BUFFERS};
use crate::root::{PassKind, RootElement, MAX_ROOT_ELEMENTS};
use crate::usage::ResourceStates;
use vstd::prelude::*;
use vstd::std_specs::bits::{axiom_u32_trailing_zeros, u32_trailing_zeros};

verus! {

/// A multisample resolve that a render pass owes at its end: from one
/// subresource into another, in a given format.
#[derive(Clone, Copy, Debug, PartialEq, Eq, Structural)]
pub struct PassResolve {
    pub src: SubresourceRef,
    pub dst: SubresourceRef,
    pub format: Format,
}

/// The two transitions that prepare one resolve: its source goes from
/// render target to resolve source, its destination from render target to
/// resolve destination.
pub open spec fn resolve_barrier_pair(resolve: PassResolve) -> Seq<Barrier> {
    seq![
        Barrier::Transition {
            resource: resolve.src.resource,
            subresource: Subresource::Index(resolve.src.index),
            before: ResourceStates { bits: ResourceStates::RENDER_TARGET },
            after: ResourceStates { bits: ResourceStates::RESOLVE_SOURCE },
        },
        Barrier::Transition {
            resource: resolve.dst.resource,
            subresource: Subresource::Index(resolve.dst.index),
            before: ResourceStates { bits: ResourceStates::RENDER_TARGET },
            after: ResourceStates { bits: ResourceStates::RESOLVE_DEST },
        },
    ]
}

/// The `i`-th of the transitions that prepare a list of resolves: source
/// and destination of the first resolve, then of the second, and so on.
pub open spec fn resolve_barrier(resolves: Seq<PassResolve>, i: int) -> Barrier {
    resolve_barrier_pair(resolves[i / 2])[i % 2]
}

/// The transitions that prepare the first `n` resolves of a list.
pub open spec fn resolve_barriers_of(resolves: Seq<PassResolve>, n: int) -> Seq<Barrier> {
    Seq::new((2 * n) as nat, |i: int| resolve_barrier(resolves, i))
}

/// The transitions that prepare a list of resolves.
pub open spec fn resolve_barriers(resolves: Seq<PassResolve>) -> Seq<Barrier> {
    resolve_barriers_of(resolves, resolves.len() as int)
}

/// The transitions that follow the resolves: those that prepared them, each
/// reversed.
pub open spec fn reversed_barriers(barriers: Seq<Barrier>) -> Seq<Barrier> {
    barriers.map_values(|barrier: Barrier| barrier.reversed())
}

/// The native resolve calls for a list of resolves, in the order of the
/// list.
pub open spec fn resolve_commands(resolves: Seq<PassResolve>) -> Seq<Command> {
    resolves.map_values(
        |resolve: PassResolve|
            Command::Plain(
                NativeCommand::ResolveSubresource {
                    dst: resolve.dst.resource,
                    dst_subresource: resolve.dst.index,
                    src: resolve.src.resource,
                    src_subresource: resolve.src.index,
                    format: resolve.format,
                },
            ),
    )
}

/// `k` resolves are prepared by `2 * k` transitions and followed by as
/// many. Each of the first is a transition out of the render target state,
/// and the one that follows at the same place leads the same subresource
/// back into it from where the first had led.
pub proof fn lemma_resolve_barriers(resolves: Seq<PassResolve>)
    ensures
        resolve_barriers(resolves).len() == 2 * resolves.len(),
        reversed_barriers(resolve_barriers(resolves)).len() == 2 * resolves.len(),
        forall|i: int|
            0 <= i < 2 * resolves.len() ==> {
                let first = #[trigger] resolve_barriers(resolves)[i];
                let second = reversed_barriers(resolve_barriers(resolves))[i];
                first matches Barrier::Transition { resource, subresource, before, after }
                    && before == ResourceStates { bits: ResourceStates::RENDER_TARGET }
                    && second == (Barrier::Transition {
                    resource,
                    subresource,
                    before: after,
                    after: before,
                })
            },
{
    assert forall|i: int| 0 <= i < 2 * resolves.len() implies {
        let first = #[trigger] resolve_barriers(resolves)[i];
        let second = reversed_barriers(resolve_barriers(resolves))[i];
        first matches Barrier::Transition { resource, subresource, before, after } && before
            == ResourceStates { bits: ResourceStates::RENDER_TARGET } && second
            == (Barrier::Transition { resource, subresource, before: after, after: before })
    } by {
        assert(i % 2 == 0 || i % 2 == 1);
        assert(resolve_barriers(resolves)[i] == resolve_barrier(resolves, i));
    }
}

/// Appends the transitions that prepare a list of resolves to `out`.
pub fn push_resolve_barriers(out: &mut Vec<Barrier>, resolves: &[PassResolve])
    ensures
        final(out)@ == old(out)@ + resolve_barriers(resolves@),
{
    let mut i: usize = 0;
    assert(out@ =~= old(out)@ + resolve_barriers_of(resolves@, 0));
    while i < resolves.len()
        invariant
            i <= resolves.len(),
            out@ == old(out)@ + resolve_barriers_of(resolves@, i as int),
        decreases resolves.len() - i,
    {
        let resolve = resolves[i];
        // The targets are in the render target state; a resolve has states
        // of its own for its source and its destination.
        out.push(
            Barrier::Transition {
                resource: resolve.src.resource,
                subresource: Subresource::Index(resolve.src.index),
                before: ResourceStates { bits: ResourceStates::RENDER_TARGET },
                after: ResourceStates { bits: ResourceStates::RESOLVE_SOURCE },
            },
        );
        out.push(
            Barrier::Transition {
                resource: resolve.dst.resource,
                subresource: Subresource::Index(resolve.dst.index),
                before: ResourceStates { bits: ResourceStates::RENDER_TARGET },
                after: ResourceStates { bits: ResourceStates::RESOLVE_DEST },
            },
        );
        assert(out@ =~= old(out)@ + resolve_barriers_of(resolves@, i + 1)) by {
            assert((2 * i) / 2 == i && (2 * i) % 2 == 0);
            assert((2 * i + 1) / 2 == i && (2 * i + 1) % 2 == 1);
        }
        i += 1;
    }
}

/// Reverses every barrier of a list in place.
pub fn reverse_barriers(barriers: &mut Vec<Barrier>)
    ensures
        final(barriers)@ == reversed_barriers(old(barriers)@),
{
    let mut i: usize = 0;
    while i < barriers.len()
        invariant
            i <= barriers.len(),
            barriers@.len() == old(barriers)@.len(),
            forall|k: int|
                0 <= k < barriers@.len() ==> #[trigger] barriers@[k] == if k < i {
                    old(barriers)@[k].reversed()
                } else {
                    old(barriers)@[k]
                },
        decreases barriers.len() - i,
    {
        let flipped = barriers[i].reverse();
        barriers.set(i, flipped);
        i += 1;
    }
    assert(barriers@ =~= reversed_barriers(old(barriers)@));
}

/// Whether bit `slot` of `mask` is set.
pub open spec fn slot_is_dirty(mask: u32, slot: u32) -> bool {
    (mask >> slot) & 1 == 1
}

/// `mask` with bit `slot` set.
pub open spec fn mark_dirty(mask: u32, slot: u32) -> u32 {
    mask | (1u32 << slot)
}

/// The slots below `n` whose bit is set in `mask`, in rising order.
pub open spec fn dirty_slots_below(mask: u32, n: nat) -> Seq<u32>
    decreases n,
{
    if n == 0 {
        seq![]
    } else if slot_is_dirty(mask, (n - 1) as u32) {
        dirty_slots_below(mask, (n - 1) as nat).push((n - 1) as u32)
    } else {
        dirty_slots_below(mask, (n - 1) as nat)
    }
}

/// The slots whose bit is set in `mask`, in rising order.
pub open spec fn dirty_slots(mask: u32) -> Seq<u32> {
    dirty_slots_below(mask, 32)
}

/// The native calls that bind the vertex buffer slots marked in `mask`, one
/// for each, in rising order of the slots.
pub open spec fn vertex_flush(mask: u32, views: Seq<VertexBufferView>) -> Seq<Command> {
    dirty_slots(mask).map_values(
        |slot: u32|
            Command::Plain(NativeCommand::SetVertexBuffer { slot, view: views[slot as int] }),
    )
}

proof fn lemma_bit_after_xor(mask: u32, t: u32, j: u32)
    by (bit_vector)
    requires
        t < 32,
        j < 32,
        (mask >> t) & 1 == 1,
    ensures
        (((mask ^ (1u32 << t)) >> j) & 1 == 1) == ((mask >> j) & 1 == 1 && j != t),
{
}

proof fn lemma_bit_after_or(mask: u32, t: u32, j: u32)
    by (bit_vector)
    requires
        t < 32,
        j < 32,
    ensures
        (((mask | (1u32 << t)) >> j) & 1 == 1) == ((mask >> j) & 1 == 1 || j == t),
{
}

proof fn lemma_xor_lowers(mask: u32, t: u32)
    by (bit_vector)
    requires
        t < 32,
        (mask >> t) & 1 == 1,
    ensures
        mask ^ (1u32 << t) < mask,
{
}

proof fn lemma_bit_of_low_mask(mask: u32, t: u32)
    by (bit_vector)
    requires
        mask <= 0xFFFF,
        t < 32,
        (mask >> t) & 1 == 1,
    ensures
        t < 16,
{
}

proof fn lemma_or_keeps_low(mask: u32, t: u32)
    by (bit_vector)
    requires
        mask <= 0xFFFF,
        t < 16,
    ensures
        mask | (1u32 << t) <= 0xFFFF,
{
}

proof fn lemma_zero_has_no_bit(j: u32)
    by (bit_vector)
    requires
        j < 32,
    ensures
        (0u32 >> j) & 1 == 0,
{
}

/// A slot is among the dirty slots below `n` exactly if it is below `n` and
/// its bit is set, and the dirty slots rise strictly.
pub proof fn lemma_dirty_slots_below(mask: u32, n: nat)
    requires
        n <= 32,
    ensures
        forall|s: u32| #[trigger]
            dirty_slots_below(mask, n).contains(s) <==> s < n && slot_is_dirty(mask, s),
        forall|i: int, j: int|
            0 <= i < j < dirty_slots_below(mask, n).len() ==> dirty_slots_below(mask, n)[i]
                < dirty_slots_below(mask, n)[j],
        forall|i: int|
            0 <= i < dirty_slots_below(mask, n).len() ==> dirty_slots_below(mask, n)[i] < n,
    decreases n,
{
    if n > 0 {
        let prev = dirty_slots_below(mask, (n - 1) as nat);
        let cur = dirty_slots_below(mask, n);
        let last = (n - 1) as u32;
        lemma_dirty_slots_below(mask, (n - 1) as nat);
        assert forall|s: u32| #[trigger] cur.contains(s) <==> s < n && slot_is_dirty(mask, s) by {
            if slot_is_dirty(mask, last) {
                assert(cur == prev.push(last));
                if cur.contains(s) {
                    let i = choose|i: int| 0 <= i < cur.len() && cur[i] == s;
                    if i < prev.len() {
                        assert(prev[i] == s);
                        assert(prev.contains(s));
                    }
                }
                if s < n && slot_is_dirty(mask, s) {
                    if s == last {
                        assert(cur[cur.len() - 1] == s);
                    } else {
                        assert(prev.contains(s));
                        let i = choose|i: int| 0 <= i < prev.len() && prev[i] == s;
                        assert(cur[i] == s);
                    }
                }
            }
        }
    }
}

/// Marking a slot makes that slot dirty and changes no other.
pub proof fn lemma_mark_dirty(mask: u32, slot: u32, other: u32)
    requires
        slot < 32,
        other < 32,
    ensures
        slot_is_dirty(mark_dirty(mask, slot), other) == (slot_is_dirty(mask, other) || other
            == slot),
{
    lemma_bit_after_or(mask, slot, other);
}

proof fn lemma_dirty_slots_after_clear(mask: u32, t: u32, n: nat)
    requires
        t < 32,
        n <= 32,
        slot_is_dirty(mask, t),
        forall|j: u32| j < t ==> !slot_is_dirty(mask, j),
    ensures
        n <= t ==> dirty_slots_below(mask, n) == Seq::<u32>::empty() && dirty_slots_below(
            mask ^ (1u32 << t),
            n,
        ) == Seq::<u32>::empty(),
        n > t ==> dirty_slots_below(mask, n) == seq![t] + dirty_slots_below(
            mask ^ (1u32 << t),
            n,
        ),
    decreases n,
{
    if n > 0 {
        let last = (n - 1) as u32;
        lemma_dirty_slots_after_clear(mask, t, (n - 1) as nat);
        lemma_bit_after_xor(mask, t, last);
        let cleared = mask ^ (1u32 << t);
        if n > t {
            if last == t {
                assert(dirty_slots_below(mask, n) =~= seq![t] + dirty_slots_below(cleared, n));
            } else {
                assert(dirty_slots_below(mask, n) =~= seq![t] + dirty_slots_below(cleared, n));
            }
        }
    }
}

/// The lowest dirty slot of a mask that is not zero is the number of its
/// trailing zeros. It is the first of the dirty slots, and those that follow
/// it are the dirty slots of the mask without its bit.
pub proof fn lemma_lowest_dirty_slot(mask: u32)
    requires
        mask != 0,
    ensures
        u32_trailing_zeros(mask) < 32,
        slot_is_dirty(mask, u32_trailing_zeros(mask)),
        dirty_slots(mask) == seq![u32_trailing_zeros(mask)] + dirty_slots(
            mask ^ (1u32 << u32_trailing_zeros(mask)),
        ),
        mask ^ (1u32 << u32_trailing_zeros(mask)) < mask,
        mask <= 0xFFFF ==> u32_trailing_zeros(mask) < 16,
{
    let t = u32_trailing_zeros(mask);
    axiom_u32_trailing_zeros(mask);
    assert(slot_is_dirty(mask, t));
    lemma_dirty_slots_after_clear(mask, t, 32);
    lemma_xor_lowers(mask, t);
    if mask <= 0xFFFF {
        lemma_bit_of_low_mask(mask, t);
    }
}

/// No slot is dirty in the empty mask.
pub proof fn lemma_no_dirty_slots()
    ensures
        dirty_slots(0) == Seq::<u32>::empty(),
{
    lemma_dirty_slots_below(0, 32);
    let slots = dirty_slots(0);
    if slots.len() > 0 {
        assert(slots.contains(slots[0]));
        lemma_zero_has_no_bit(slots[0]);
    }
}

/// The mask in which exactly the slots of a list are marked.
pub open spec fn marked(slots: Seq<u32>) -> u32
    decreases slots.len(),
{
    if slots.len() == 0 {
        0
    } else {
        mark_dirty(marked(slots.drop_last()), slots.last())
    }
}

/// After the slots of a list were marked in an empty mask, the dirty slots
/// are exactly those of the list; where the list names `n` slots, each once,
/// there are `n` dirty slots.
pub proof fn lemma_marked_slots(slots: Seq<u32>)
    requires
        forall|i: int| 0 <= i < slots.len() ==> slots[i] < MAX_VERTEX_BUFFERS,
    ensures
        marked(slots) <= 0xFFFF,
        dirty_slots(marked(slots)).to_set() == slots.to_set(),
        slots.no_duplicates() ==> dirty_slots(marked(slots)).len() == slots.len(),
    decreases slots.len(),
{
    let mask = marked(slots);
    lemma_dirty_slots_below(mask, 32);
    if slots.len() == 0 {
        lemma_no_dirty_slots();
        assert(dirty_slots(mask).to_set() =~= slots.to_set());
    } else {
        let rest = slots.drop_last();
        let slot = slots.last();
        lemma_marked_slots(rest);
        lemma_dirty_slots_below(marked(rest), 32);
        lemma_or_keeps_low(marked(rest), slot);
        assert forall|s: u32| dirty_slots(mask).to_set().contains(s) <==> slots.to_set().contains(
            s,
        ) by {
            if s < 32 {
                lemma_mark_dirty(marked(rest), slot, s);
            }
            assert(dirty_slots(marked(rest)).to_set().contains(s) <==> rest.to_set().contains(s));
            assert(dirty_slots(marked(rest)).contains(s) <==> rest.contains(s));
            if rest.contains(s) {
                let i = choose|i: int| 0 <= i < rest.len() && rest[i] == s;
                assert(slots[i] == s);
            }
            if slots.contains(s) {
                let i = choose|i: int| 0 <= i < slots.len() && slots[i] == s;
                if i < rest.len() {
                    assert(rest[i] == s);
                }
            }
        }
        assert(dirty_slots(mask).to_set() =~= slots.to_set());
    }
    if slots.no_duplicates() {
        dirty_slots(mask).unique_seq_to_set();
        slots.unique_seq_to_set();
    }
}

/// The state of the pass that is open.
#[derive(Debug)]
pub struct PassState {
    /// Whether the pass opened a debug scope.
    pub has_label: bool,
    pub resolves: Vec<PassResolve>,
    /// The identity of the pipeline layout that the root table was bound
    /// under, if any was.
    pub signature: Option<RootSignature>,
    pub root_elements: [RootElement; MAX_ROOT_ELEMENTS],
    /// The vertex buffer slots that changed since they were last bound
    /// natively, one bit for each.
    pub dirty_vertex_buffers: u32,
    pub vertex_buffers: [VertexBufferView; MAX_VERTEX_BUFFERS],
    pub kind: PassKind,
}

/// The state of a pass as a mathematical value.
#[verifier::ext_equal]
pub ghost struct PassView {
    pub has_label: bool,
    pub resolves: Seq<PassResolve>,
    pub signature: Option<RootSignature>,
    pub root_elements: Seq<RootElement>,
    pub dirty_vertex_buffers: u32,
    pub vertex_buffers: Seq<VertexBufferView>,
    pub kind: PassKind,
}

impl View for PassState {
    type V = PassView;

    open spec fn view(&self) -> PassView {
        PassView {
            has_label: self.has_label,
            resolves: self.resolves@,
            signature: self.signature,
            root_elements: self.root_elements@,
            dirty_vertex_buffers: self.dirty_vertex_buffers,
            vertex_buffers: self.vertex_buffers@,
            kind: self.kind,
        }
    }
}

impl PassView {
    /// The state between passes: no label, no resolve, no layout bound, all
    /// root slots empty, no vertex buffer bound or dirty.
    pub open spec fn cleared() -> PassView {
        PassView {
            has_label: false,
            resolves: seq![],
            signature: None,
            root_elements: Seq::new(MAX_ROOT_ELEMENTS as nat, |i: int| RootElement::Empty),
            dirty_vertex_buffers: 0,
            vertex_buffers: Seq::new(
                MAX_VERTEX_BUFFERS as nat,
                |i: int|
                    VertexBufferView { buffer_location: 0, size_in_bytes: 0, stride_in_bytes: 0 },
            ),
            kind: PassKind::Transfer,
        }
    }

    /// The tables have their sizes, and only bits of vertex buffer slots
    /// are set in the mask.
    pub open spec fn wf(self) -> bool {
        &&& self.root_elements.len() == MAX_ROOT_ELEMENTS
        &&& self.vertex_buffers.len() == MAX_VERTEX_BUFFERS
        &&& self.dirty_vertex_buffers <= 0xFFFF
    }

    /// The state after a vertex buffer is set: the slot has the binding's
    /// address and size, keeps its stride, and is marked.
    pub open spec fn set_vertex_buffer(self, index: u32, binding: BufferBinding) -> PassView {
        PassView {
            vertex_buffers: self.vertex_buffers.update(
                index as int,
                VertexBufferView {
                    buffer_location: binding.address() as u64,
                    size_in_bytes: (binding.size_in_bytes() as u64) as u32,
                    stride_in_bytes: self.vertex_buffers[index as int].stride_in_bytes,
                },
            ),
            dirty_vertex_buffers: mark_dirty(self.dirty_vertex_buffers, index),
            ..self
        }
    }
}

impl PassView {
    /// The state after vertex buffers were set one after the other, each
    /// given by its slot and its binding.
    pub open spec fn set_vertex_buffers(self, calls: Seq<(u32, BufferBinding)>) -> PassView
        decreases calls.len(),
    {
        if calls.len() == 0 {
            self
        } else {
            self.set_vertex_buffers(calls.drop_last()).set_vertex_buffer(
                calls.last().0,
                calls.last().1,
            )
        }
    }
}

/// When vertex buffers are set while no slot is dirty, the slots that are
/// dirty afterwards are exactly those that were set. Where `n` different
/// slots were set, the next draw binds `n` slots.
pub proof fn lemma_set_vertex_buffers(pass: PassView, calls: Seq<(u32, BufferBinding)>)
    requires
        pass.dirty_vertex_buffers == 0,
        forall|i: int| 0 <= i < calls.len() ==> (#[trigger] calls[i]).0 < MAX_VERTEX_BUFFERS,
    ensures
        ({
            let after = pass.set_vertex_buffers(calls);
            let slots = calls.map_values(|call: (u32, BufferBinding)| call.0);
            &&& after.dirty_vertex_buffers == marked(slots)
            &&& after.dirty_vertex_buffers <= 0xFFFF
            &&& dirty_slots(after.dirty_vertex_buffers).to_set() == slots.to_set()
            &&& slots.no_duplicates() ==> vertex_flush(
                after.dirty_vertex_buffers,
                after.vertex_buffers,
            ).len() == calls.len()
        }),
    decreases calls.len(),
{
    let slots = calls.map_values(|call: (u32, BufferBinding)| call.0);
    if calls.len() > 0 {
        lemma_set_vertex_buffers(pass, calls.drop_last());
        assert(slots.drop_last() =~= calls.drop_last().map_values(
            |call: (u32, BufferBinding)| call.0,
        ));
    }
    lemma_marked_slots(slots);
}

/// Whether a pipeline gives slot `i` another stride than it has.
pub open spec fn stride_changes(
    views: Seq<VertexBufferView>,
    strides: Seq<Option<u32>>,
    i: int,
) -> bool {
    strides[i] matches Some(stride) && views[i].stride_in_bytes != stride
}

/// A vertex buffer slot with the stride that a pipeline declares for it, or
/// with its own where the pipeline declares none.
pub open spec fn with_stride(view: VertexBufferView, stride: Option<u32>) -> VertexBufferView {
    match stride {
        Some(stride) => VertexBufferView { stride_in_bytes: stride, ..view },
        None => view,
    }
}

/// `mask` with every slot below `n` marked whose stride a pipeline changes.
pub open spec fn mark_stride_changes(
    mask: u32,
    views: Seq<VertexBufferView>,
    strides: Seq<Option<u32>>,
    n: nat,
) -> u32
    decreases n,
{
    if n == 0 {
        mask
    } else if stride_changes(views, strides, n - 1) {
        mark_dirty(mark_stride_changes(mask, views, strides, (n - 1) as nat), (n - 1) as u32)
    } else {
        mark_stride_changes(mask, views, strides, (n - 1) as nat)
    }
}

/// After the strides of a pipeline are taken over, a slot is dirty exactly
/// if it was dirty before or the pipeline changed its stride.
pub proof fn lemma_mark_stride_changes(
    mask: u32,
    views: Seq<VertexBufferView>,
    strides: Seq<Option<u32>>,
    n: nat,
    slot: u32,
)
    requires
        n <= MAX_VERTEX_BUFFERS,
        slot < 32,
    ensures
        slot_is_dirty(mark_stride_changes(mask, views, strides, n), slot) == (slot_is_dirty(
            mask,
            slot,
        ) || (slot < n && stride_changes(views, strides, slot as int))),
        mask <= 0xFFFF ==> mark_stride_changes(mask, views, strides, n) <= 0xFFFF,
    decreases n,
{
    if n > 0 {
        let prev = mark_stride_changes(mask, views, strides, (n - 1) as nat);
        lemma_mark_stride_changes(mask, views, strides, (n - 1) as nat, slot);
        lemma_mark_dirty(prev, (n - 1) as u32, slot);
        if mask <= 0xFFFF {
            lemma_or_keeps_low(prev, (n - 1) as u32);
        }
    }
}

impl PassState {
    pub fn new() -> (pass: PassState)
        ensures
            pass@ == PassView::cleared(),
            pass@.wf(),
    {
        let pass = PassState {
            has_label: false,
            resolves: Vec::new(),
            signature: None,
            root_elements: [RootElement::Empty;MAX_ROOT_ELEMENTS],
            dirty_vertex_buffers: 0,
            vertex_buffers: [VertexBufferView {
                buffer_location: 0,
                size_in_bytes: 0,
                stride_in_bytes: 0,
            };MAX_VERTEX_BUFFERS],
            kind: PassKind::Transfer,
        };
        assert(pass@ =~= PassView::cleared());
        pass
    }

    /// Puts the state back to what it is between passes.
    pub fn clear(&mut self)
        ensures
            final(self)@ == PassView::cleared(),
            final(self)@.wf(),
    {
        *self = PassState::new();
    }

    /// Takes over address and size of a vertex buffer for a slot and marks
    /// the slot.
    pub fn set_vertex_buffer(&mut self, index: u32, binding: BufferBinding)
        requires
            index < MAX_VERTEX_BUFFERS,
            binding.wf(),
            old(self)@.wf(),
        ensures
            final(self)@ == old(self)@.set_vertex_buffer(index, binding),
            final(self)@.wf(),
    {
        let stride = self.vertex_buffers[index as usize].stride_in_bytes;
        self.vertex_buffers[index as usize] = VertexBufferView {
            buffer_location: binding.resolve_address(),
            size_in_bytes: #[verifier::truncate]
            (binding.resolve_size() as u32),
            stride_in_bytes: stride,
        };
        self.dirty_vertex_buffers |= 1u32 << index;
        proof {
            lemma_or_keeps_low(old(self).dirty_vertex_buffers, index);
            assert(final(self)@ =~= old(self)@.set_vertex_buffer(index, binding));
        }
    }

    /// Takes over the strides that a pipeline declares and marks each slot
    /// whose stride changes by it.
    pub fn set_vertex_strides(&mut self, strides: &[Option<u32>; MAX_VERTEX_BUFFERS])
        requires
            old(self)@.wf(),
        ensures
            final(self)@ == (PassView {
                vertex_buffers: Seq::new(
                    MAX_VERTEX_BUFFERS as nat,
                    |i: int| with_stride(old(self)@.vertex_buffers[i], strides@[i]),
                ),
                dirty_vertex_buffers: mark_stride_changes(
                    old(self)@.dirty_vertex_buffers,
                    old(self)@.vertex_buffers,
                    strides@,
                    MAX_VERTEX_BUFFERS as nat,
                ),
                ..old(self)@
            }),
            final(self)@.wf(),
    {
        let mut index: usize = 0;
        while index < MAX_VERTEX_BUFFERS
            invariant
                index <= MAX_VERTEX_BUFFERS,
                old(self)@.wf(),
                self.dirty_vertex_buffers <= 0xFFFF,
                self.dirty_vertex_buffers == mark_stride_changes(
                    old(self)@.dirty_vertex_buffers,
                    old(self)@.vertex_buffers,
                    strides@,
                    index as nat,
                ),
                forall|i: int|
                    0 <= i < MAX_VERTEX_BUFFERS ==> #[trigger] self.vertex_buffers@[i] == if i
                        < index {
                        with_stride(old(self)@.vertex_buffers[i], strides@[i])
                    } else {
                        old(self)@.vertex_buffers[i]
                    },
                self.has_label == old(self).has_label,
                self.resolves == old(self).resolves,
                self.signature == old(self).signature,
                self.root_elements == old(self).root_elements,
                self.kind == old(self).kind,
            decreases MAX_VERTEX_BUFFERS - index,
        {
            if let Some(stride) = strides[index] {
                if self.vertex_buffers[index].stride_in_bytes != stride {
                    let view = self.vertex_buffers[index];
                    self.vertex_buffers[index] = VertexBufferView {
                        stride_in_bytes: stride,
                        ..view
                    };
                    proof {
                        lemma_or_keeps_low(self.dirty_vertex_buffers, index as u32);
                    }
                    self.dirty_vertex_buffers |= 1u32 << (index as u32);
                }
            }
            index += 1;
        }
        assert(final(self)@.vertex_buffers =~= Seq::new(
            MAX_VERTEX_BUFFERS as nat,
            |i: int| with_stride(old(self)@.vertex_buffers[i], strides@[i]),
        ));
    }

    /// Takes the lowest dirty slot out of the mask and returns it.
    pub fn take_dirty_slot(&mut self) -> (slot: u32)
        requires
            old(self)@.wf(),
            old(self).dirty_vertex_buffers != 0,
        ensures
            slot < MAX_VERTEX_BUFFERS,
            final(self)@ == (PassView {
                dirty_vertex_buffers: final(self).dirty_vertex_buffers,
                ..old(self)@
            }),
            final(self)@.wf(),
            final(self).dirty_vertex_buffers < old(self).dirty_vertex_buffers,
            dirty_slots(old(self).dirty_vertex_buffers) == seq![slot] + dirty_slots(
                final(self).dirty_vertex_buffers,
            ),
    {
        proof {
            lemma_lowest_dirty_slot(self.dirty_vertex_buffers);
        }
        let index = self.dirty_vertex_buffers.trailing_zeros();
        self.dirty_vertex_buffers ^= 1u32 << index;
        index
    }
}

} // verus!
