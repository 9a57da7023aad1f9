//! Resource barriers, and how usage changes turn into them.
//!
//! A usage change gives a transition where the native state changes, a
//! read/write hazard barrier where it stays the same but the resource is
//! written as storage on both sides, and nothing otherwise. A texture
//! transition is one barrier for the whole texture or one per subresource.

use crate::resource::{Buffer, ResourceHandle, Texture, TextureAspect, TextureRange};
use crate::usage::{
    buffer_state, map_buffer_usage_to_state, map_texture_usage_to_state, texture_state,
    BufferUses, ResourceStates, TextureUses,
};
use core::ops::Range;
use vstd::arithmetic::div_mod::lemma_fundamental_div_mod_converse;
use vstd::prelude::*;

verus! {

/// What part of a resource a transition is about.
#[derive(Clone, Copy, Debug, PartialEq, Eq, Structural)]
pub enum Subresource {
    /// Every subresource of the resource.
    All,
    /// The subresource with this native index.
    Index(u32),
}

/// A directive that makes the driver order or change the accesses to a
/// resource.
#[derive(Clone, Copy, Debug, PartialEq, Eq, Structural)]
pub enum Barrier {
    /// The resource, or one subresource of it, goes from one state to
    /// another.
    Transition {
        resource: ResourceHandle,
        subresource: Subresource,
        before: ResourceStates,
        after: ResourceStates,
    },
    /// All unordered accesses to the resource that were recorded before end
    /// before any that is recorded after.
    Uav { resource: ResourceHandle },
}

impl Barrier {
    /// The barrier that undoes this one: a transition with its two states
    /// exchanged. A hazard barrier is its own reverse.
    pub open spec fn reversed(self) -> Barrier {
        match self {
            Barrier::Transition { resource, subresource, before, after } => Barrier::Transition {
                resource,
                subresource,
                before: after,
                after: before,
            },
            Barrier::Uav { resource } => self,
        }
    }

    pub fn reverse(&self) -> (r: Barrier)
        ensures
            r == self.reversed(),
    {
        match *self {
            Barrier::Transition { resource, subresource, before, after } => Barrier::Transition {
                resource,
                subresource,
                before: after,
                after: before,
            },
            Barrier::Uav { resource } => Barrier::Uav { resource },
        }
    }
}

/// A buffer whose usage changes from `usage.start` to `usage.end`.
#[derive(Debug)]
pub struct BufferBarrier {
    pub buffer: Buffer,
    pub usage: Range<BufferUses>,
}

/// A range of a texture whose usage changes from `usage.start` to
/// `usage.end`.
#[derive(Debug)]
pub struct TextureBarrier {
    pub texture: Texture,
    pub range: TextureRange,
    pub usage: Range<TextureUses>,
}

impl TextureBarrier {
    /// The texture is well-formed and the range lies in it.
    pub open spec fn wf(self) -> bool {
        self.texture.wf() && self.range.within(self.texture)
    }
}

/// The barriers for one buffer: none, or one.
pub open spec fn buffer_barrier(barrier: BufferBarrier) -> Seq<Barrier> {
    let before = buffer_state(barrier.usage.start);
    let after = buffer_state(barrier.usage.end);
    if before != after {
        seq![
            Barrier::Transition {
                resource: barrier.buffer.resource,
                subresource: Subresource::All,
                before,
                after,
            },
        ]
    } else if barrier.usage.start.is_exclusive_storage_write() {
        seq![Barrier::Uav { resource: barrier.buffer.resource }]
    } else {
        seq![]
    }
}

/// The barriers for a list of buffers: those of each, in the order of the
/// list.
pub open spec fn buffer_barriers(barriers: Seq<BufferBarrier>) -> Seq<Barrier>
    decreases barriers.len(),
{
    if barriers.len() == 0 {
        seq![]
    } else {
        buffer_barriers(barriers.drop_last()) + buffer_barrier(barriers.last())
    }
}

/// The `k`-th of the transitions that take a range of a texture from one
/// state to another subresource by subresource. They go through the mip
/// levels of the range, and for each through its array layers.
pub open spec fn subresource_transition(
    texture: Texture,
    range: TextureRange,
    before: ResourceStates,
    after: ResourceStates,
    k: int,
) -> Barrier {
    let layers = range.array_layers(texture);
    Barrier::Transition {
        resource: texture.resource,
        subresource: Subresource::Index(
            texture.subresource_index(
                range.base_mip_level + k / layers,
                range.base_array_layer + k % layers,
                0,
            ) as u32,
        ),
        before,
        after,
    }
}

/// The first `n` of those transitions.
pub open spec fn subresource_transitions(
    texture: Texture,
    range: TextureRange,
    before: ResourceStates,
    after: ResourceStates,
    n: int,
) -> Seq<Barrier> {
    Seq::new(n as nat, |k: int| subresource_transition(texture, range, before, after, k))
}

/// The barriers for one texture range: none, one hazard barrier, one
/// transition of the whole texture, or one transition for each mip level and
/// array layer of the range.
pub open spec fn texture_barrier(barrier: TextureBarrier) -> Seq<Barrier> {
    let before = texture_state(barrier.usage.start);
    let after = texture_state(barrier.usage.end);
    if before != after {
        if barrier.range.covers(barrier.texture) {
            seq![
                Barrier::Transition {
                    resource: barrier.texture.resource,
                    subresource: Subresource::All,
                    before,
                    after,
                },
            ]
        } else {
            subresource_transitions(
                barrier.texture,
                barrier.range,
                before,
                after,
                barrier.range.mip_levels(barrier.texture) * barrier.range.array_layers(
                    barrier.texture,
                ),
            )
        }
    } else if barrier.usage.start.is_exclusive_storage_write() {
        seq![Barrier::Uav { resource: barrier.texture.resource }]
    } else {
        seq![]
    }
}

/// The barriers for a list of texture ranges: those of each, in the order of
/// the list.
pub open spec fn texture_barriers(barriers: Seq<TextureBarrier>) -> Seq<Barrier>
    decreases barriers.len(),
{
    if barriers.len() == 0 {
        seq![]
    } else {
        texture_barriers(barriers.drop_last()) + texture_barrier(barriers.last())
    }
}

/// Whether every texture range of the list is well-formed.
pub open spec fn texture_barriers_wf(barriers: Seq<TextureBarrier>) -> bool {
    forall|i: int| 0 <= i < barriers.len() ==> (#[trigger] barriers[i]).wf()
}

/// A buffer whose usage stays the same gets no barrier, unless that usage is
/// a storage write and nothing else.
pub proof fn lemma_buffer_usage_kept(barrier: BufferBarrier)
    requires
        barrier.usage.start == barrier.usage.end,
        !barrier.usage.start.is_exclusive_storage_write(),
    ensures
        buffer_barrier(barrier) == Seq::<Barrier>::empty(),
{
}

/// A texture range whose usage stays the same gets no barrier, unless that
/// usage is a storage write and nothing else.
pub proof fn lemma_texture_usage_kept(barrier: TextureBarrier)
    requires
        barrier.usage.start == barrier.usage.end,
        !barrier.usage.start.is_exclusive_storage_write(),
    ensures
        texture_barrier(barrier) == Seq::<Barrier>::empty(),
{
}

/// A list of buffers of which each keeps its usage, none of them being
/// written as storage and nothing else, gets no barrier at all.
pub proof fn lemma_buffer_usages_kept(barriers: Seq<BufferBarrier>)
    requires
        forall|i: int|
            0 <= i < barriers.len() ==> (#[trigger] barriers[i]).usage.start
                == barriers[i].usage.end && !barriers[i].usage.start.is_exclusive_storage_write(),
    ensures
        buffer_barriers(barriers) == Seq::<Barrier>::empty(),
    decreases barriers.len(),
{
    if barriers.len() > 0 {
        lemma_buffer_usages_kept(barriers.drop_last());
        lemma_buffer_usage_kept(barriers.last());
    }
}

/// A list of texture ranges of which each keeps its usage, none of them
/// being written as storage and nothing else, gets no barrier at all.
pub proof fn lemma_texture_usages_kept(barriers: Seq<TextureBarrier>)
    requires
        forall|i: int|
            0 <= i < barriers.len() ==> (#[trigger] barriers[i]).usage.start
                == barriers[i].usage.end && !barriers[i].usage.start.is_exclusive_storage_write(),
    ensures
        texture_barriers(barriers) == Seq::<Barrier>::empty(),
    decreases barriers.len(),
{
    if barriers.len() > 0 {
        lemma_texture_usages_kept(barriers.drop_last());
        lemma_texture_usage_kept(barriers.last());
    }
}

/// A texture range whose native state changes gets exactly one transition,
/// of all subresources, where it is the whole texture. Any other range of
/// `m` mip levels and `n` array layers gets exactly `m * n` transitions, each
/// of a single subresource.
pub proof fn lemma_texture_transition_count(barrier: TextureBarrier)
    requires
        barrier.wf(),
        texture_state(barrier.usage.start) != texture_state(barrier.usage.end),
    ensures
        barrier.range.covers(barrier.texture) ==> texture_barrier(barrier) == seq![
            Barrier::Transition {
                resource: barrier.texture.resource,
                subresource: Subresource::All,
                before: texture_state(barrier.usage.start),
                after: texture_state(barrier.usage.end),
            },
        ],
        !barrier.range.covers(barrier.texture) ==> texture_barrier(barrier).len()
            == barrier.range.mip_levels(barrier.texture) * barrier.range.array_layers(
            barrier.texture,
        ),
        !barrier.range.covers(barrier.texture) ==> forall|k: int|
            0 <= k < texture_barrier(barrier).len() ==> (#[trigger] texture_barrier(barrier)[k])
                matches Barrier::Transition { subresource: Subresource::Index(_), .. },
{
    let mips = barrier.range.mip_levels(barrier.texture);
    let layers = barrier.range.array_layers(barrier.texture);
    assert(0 <= mips * layers) by (nonlinear_arith)
        requires
            0 <= mips,
            0 <= layers,
    ;
}

/// Appends the barriers for one buffer to `out`.
pub fn push_buffer_barrier(out: &mut Vec<Barrier>, barrier: &BufferBarrier)
    ensures
        final(out)@ == old(out)@ + buffer_barrier(*barrier),
{
    let s0 = map_buffer_usage_to_state(barrier.usage.start);
    let s1 = map_buffer_usage_to_state(barrier.usage.end);
    if s0 != s1 {
        out.push(
            Barrier::Transition {
                resource: barrier.buffer.resource,
                subresource: Subresource::All,
                before: s0,
                after: s1,
            },
        );
    } else if barrier.usage.start.bits == BufferUses::STORAGE_WRITE {
        out.push(Barrier::Uav { resource: barrier.buffer.resource });
    }
}

/// Appends the barriers for a list of buffers to `out`.
pub fn push_buffer_barriers(out: &mut Vec<Barrier>, barriers: &[BufferBarrier])
    ensures
        final(out)@ == old(out)@ + buffer_barriers(barriers@),
{
    let mut i: usize = 0;
    while i < barriers.len()
        invariant
            i <= barriers.len(),
            out@ == old(out)@ + buffer_barriers(barriers@.take(i as int)),
        decreases barriers.len() - i,
    {
        assert(barriers@.take(i + 1).drop_last() == barriers@.take(i as int));
        push_buffer_barrier(out, &barriers[i]);
        i += 1;
    }
    assert(barriers@.take(i as int) == barriers@);
}

/// Appends the barriers for one texture range to `out`.
pub fn push_texture_barrier(out: &mut Vec<Barrier>, barrier: &TextureBarrier)
    requires
        barrier.wf(),
    ensures
        final(out)@ == old(out)@ + texture_barrier(*barrier),
{
    let texture = barrier.texture;
    let range = barrier.range;
    let s0 = map_texture_usage_to_state(barrier.usage.start);
    let s1 = map_texture_usage_to_state(barrier.usage.end);
    if s0 != s1 {
        let mip_level_count = match range.mip_level_count {
            Some(count) => count,
            None => texture.mip_level_count - range.base_mip_level,
        };
        let array_layer_count = match range.array_layer_count {
            Some(count) => count,
            None => texture.array_layer_count - range.base_array_layer,
        };
        if range.aspect == TextureAspect::All && range.base_mip_level == 0 && mip_level_count
            == texture.mip_level_count && range.base_array_layer == 0 && array_layer_count
            == texture.array_layer_count {
            // One barrier where the whole texture changes.
            out.push(
                Barrier::Transition {
                    resource: texture.resource,
                    subresource: Subresource::All,
                    before: s0,
                    after: s1,
                },
            );
        } else {
            // One barrier for each mip level and array layer.
            let mut rel_mip_level: u32 = 0;
            while rel_mip_level < mip_level_count
                invariant
                    barrier.wf(),
                    texture == barrier.texture,
                    range == barrier.range,
                    mip_level_count == range.mip_levels(texture),
                    array_layer_count == range.array_layers(texture),
                    rel_mip_level <= mip_level_count,
                    out@ == old(out)@ + subresource_transitions(
                        texture,
                        range,
                        s0,
                        s1,
                        rel_mip_level * array_layer_count,
                    ),
                decreases mip_level_count - rel_mip_level,
            {
                let mut rel_array_layer: u32 = 0;
                while rel_array_layer < array_layer_count
                    invariant
                        barrier.wf(),
                        texture == barrier.texture,
                        range == barrier.range,
                        mip_level_count == range.mip_levels(texture),
                        array_layer_count == range.array_layers(texture),
                        rel_mip_level < mip_level_count,
                        rel_array_layer <= array_layer_count,
                        out@ == old(out)@ + subresource_transitions(
                            texture,
                            range,
                            s0,
                            s1,
                            rel_mip_level * array_layer_count + rel_array_layer,
                        ),
                    decreases array_layer_count - rel_array_layer,
                {
                    let ghost k = rel_mip_level * array_layer_count + rel_array_layer;
                    proof {
                        assert(0 <= rel_mip_level * array_layer_count) by (nonlinear_arith);
                        lemma_fundamental_div_mod_converse(
                            k,
                            array_layer_count as int,
                            rel_mip_level as int,
                            rel_array_layer as int,
                        );
                        texture.lemma_subresource_index_bound(
                            range.base_mip_level + rel_mip_level,
                            range.base_array_layer + rel_array_layer,
                        );
                    }
                    let subresource = texture.calc_subresource(
                        range.base_mip_level + rel_mip_level,
                        range.base_array_layer + rel_array_layer,
                        0,
                    );
                    out.push(
                        Barrier::Transition {
                            resource: texture.resource,
                            subresource: Subresource::Index(subresource),
                            before: s0,
                            after: s1,
                        },
                    );
                    assert(subresource_transitions(texture, range, s0, s1, k + 1)
                        == subresource_transitions(texture, range, s0, s1, k).push(
                        subresource_transition(texture, range, s0, s1, k),
                    ));
                    rel_array_layer += 1;
                }
                assert((rel_mip_level + 1) * array_layer_count == rel_mip_level
                    * array_layer_count + array_layer_count) by (nonlinear_arith);
                rel_mip_level += 1;
            }
        }
    } else if barrier.usage.start.bits == TextureUses::STORAGE_WRITE {
        out.push(Barrier::Uav { resource: texture.resource });
    }
}

/// Appends the barriers for a list of texture ranges to `out`.
pub fn push_texture_barriers(out: &mut Vec<Barrier>, barriers: &[TextureBarrier])
    requires
        texture_barriers_wf(barriers@),
    ensures
        final(out)@ == old(out)@ + texture_barriers(barriers@),
{
    let mut i: usize = 0;
    while i < barriers.len()
        invariant
            i <= barriers.len(),
            texture_barriers_wf(barriers@),
            out@ == old(out)@ + texture_barriers(barriers@.take(i as int)),
        decreases barriers.len() - i,
    {
        assert(barriers@.take(i + 1).drop_last() == barriers@.take(i as int));
        push_texture_barrier(out, &barriers[i]);
        i += 1;
    }
    assert(barriers@.take(i as int) == barriers@);
}

} // verus!
