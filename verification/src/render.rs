//! Render and compute passes: attachments and resolves, bind groups and
//! pipelines, vertex and index buffers, draws and dispatches.

use crate::encoder::{
    label_fits, label_text, lemma_emit_nothing, lemma_emit_twice, CommandEncoder, EncoderView,
};
use crate::native::{
    ColorBits, Command, ListView, NativeCommand, PipelineState, PrimitiveTopology, RootIndex,
    RootSignature,
};
use crate::pass::{
    mark_stride_changes, push_resolve_barriers, resolve_barriers, resolve_commands,
    reverse_barriers, reversed_barriers, with_stride, PassResolve, PassView,
};
use crate::resource::{
    index_format, map_index_format, Buffer, BufferBinding, CommandSignature, CpuDescriptor,
    FloatBits, IndexFormat, Rect, TextureView, MAX_COLOR_TARGETS, MAX_VERTEX_BUFFERS,
};
use crate::root::{
    bind_group_elements, bind_group_fits, bound_elements, flush_range, root_commands,
    touched_range, BindGroup, BindingInvalidation, PassKind, PipelineLayout, MAX_ROOT_ELEMENTS,
};
use crate::temp::TempView;
use crate::usage::TextureUses;
use core::ops::Range;
use vstd::prelude::*;
use vstd::slice::slice_to_vec;

verus! {

/// What happens to the contents of an attachment at the two ends of a pass.
#[derive(Clone, Copy, Debug, PartialEq, Eq, Structural)]
pub struct AttachmentOps {
    /// The pass starts from what the attachment holds. Without this the
    /// attachment is cleared.
    pub load: bool,
    /// What the pass wrote is kept.
    pub store: bool,
}

/// A texture view as a target of a pass, with the usage it has in it.
#[derive(Clone, Copy, Debug, PartialEq, Eq, Structural)]
pub struct Attachment {
    pub view: TextureView,
    pub usage: TextureUses,
}

/// A color target of a render pass.
#[derive(Clone, Copy, Debug, PartialEq, Eq, Structural)]
pub struct ColorAttachment {
    pub target: Attachment,
    /// Where the target's samples are resolved into when the pass ends.
    pub resolve_target: Option<Attachment>,
    pub ops: AttachmentOps,
    pub clear_value: ColorBits,
}

/// The depth-stencil target of a render pass.
#[derive(Clone, Copy, Debug, PartialEq, Eq, Structural)]
pub struct DepthStencilAttachment {
    pub target: Attachment,
    pub depth_ops: AttachmentOps,
    pub stencil_ops: AttachmentOps,
    pub clear_depth: FloatBits,
    pub clear_stencil: u32,
}

/// What a render pass draws into.
#[derive(Debug)]
pub struct RenderPassDescriptor<'a> {
    pub label: Option<&'a str>,
    pub color_attachments: Vec<ColorAttachment>,
    pub depth_stencil_attachment: Option<DepthStencilAttachment>,
}

#[derive(Debug)]
pub struct ComputePassDescriptor<'a> {
    pub label: Option<&'a str>,
}

/// A render pipeline: its native state object, the identity of its layout
/// with the number of root slots, its topology, and the stride of each
/// vertex buffer slot that it reads.
#[derive(Debug)]
pub struct RenderPipeline {
    pub raw: PipelineState,
    pub signature: RootSignature,
    pub total_root_elements: RootIndex,
    pub topology: PrimitiveTopology,
    pub vertex_strides: [Option<u32>; MAX_VERTEX_BUFFERS],
}

/// A compute pipeline: its native state object and the identity of its
/// layout with the number of root slots.
#[derive(Clone, Copy, Debug, PartialEq, Eq, Structural)]
pub struct ComputePipeline {
    pub raw: PipelineState,
    pub signature: RootSignature,
    pub total_root_elements: RootIndex,
}

/// A rectangle of floats, each kept as its bit pattern.
#[derive(Clone, Copy, Debug, PartialEq, Eq, Structural)]
pub struct FloatRect {
    pub x: FloatBits,
    pub y: FloatBits,
    pub w: FloatBits,
    pub h: FloatBits,
}

/// The descriptors of the color targets, in their order.
pub open spec fn color_views(attachments: Seq<ColorAttachment>) -> Seq<CpuDescriptor> {
    attachments.map_values(|attachment: ColorAttachment| attachment.target.view.handle_rtv->0)
}

/// The descriptor under which a depth-stencil target is bound: the one for
/// writing where the target is used for depth-stencil writes and nothing
/// else, the read-only one otherwise.
pub open spec fn depth_stencil_view(attachment: DepthStencilAttachment) -> CpuDescriptor {
    if attachment.target.usage.bits == TextureUses::DEPTH_STENCIL_WRITE {
        attachment.target.view.handle_dsv_rw->0
    } else {
        attachment.target.view.handle_dsv_ro->0
    }
}

/// The descriptor of the depth-stencil target, if the pass has one.
pub open spec fn depth_stencil_target(attachment: Option<DepthStencilAttachment>) -> Option<
    CpuDescriptor,
> {
    match attachment {
        Some(attachment) => Some(depth_stencil_view(attachment)),
        None => None,
    }
}

/// The clear of one color target: none if the pass loads what it holds.
pub open spec fn color_clear(attachment: ColorAttachment) -> Seq<Command> {
    if attachment.ops.load {
        seq![]
    } else {
        seq![
            Command::Plain(
                NativeCommand::ClearRenderTargetView {
                    view: attachment.target.view.handle_rtv->0,
                    color: attachment.clear_value,
                },
            ),
        ]
    }
}

/// The clears of the color targets, in their order.
pub open spec fn color_clears(attachments: Seq<ColorAttachment>) -> Seq<Command>
    decreases attachments.len(),
{
    if attachments.len() == 0 {
        seq![]
    } else {
        color_clears(attachments.drop_last()) + color_clear(attachments.last())
    }
}

/// The resolve that one color target asks for: none without a resolve
/// target.
pub open spec fn attachment_resolve(attachment: ColorAttachment) -> Seq<PassResolve> {
    match attachment.resolve_target {
        Some(target) => seq![
            PassResolve {
                src: attachment.target.view.target_base,
                dst: target.view.target_base,
                format: target.view.raw_format,
            },
        ],
        None => seq![],
    }
}

/// The resolves that the color targets ask for, in their order.
pub open spec fn attachment_resolves(attachments: Seq<ColorAttachment>) -> Seq<PassResolve>
    decreases attachments.len(),
{
    if attachments.len() == 0 {
        seq![]
    } else {
        attachment_resolves(attachments.drop_last()) + attachment_resolve(attachments.last())
    }
}

/// The clear of the depth-stencil target: of depth, of stencil or of both,
/// as far as the pass does not load them, and none if it loads both.
pub open spec fn depth_stencil_clear(attachment: Option<DepthStencilAttachment>) -> Seq<Command> {
    match attachment {
        Some(attachment) => if attachment.depth_ops.load && attachment.stencil_ops.load {
            seq![]
        } else {
            seq![
                Command::Plain(
                    NativeCommand::ClearDepthStencilView {
                        view: depth_stencil_view(attachment),
                        clear_depth: !attachment.depth_ops.load,
                        clear_stencil: !attachment.stencil_ops.load,
                        depth: attachment.clear_depth,
                        stencil: attachment.clear_stencil as u8,
                    },
                ),
            ]
        },
        None => seq![],
    }
}

/// Whether a render pass can begin on these targets: the label fits, there
/// are no more color targets than a pass can have, and every target has the
/// descriptor under which it is bound.
pub open spec fn render_pass_fits(desc: RenderPassDescriptor) -> bool {
    &&& label_fits(label_text(desc.label))
    &&& desc.color_attachments@.len() <= MAX_COLOR_TARGETS
    &&& forall|i: int|
        0 <= i < desc.color_attachments@.len() ==> (
        #[trigger] desc.color_attachments@[i]).target.view.handle_rtv is Some
    &&& desc.depth_stencil_attachment matches Some(attachment) ==> if attachment.target.usage.bits
        == TextureUses::DEPTH_STENCIL_WRITE {
        attachment.target.view.handle_dsv_rw is Some
    } else {
        attachment.target.view.handle_dsv_ro is Some
    }
}

/// The commands that end a render pass before the pass itself is ended:
/// none without a resolve; else the batch of transitions that prepares the
/// resolves, the resolves, and the batch of the same transitions reversed.
pub open spec fn resolve_pass_commands(resolves: Seq<PassResolve>) -> Seq<Command> {
    if resolves.len() > 0 {
        seq![Command::ResourceBarrier(resolve_barriers(resolves))] + resolve_commands(resolves)
            + seq![Command::ResourceBarrier(reversed_barriers(resolve_barriers(resolves)))]
    } else {
        seq![]
    }
}

/// The command that runs indirectly.
pub open spec fn execute_indirect(
    signature: CommandSignature,
    max_count: u32,
    buffer: Buffer,
    offset: u64,
    count: Option<(Buffer, u64)>,
) -> Command {
    Command::Plain(
        NativeCommand::ExecuteIndirect {
            signature,
            max_count,
            arguments: buffer.resource,
            arguments_offset: offset,
            count: match count {
                Some(count) => Some(count.0.resource),
                None => None,
            },
            count_offset: match count {
                Some(count) => count.1,
                None => 0,
            },
        },
    )
}

impl EncoderView {
    /// Whether a pass is open.
    pub open spec fn in_pass(self) -> bool {
        self.pass.kind != PassKind::Transfer
    }

    /// What beginning a render pass leads to: a pass of kind render, the
    /// targets bound, those cleared that are not loaded, and the resolves
    /// noted for the end of the pass.
    pub open spec fn begin_render_pass(self, desc: RenderPassDescriptor) -> EncoderView {
        let begun = self.begin_pass(PassKind::Render, label_text(desc.label));
        EncoderView {
            pass: PassView {
                resolves: attachment_resolves(desc.color_attachments@),
                ..begun.pass
            },
            ..begun.emit(
                seq![
                    Command::SetRenderTargets {
                        colors: color_views(desc.color_attachments@),
                        depth_stencil: depth_stencil_target(desc.depth_stencil_attachment),
                    },
                ] + color_clears(desc.color_attachments@) + depth_stencil_clear(
                    desc.depth_stencil_attachment,
                ),
            )
        }
    }

    /// What ending a render pass leads to. The resolves are done between
    /// two batches of barriers, of which the second stays in the scratch
    /// storage; then the pass is ended.
    pub open spec fn end_render_pass(self) -> EncoderView {
        if self.pass.resolves.len() > 0 {
            EncoderView {
                temp: TempView {
                    barriers: reversed_barriers(resolve_barriers(self.pass.resolves)),
                    ..self.temp
                },
                ..self
            }.emit(resolve_pass_commands(self.pass.resolves)).end_pass()
        } else {
            self.end_pass()
        }
    }

    /// What setting a bind group leads to. The group is written into the
    /// root table. Under another layout than the one bound the whole table
    /// of the layout is bound natively, else the written slots only.
    pub open spec fn set_bind_group(
        self,
        layout: PipelineLayout,
        index: u32,
        group: BindGroup,
        dynamic_offsets: Seq<u32>,
        invalidation: BindingInvalidation,
    ) -> EncoderView {
        let info = layout.bind_group_infos@[index as int];
        let elements = bound_elements(
            self.pass.root_elements,
            info,
            group,
            dynamic_offsets,
            invalidation,
        );
        let range = flush_range(
            self.pass.signature,
            layout.raw,
            layout.total_root_elements,
            touched_range(info, invalidation),
        );
        EncoderView {
            pass: PassView { root_elements: elements, signature: Some(layout.raw), ..self.pass },
            ..self.emit(root_commands(self.pass.kind, elements, range.0, range.1))
        }
    }

    /// The commands by which a pipeline's layout takes the place of the
    /// one bound: none if it is the one bound; else `set_signature` and
    /// the native binding of every root slot of the layout.
    pub open spec fn rebind_commands(
        self,
        signature: RootSignature,
        total_root_elements: RootIndex,
        set_signature: Command,
    ) -> Seq<Command> {
        if self.pass.signature != Some(signature) {
            seq![set_signature] + root_commands(
                self.pass.kind,
                self.pass.root_elements,
                0,
                total_root_elements as int,
            )
        } else {
            seq![]
        }
    }

    /// What setting a render pipeline leads to.
    pub open spec fn set_render_pipeline(self, pipeline: RenderPipeline) -> EncoderView {
        EncoderView {
            pass: PassView {
                signature: Some(pipeline.signature),
                vertex_buffers: Seq::new(
                    MAX_VERTEX_BUFFERS as nat,
                    |i: int| with_stride(self.pass.vertex_buffers[i], pipeline.vertex_strides@[i]),
                ),
                dirty_vertex_buffers: mark_stride_changes(
                    self.pass.dirty_vertex_buffers,
                    self.pass.vertex_buffers,
                    pipeline.vertex_strides@,
                    MAX_VERTEX_BUFFERS as nat,
                ),
                ..self.pass
            },
            ..self.emit(
                self.rebind_commands(
                    pipeline.signature,
                    pipeline.total_root_elements,
                    Command::Plain(NativeCommand::SetGraphicsRootSignature(pipeline.signature)),
                ) + seq![
                    Command::Plain(NativeCommand::SetPipelineState(pipeline.raw)),
                    Command::Plain(NativeCommand::SetPrimitiveTopology(pipeline.topology)),
                ],
            )
        }
    }

    /// What setting a compute pipeline leads to.
    pub open spec fn set_compute_pipeline(self, pipeline: ComputePipeline) -> EncoderView {
        EncoderView {
            pass: PassView { signature: Some(pipeline.signature), ..self.pass },
            ..self.emit(
                self.rebind_commands(
                    pipeline.signature,
                    pipeline.total_root_elements,
                    Command::Plain(NativeCommand::SetComputeRootSignature(pipeline.signature)),
                ) + seq![Command::Plain(NativeCommand::SetPipelineState(pipeline.raw))],
            )
        }
    }
}

/// A pipeline whose layout is not the one bound sets its signature and
/// binds every root slot of its layout; a pipeline whose layout is the one
/// bound binds no root slot.
pub proof fn lemma_rebind_commands(
    encoder: EncoderView,
    signature: RootSignature,
    total_root_elements: RootIndex,
    set_signature: Command,
)
    ensures
        encoder.pass.signature != Some(signature) ==> encoder.rebind_commands(
            signature,
            total_root_elements,
            set_signature,
        ) == seq![set_signature] + root_commands(
            encoder.pass.kind,
            encoder.pass.root_elements,
            0,
            total_root_elements as int,
        ),
        encoder.pass.signature == Some(signature) ==> encoder.rebind_commands(
            signature,
            total_root_elements,
            set_signature,
        ) == Seq::<Command>::empty(),
{
}

/// A render pass that ends with `k` resolves noted records, before it is
/// ended, one batch of `2 * k` barriers, the `k` resolves, and one batch of
/// the same `2 * k` barriers reversed.
pub proof fn lemma_resolve_pass_commands(resolves: Seq<PassResolve>)
    requires
        resolves.len() > 0,
    ensures
        resolve_pass_commands(resolves).len() == resolves.len() + 2,
        resolve_pass_commands(resolves)[0] == Command::ResourceBarrier(
            resolve_barriers(resolves),
        ),
        resolve_pass_commands(resolves)[resolves.len() as int + 1] == Command::ResourceBarrier(
            reversed_barriers(resolve_barriers(resolves)),
        ),
        resolve_barriers(resolves).len() == 2 * resolves.len(),
        reversed_barriers(resolve_barriers(resolves)).len() == 2 * resolves.len(),
{
}

impl CommandEncoder {
    /// Begins a render pass.
    pub fn begin_render_pass(&mut self, desc: &RenderPassDescriptor)
        requires
            old(self)@.list is Some,
            old(self)@.wf(),
            render_pass_fits(*desc),
        ensures
            final(self)@ == old(self)@.begin_render_pass(*desc),
            final(self)@.wf(),
    {
        self.begin_pass(PassKind::Render, desc.label);
        let ghost begun = self@;
        let ghost attachments = desc.color_attachments@;

        let mut colors: Vec<CpuDescriptor> = Vec::new();
        let mut i: usize = 0;
        while i < desc.color_attachments.len()
            invariant
                render_pass_fits(*desc),
                attachments == desc.color_attachments@,
                i <= attachments.len(),
                colors@ == color_views(attachments.take(i as int)),
            decreases desc.color_attachments.len() - i,
        {
            colors.push(desc.color_attachments[i].target.view.handle_rtv.unwrap());
            assert(colors@ =~= color_views(attachments.take(i + 1)));
            i += 1;
        }
        assert(attachments.take(i as int) =~= attachments);
        let ds_view: Option<CpuDescriptor> = match &desc.depth_stencil_attachment {
            None => None,
            Some(ds) => Some(
                if ds.target.usage.bits == TextureUses::DEPTH_STENCIL_WRITE {
                    ds.target.view.handle_dsv_rw.unwrap()
                } else {
                    ds.target.view.handle_dsv_ro.unwrap()
                },
            ),
        };
        let ghost targets = Command::SetRenderTargets {
            colors: color_views(attachments),
            depth_stencil: depth_stencil_target(desc.depth_stencil_attachment),
        };
        self.emit(NativeCommand::SetRenderTargets { colors, depth_stencil: ds_view });

        self.pass.resolves.clear();
        let mut i: usize = 0;
        assert(self@.list->0.commands =~= begun.list->0.commands + (seq![targets] + color_clears(
            attachments.take(0),
        )));
        while i < desc.color_attachments.len()
            invariant
                render_pass_fits(*desc),
                attachments == desc.color_attachments@,
                i <= attachments.len(),
                begun.list is Some,
                begun.wf(),
                self@.list == Some(
                    ListView {
                        raw: begun.list->0.raw,
                        commands: begun.list->0.commands + (seq![targets] + color_clears(
                            attachments.take(i as int),
                        )),
                    },
                ),
                self@.pass == (PassView {
                    resolves: attachment_resolves(attachments.take(i as int)),
                    ..begun.pass
                }),
                self@.temp == begun.temp,
                self@.free_lists == begun.free_lists,
                self@.shared == begun.shared,
            decreases desc.color_attachments.len() - i,
        {
            let cat = desc.color_attachments[i];
            assert(attachments.take(i + 1).drop_last() =~= attachments.take(i as int));
            if !cat.ops.load {
                self.emit(
                    NativeCommand::ClearRenderTargetView {
                        view: cat.target.view.handle_rtv.unwrap(),
                        color: cat.clear_value,
                    },
                );
            }
            if let Some(target) = cat.resolve_target {
                self.pass.resolves.push(
                    PassResolve {
                        src: cat.target.view.target_base,
                        dst: target.view.target_base,
                        format: target.view.raw_format,
                    },
                );
            }
            assert(self@.list->0.commands =~= begun.list->0.commands + (seq![targets]
                + color_clears(attachments.take(i + 1))));
            assert(self@.pass.resolves =~= attachment_resolves(attachments.take(i + 1)));
            i += 1;
        }
        assert(attachments.take(i as int) =~= attachments);
        if let Some(ds) = &desc.depth_stencil_attachment {
            let clear_depth = !ds.depth_ops.load;
            let clear_stencil = !ds.stencil_ops.load;
            if clear_depth || clear_stencil {
                self.emit(
                    NativeCommand::ClearDepthStencilView {
                        view: ds_view.unwrap(),
                        clear_depth,
                        clear_stencil,
                        depth: ds.clear_depth,
                        stencil: #[verifier::truncate]
                        (ds.clear_stencil as u8),
                    },
                );
            }
        }
        assert(self@.list->0.commands =~= old(self)@.begin_render_pass(
            *desc,
        ).list->0.commands);
    }

    /// Ends the render pass: does the resolves that the pass owes, each
    /// target taken out of the render target state before and put back into
    /// it after, and ends the pass.
    pub fn end_render_pass(&mut self)
        requires
            old(self)@.list is Some,
        ensures
            final(self)@ == old(self)@.end_render_pass(),
            final(self)@.wf(),
    {
        if !self.pass.resolves.is_empty() {
            let ghost resolves = self@.pass.resolves;
            let ghost barriers = resolve_barriers(resolves);
            self.temp.barriers.clear();
            push_resolve_barriers(&mut self.temp.barriers, self.pass.resolves.as_slice());
            assert(self@.temp.barriers =~= barriers);
            let batch = slice_to_vec(self.temp.barriers.as_slice());
            self.emit(NativeCommand::ResourceBarrier(batch));

            let ghost first = seq![Command::ResourceBarrier(barriers)];
            let mut i: usize = 0;
            assert(self@.list->0.commands =~= old(self)@.list->0.commands + (first
                + resolve_commands(resolves.take(0))));
            while i < self.pass.resolves.len()
                invariant
                    old(self)@.list is Some,
                    resolves == old(self)@.pass.resolves,
                    i <= resolves.len(),
                    self@.list == Some(
                        ListView {
                            raw: old(self)@.list->0.raw,
                            commands: old(self)@.list->0.commands + (first + resolve_commands(
                                resolves.take(i as int),
                            )),
                        },
                    ),
                    self@.pass == old(self)@.pass,
                    self@.temp == (TempView { barriers, ..old(self)@.temp }),
                    self@.free_lists == old(self)@.free_lists,
                    self@.shared == old(self)@.shared,
                decreases resolves.len() - i,
            {
                let resolve = self.pass.resolves[i];
                self.emit(
                    NativeCommand::ResolveSubresource {
                        dst: resolve.dst.resource,
                        dst_subresource: resolve.dst.index,
                        src: resolve.src.resource,
                        src_subresource: resolve.src.index,
                        format: resolve.format,
                    },
                );
                assert(self@.list->0.commands =~= old(self)@.list->0.commands + (first
                    + resolve_commands(resolves.take(i + 1))));
                i += 1;
            }
            assert(resolves.take(i as int) =~= resolves);

            // Reverse the barriers: back into the render target state.
            reverse_barriers(&mut self.temp.barriers);
            let batch = slice_to_vec(self.temp.barriers.as_slice());
            self.emit(NativeCommand::ResourceBarrier(batch));
            assert(self@.list->0.commands =~= old(self)@.list->0.commands
                + resolve_pass_commands(resolves));
        }
        self.end_pass();
        assert(final(self)@.list->0.commands =~= old(self)@.end_render_pass().list->0.commands);
    }

    /// Binds a bind group at `index` of a pipeline layout.
    pub fn set_bind_group(
        &mut self,
        layout: &PipelineLayout,
        index: u32,
        group: &BindGroup,
        dynamic_offsets: &[u32],
        invalidation: BindingInvalidation,
    )
        requires
            old(self)@.list is Some,
            old(self)@.wf(),
            layout.wf(),
            index < layout.bind_group_infos@.len(),
            bind_group_fits(
                layout.bind_group_infos@[index as int],
                *group,
                dynamic_offsets@,
                invalidation,
            ),
        ensures
            final(self)@ == old(self)@.set_bind_group(
                *layout,
                index,
                *group,
                dynamic_offsets@,
                invalidation,
            ),
            final(self)@.wf(),
    {
        let info = &layout.bind_group_infos[index as usize];
        let touched = bind_group_elements(
            &mut self.pass.root_elements,
            info,
            group,
            dynamic_offsets,
            invalidation,
        );
        let changed = match self.pass.signature {
            Some(signature) => signature != layout.raw,
            None => true,
        };
        let update_range = if changed {
            // The driver forgets all root state when the signature changes.
            self.pass.signature = Some(layout.raw);
            0..layout.total_root_elements
        } else {
            touched.0..touched.1
        };
        self.update_root_elements(update_range);
    }

    /// Push constants have no native form here: nothing is done.
    pub fn set_push_constants(
        &mut self,
        layout: &PipelineLayout,
        stages: u32,
        offset: u32,
        data: &[u32],
    )
        ensures
            final(self)@ == old(self)@,
    {
    }

    /// Makes the layout of a pipeline the one bound, if it is not: sets
    /// the signature by `set_signature` and binds every root slot.
    fn rebind(
        &mut self,
        signature: RootSignature,
        total_root_elements: RootIndex,
        set_signature: NativeCommand,
    )
        requires
            old(self)@.list is Some,
            total_root_elements <= MAX_ROOT_ELEMENTS,
        ensures
            final(self)@ == (EncoderView {
                pass: PassView { signature: Some(signature), ..old(self)@.pass },
                ..old(self)@.emit(
                    old(self)@.rebind_commands(signature, total_root_elements, set_signature@),
                )
            }),
    {
        let changed = match self.pass.signature {
            Some(bound) => bound != signature,
            None => true,
        };
        if changed {
            // The driver forgets all root state when the signature changes.
            let ghost rest = root_commands(
                self@.pass.kind,
                self@.pass.root_elements,
                0,
                total_root_elements as int,
            );
            proof {
                lemma_emit_twice(old(self)@, seq![set_signature@], rest);
            }
            self.emit(set_signature);
            self.pass.signature = Some(signature);
            self.update_root_elements(0..total_root_elements);
        } else {
            proof {
                lemma_emit_nothing(self@);
            }
        }
    }

    /// Sets the render pipeline for the draws that follow.
    pub fn set_render_pipeline(&mut self, pipeline: &RenderPipeline)
        requires
            old(self)@.list is Some,
            old(self)@.wf(),
            pipeline.total_root_elements <= MAX_ROOT_ELEMENTS,
        ensures
            final(self)@ == old(self)@.set_render_pipeline(*pipeline),
            final(self)@.wf(),
    {
        self.rebind(
            pipeline.signature,
            pipeline.total_root_elements,
            NativeCommand::SetGraphicsRootSignature(pipeline.signature),
        );
        self.emit(NativeCommand::SetPipelineState(pipeline.raw));
        self.emit(NativeCommand::SetPrimitiveTopology(pipeline.topology));
        self.pass.set_vertex_strides(&pipeline.vertex_strides);
        assert(final(self)@.list->0.commands =~= old(self)@.set_render_pipeline(
            *pipeline,
        ).list->0.commands);
    }

    /// Sets the index buffer for the draws that follow.
    pub fn set_index_buffer(&mut self, binding: BufferBinding, format: IndexFormat)
        requires
            old(self)@.list is Some,
            binding.wf(),
        ensures
            final(self)@ == old(self)@.emit(
                seq![
                    Command::Plain(
                        NativeCommand::SetIndexBuffer {
                            address: binding.address() as u64,
                            size: (binding.size_in_bytes() as u64) as u32,
                            format: index_format(format),
                        },
                    ),
                ],
            ),
    {
        self.emit(
            NativeCommand::SetIndexBuffer {
                address: binding.resolve_address(),
                size: #[verifier::truncate]
                (binding.resolve_size() as u32),
                format: map_index_format(format),
            },
        );
    }

    /// Sets the vertex buffer of a slot. It is bound natively before the
    /// next draw.
    pub fn set_vertex_buffer(&mut self, index: u32, binding: BufferBinding)
        requires
            index < MAX_VERTEX_BUFFERS,
            binding.wf(),
            old(self)@.wf(),
        ensures
            final(self)@ == (EncoderView {
                pass: old(self)@.pass.set_vertex_buffer(index, binding),
                ..old(self)@
            }),
            final(self)@.wf(),
    {
        self.pass.set_vertex_buffer(index, binding);
    }

    pub fn set_viewport(&mut self, rect: &FloatRect, depth_range: Range<FloatBits>)
        requires
            old(self)@.list is Some,
        ensures
            final(self)@ == old(self)@.emit(
                seq![
                    Command::Plain(
                        NativeCommand::SetViewport {
                            x: rect.x,
                            y: rect.y,
                            width: rect.w,
                            height: rect.h,
                            min_depth: depth_range.start,
                            max_depth: depth_range.end,
                        },
                    ),
                ],
            ),
    {
        self.emit(
            NativeCommand::SetViewport {
                x: rect.x,
                y: rect.y,
                width: rect.w,
                height: rect.h,
                min_depth: depth_range.start,
                max_depth: depth_range.end,
            },
        );
    }

    /// Sets the scissor rectangle. Its far corner has to be a coordinate;
    /// the native call takes the four edges as signed numbers of the same
    /// 32 bits.
    pub fn set_scissor_rect(&mut self, rect: &Rect)
        requires
            old(self)@.list is Some,
            rect.x + rect.w <= u32::MAX,
            rect.y + rect.h <= u32::MAX,
        ensures
            final(self)@ == old(self)@.emit(
                seq![
                    Command::Plain(
                        NativeCommand::SetScissorRect {
                            left: rect.x as i32,
                            top: rect.y as i32,
                            right: ((rect.x + rect.w) as u32) as i32,
                            bottom: ((rect.y + rect.h) as u32) as i32,
                        },
                    ),
                ],
            ),
    {
        self.emit(
            NativeCommand::SetScissorRect {
                left: #[verifier::truncate]
                (rect.x as i32),
                top: #[verifier::truncate]
                (rect.y as i32),
                right: #[verifier::truncate]
                ((rect.x + rect.w) as i32),
                bottom: #[verifier::truncate]
                ((rect.y + rect.h) as i32),
            },
        );
    }

    pub fn set_stencil_reference(&mut self, value: u32)
        requires
            old(self)@.list is Some,
        ensures
            final(self)@ == old(self)@.emit(
                seq![Command::Plain(NativeCommand::SetStencilReference(value))],
            ),
    {
        self.emit(NativeCommand::SetStencilReference(value));
    }

    pub fn set_blend_constants(&mut self, color: &ColorBits)
        requires
            old(self)@.list is Some,
        ensures
            final(self)@ == old(self)@.emit(
                seq![Command::Plain(NativeCommand::SetBlendFactor(*color))],
            ),
    {
        self.emit(NativeCommand::SetBlendFactor(*color));
    }

    /// Binds the dirty vertex buffer slots and draws.
    pub fn draw(
        &mut self,
        start_vertex: u32,
        vertex_count: u32,
        start_instance: u32,
        instance_count: u32,
    )
        requires
            old(self)@.list is Some,
            old(self)@.wf(),
            old(self)@.in_pass(),
        ensures
            final(self)@ == old(self)@.prepare_draw().emit(
                seq![
                    Command::Plain(
                        NativeCommand::Draw {
                            vertex_count,
                            instance_count,
                            start_vertex,
                            start_instance,
                        },
                    ),
                ],
            ),
            final(self)@.wf(),
    {
        self.prepare_draw();
        self.emit(
            NativeCommand::Draw { vertex_count, instance_count, start_vertex, start_instance },
        );
    }

    /// Binds the dirty vertex buffer slots and draws indexed.
    pub fn draw_indexed(
        &mut self,
        start_index: u32,
        index_count: u32,
        base_vertex: i32,
        start_instance: u32,
        instance_count: u32,
    )
        requires
            old(self)@.list is Some,
            old(self)@.wf(),
            old(self)@.in_pass(),
        ensures
            final(self)@ == old(self)@.prepare_draw().emit(
                seq![
                    Command::Plain(
                        NativeCommand::DrawIndexed {
                            index_count,
                            instance_count,
                            start_index,
                            base_vertex,
                            start_instance,
                        },
                    ),
                ],
            ),
            final(self)@.wf(),
    {
        self.prepare_draw();
        self.emit(
            NativeCommand::DrawIndexed {
                index_count,
                instance_count,
                start_index,
                base_vertex,
                start_instance,
            },
        );
    }

    /// Binds the dirty vertex buffer slots and runs `draw_count` draws
    /// whose arguments lie in `buffer` from `offset` on.
    pub fn draw_indirect(&mut self, buffer: &Buffer, offset: u64, draw_count: u32)
        requires
            old(self)@.list is Some,
            old(self)@.wf(),
            old(self)@.in_pass(),
        ensures
            final(self)@ == old(self)@.prepare_draw().emit(
                seq![
                    execute_indirect(
                        old(self)@.shared.cmd_signatures.draw,
                        draw_count,
                        *buffer,
                        offset,
                        None,
                    ),
                ],
            ),
            final(self)@.wf(),
    {
        self.prepare_draw();
        self.emit(
            NativeCommand::ExecuteIndirect {
                signature: self.shared.cmd_signatures.draw,
                max_count: draw_count,
                arguments: buffer.resource,
                arguments_offset: offset,
                count: None,
                count_offset: 0,
            },
        );
    }

    /// As `draw_indirect`, for indexed draws.
    pub fn draw_indexed_indirect(&mut self, buffer: &Buffer, offset: u64, draw_count: u32)
        requires
            old(self)@.list is Some,
            old(self)@.wf(),
            old(self)@.in_pass(),
        ensures
            final(self)@ == old(self)@.prepare_draw().emit(
                seq![
                    execute_indirect(
                        old(self)@.shared.cmd_signatures.draw_indexed,
                        draw_count,
                        *buffer,
                        offset,
                        None,
                    ),
                ],
            ),
            final(self)@.wf(),
    {
        self.prepare_draw();
        self.emit(
            NativeCommand::ExecuteIndirect {
                signature: self.shared.cmd_signatures.draw_indexed,
                max_count: draw_count,
                arguments: buffer.resource,
                arguments_offset: offset,
                count: None,
                count_offset: 0,
            },
        );
    }

    /// Binds the dirty vertex buffer slots and runs draws whose arguments
    /// lie in `buffer`: as many as `count_buffer` holds at `count_offset`,
    /// and `max_count` at most.
    pub fn draw_indirect_count(
        &mut self,
        buffer: &Buffer,
        offset: u64,
        count_buffer: &Buffer,
        count_offset: u64,
        max_count: u32,
    )
        requires
            old(self)@.list is Some,
            old(self)@.wf(),
            old(self)@.in_pass(),
        ensures
            final(self)@ == old(self)@.prepare_draw().emit(
                seq![
                    execute_indirect(
                        old(self)@.shared.cmd_signatures.draw,
                        max_count,
                        *buffer,
                        offset,
                        Some((*count_buffer, count_offset)),
                    ),
                ],
            ),
            final(self)@.wf(),
    {
        self.prepare_draw();
        self.emit(
            NativeCommand::ExecuteIndirect {
                signature: self.shared.cmd_signatures.draw,
                max_count,
                arguments: buffer.resource,
                arguments_offset: offset,
                count: Some(count_buffer.resource),
                count_offset,
            },
        );
    }

    /// As `draw_indirect_count`, for indexed draws.
    pub fn draw_indexed_indirect_count(
        &mut self,
        buffer: &Buffer,
        offset: u64,
        count_buffer: &Buffer,
        count_offset: u64,
        max_count: u32,
    )
        requires
            old(self)@.list is Some,
            old(self)@.wf(),
            old(self)@.in_pass(),
        ensures
            final(self)@ == old(self)@.prepare_draw().emit(
                seq![
                    execute_indirect(
                        old(self)@.shared.cmd_signatures.draw_indexed,
                        max_count,
                        *buffer,
                        offset,
                        Some((*count_buffer, count_offset)),
                    ),
                ],
            ),
            final(self)@.wf(),
    {
        self.prepare_draw();
        self.emit(
            NativeCommand::ExecuteIndirect {
                signature: self.shared.cmd_signatures.draw_indexed,
                max_count,
                arguments: buffer.resource,
                arguments_offset: offset,
                count: Some(count_buffer.resource),
                count_offset,
            },
        );
    }

    /// Begins a compute pass.
    pub fn begin_compute_pass(&mut self, desc: &ComputePassDescriptor)
        requires
            old(self)@.list is Some,
            old(self)@.wf(),
            label_fits(label_text(desc.label)),
        ensures
            final(self)@ == old(self)@.begin_pass(PassKind::Compute, label_text(desc.label)),
            final(self)@.wf(),
    {
        self.begin_pass(PassKind::Compute, desc.label);
    }

    /// Ends the compute pass.
    pub fn end_compute_pass(&mut self)
        requires
            old(self)@.list is Some,
        ensures
            final(self)@ == old(self)@.end_pass(),
            final(self)@.wf(),
    {
        self.end_pass();
    }

    /// Sets the compute pipeline for the dispatches that follow.
    pub fn set_compute_pipeline(&mut self, pipeline: &ComputePipeline)
        requires
            old(self)@.list is Some,
            pipeline.total_root_elements <= MAX_ROOT_ELEMENTS,
        ensures
            final(self)@ == old(self)@.set_compute_pipeline(*pipeline),
    {
        self.rebind(
            pipeline.signature,
            pipeline.total_root_elements,
            NativeCommand::SetComputeRootSignature(pipeline.signature),
        );
        self.emit(NativeCommand::SetPipelineState(pipeline.raw));
        assert(final(self)@.list->0.commands =~= old(self)@.set_compute_pipeline(
            *pipeline,
        ).list->0.commands);
    }

    /// Dispatches `count` work groups along the three axes.
    pub fn dispatch(&mut self, count: [u32; 3])
        requires
            old(self)@.list is Some,
        ensures
            final(self)@ == old(self)@.emit(
                seq![
                    Command::Plain(
                        NativeCommand::Dispatch { x: count@[0], y: count@[1], z: count@[2] },
                    ),
                ],
            ),
    {
        self.emit(NativeCommand::Dispatch { x: count[0], y: count[1], z: count[2] });
    }

    /// Dispatches work groups whose number lies in `buffer` at `offset`.
    pub fn dispatch_indirect(&mut self, buffer: &Buffer, offset: u64)
        requires
            old(self)@.list is Some,
        ensures
            final(self)@ == old(self)@.emit(
                seq![
                    execute_indirect(
                        old(self)@.shared.cmd_signatures.dispatch,
                        1,
                        *buffer,
                        offset,
                        None,
                    ),
                ],
            ),
    {
        self.emit(
            NativeCommand::ExecuteIndirect {
                signature: self.shared.cmd_signatures.dispatch,
                max_count: 1,
                arguments: buffer.resource,
                arguments_offset: offset,
                count: None,
                count_offset: 0,
            },
        );
    }
}

} // verus!
