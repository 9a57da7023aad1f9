//! The command encoder: the list that is open, the pool of lists that wait
//! for reuse, and the state of the pass that is open.

use crate::native::{
    Command, CommandBuffer, CommandList, ListHandle, ListView, NativeCommand, RootIndex,
};
use crate::pass::{lemma_no_dirty_slots, vertex_flush, PassState, PassView};
use crate::resource::{CommandSignature, HeapHandle, ResourceHandle};
use crate::root::{root_command_for, root_commands, PassKind, MAX_ROOT_ELEMENTS};
use crate::temp::{wide_string, wide_text, wide_text_size, Temp, TempView};
use core::ops::Range;
use vstd::prelude::*;
use vstd::slice::slice_to_vec;

verus! {

/// The signatures for the three kinds of indirect execution.
#[derive(Clone, Copy, Debug, PartialEq, Eq, Structural)]
pub struct CommandSignatures {
    pub draw: CommandSignature,
    pub draw_indexed: CommandSignature,
    pub dispatch: CommandSignature,
}

/// What all encoders of a device share: the two descriptor heaps that
/// shaders read from, the signatures for indirect execution, and a buffer of
/// `ZERO_BUFFER_SIZE` zero bytes.
#[derive(Clone, Copy, Debug, PartialEq, Eq, Structural)]
pub struct DeviceShared {
    pub heap_views: HeapHandle,
    pub heap_samplers: HeapHandle,
    pub zero_buffer: ResourceHandle,
    pub cmd_signatures: CommandSignatures,
}

/// The size of the shared buffer of zeros, in bytes.
pub const ZERO_BUFFER_SIZE: u64 = 0x4_0000;

/// Why a device could not do what was asked of it.
#[derive(Clone, Copy, Debug, PartialEq, Eq, Structural)]
pub enum DeviceError {
    OutOfMemory,
    Lost,
}

/// Records native commands for one queue. At most one list is open at a
/// time; closed lists that were handed back wait in `free_lists`.
#[derive(Debug)]
pub struct CommandEncoder {
    pub shared: DeviceShared,
    pub list: Option<CommandList>,
    pub free_lists: Vec<ListHandle>,
    pub pass: PassState,
    pub temp: Temp,
}

/// An encoder as a mathematical value.
#[verifier::ext_equal]
pub ghost struct EncoderView {
    pub shared: DeviceShared,
    pub list: Option<ListView>,
    pub free_lists: Seq<ListHandle>,
    pub pass: PassView,
    pub temp: TempView,
}

impl View for CommandEncoder {
    type V = EncoderView;

    open spec fn view(&self) -> EncoderView {
        EncoderView {
            shared: self.shared,
            list: match self.list {
                Some(list) => Some(list@),
                None => None,
            },
            free_lists: self.free_lists@,
            pass: self.pass@,
            temp: self.temp@,
        }
    }
}

/// The text of a label, if there is one.
pub open spec fn label_text(label: Option<&str>) -> Option<Seq<char>> {
    match label {
        Some(text) => Some(text@),
        None => None,
    }
}

/// Whether the size of a text, in the form that the native debug calls
/// take, fits the 32 bits that they have for it.
pub open spec fn text_fits(text: Seq<char>) -> bool {
    wide_text_size(text) <= u32::MAX
}

/// Whether a label is absent or fits.
pub open spec fn label_fits(label: Option<Seq<char>>) -> bool {
    label matches Some(text) ==> text_fits(text)
}

/// The commands that a list starts with: a reset where the list was used
/// before, and its name where a label is given.
pub open spec fn begin_commands(reused: bool, label: Option<Seq<char>>) -> Seq<Command> {
    (if reused {
        seq![Command::Plain(NativeCommand::Reset)]
    } else {
        seq![]
    }) + (match label {
        Some(text) => seq![Command::SetName(wide_text(text))],
        None => seq![],
    })
}

impl EncoderView {
    /// The state of the pass is well-formed.
    pub open spec fn wf(self) -> bool {
        self.pass.wf()
    }

    /// The encoder with `commands` appended to its open list.
    pub open spec fn emit(self, commands: Seq<Command>) -> EncoderView {
        EncoderView {
            list: Some(
                ListView { raw: self.list->0.raw, commands: self.list->0.commands + commands },
            ),
            ..self
        }
    }

    /// The encoder with the list `raw` newly opened.
    pub open spec fn opened(self, raw: ListHandle, reused: bool, label: Option<Seq<char>>)
        -> EncoderView {
        EncoderView {
            list: Some(ListView { raw, commands: begin_commands(reused, label) }),
            temp: TempView { marker: seq![], barriers: seq![] },
            pass: PassView::cleared(),
            ..self
        }
    }

    /// What beginning to encode leads to. The list that the pool got last is
    /// opened again; with an empty pool the list that the device created is
    /// opened, and where it could create none the encoder stays as it is.
    pub open spec fn begin_encoding(
        self,
        label: Option<Seq<char>>,
        created: Option<Result<ListHandle, DeviceError>>,
    ) -> EncoderView {
        if self.free_lists.len() > 0 {
            EncoderView { free_lists: self.free_lists.drop_last(), ..self }.opened(
                self.free_lists.last(),
                true,
                label,
            )
        } else {
            match created {
                Some(Ok(raw)) => self.opened(raw, false, label),
                _ => self,
            }
        }
    }

    /// Whether beginning to encode succeeds, and the error if not.
    pub open spec fn begin_result(self, created: Option<Result<ListHandle, DeviceError>>)
        -> Result<(), DeviceError> {
        if self.free_lists.len() > 0 {
            Ok(())
        } else {
            match created {
                Some(Err(error)) => Err(error),
                _ => Ok(()),
            }
        }
    }

    /// What discarding leads to: the open list, if there is one, is in the
    /// pool and no list is open.
    pub open spec fn discard_encoding(self) -> EncoderView {
        match self.list {
            Some(list) => EncoderView {
                list: None,
                free_lists: self.free_lists.push(list.raw),
                ..self
            },
            None => self,
        }
    }

    /// The list that discarding closes: the open list, if there is one.
    pub open spec fn discarded_list(self) -> Option<ListHandle> {
        match self.list {
            Some(list) => Some(list.raw),
            None => None,
        }
    }

    /// The encoder after its open list was closed and handed out.
    pub open spec fn end_encoding(self) -> EncoderView {
        EncoderView { list: None, ..self }
    }

    /// The command buffer that ending gives: the open list with the command
    /// that closes it.
    pub open spec fn ended_list(self) -> ListView {
        ListView {
            raw: self.list->0.raw,
            commands: self.list->0.commands.push(Command::Plain(NativeCommand::Close)),
        }
    }

    /// What beginning a pass leads to. A label is staged and opens a debug
    /// scope; the shared descriptor heaps are bound.
    pub open spec fn begin_pass(self, kind: PassKind, label: Option<Seq<char>>) -> EncoderView {
        let heaps = Command::Plain(
            NativeCommand::SetDescriptorHeaps {
                views: self.shared.heap_views,
                samplers: self.shared.heap_samplers,
            },
        );
        match label {
            Some(text) => EncoderView {
                temp: TempView { marker: wide_text(text), ..self.temp },
                pass: PassView { has_label: true, kind, ..self.pass },
                ..self.emit(
                    seq![
                        Command::BeginEvent {
                            text: wide_text(text),
                            size: wide_text_size(text) as u32,
                        },
                        heaps,
                    ],
                )
            },
            None => EncoderView { pass: PassView { kind, ..self.pass }, ..self.emit(seq![heaps]) },
        }
    }

    /// The commands that end a pass: the descriptor heaps are unbound, and
    /// the debug scope is closed if the pass opened one.
    pub open spec fn end_pass_commands(self) -> Seq<Command> {
        if self.pass.has_label {
            seq![
                Command::Plain(NativeCommand::ClearDescriptorHeaps),
                Command::Plain(NativeCommand::EndEvent),
            ]
        } else {
            seq![Command::Plain(NativeCommand::ClearDescriptorHeaps)]
        }
    }

    /// What ending a pass leads to: nothing of the pass is left.
    pub open spec fn end_pass(self) -> EncoderView {
        EncoderView { pass: PassView::cleared(), ..self.emit(self.end_pass_commands()) }
    }

    /// What preparing a draw leads to: every dirty vertex buffer slot is
    /// bound, and none is dirty any more.
    pub open spec fn prepare_draw(self) -> EncoderView {
        EncoderView {
            pass: PassView { dirty_vertex_buffers: 0, ..self.pass },
            ..self.emit(vertex_flush(self.pass.dirty_vertex_buffers, self.pass.vertex_buffers))
        }
    }
}

/// Appending commands in two steps is appending them all in one.
pub proof fn lemma_emit_twice(encoder: EncoderView, first: Seq<Command>, second: Seq<Command>)
    ensures
        encoder.emit(first).emit(second) == encoder.emit(first + second),
{
    assert(encoder.emit(first).emit(second).list->0.commands =~= encoder.emit(
        first + second,
    ).list->0.commands);
}

/// Appending one more command after others is appending them all.
pub proof fn lemma_emit_next(encoder: EncoderView, done: Seq<Command>, next: Command)
    ensures
        encoder.emit(done).emit(seq![next]) == encoder.emit(done.push(next)),
{
    assert(encoder.emit(done).emit(seq![next]).list->0.commands =~= encoder.emit(
        done.push(next),
    ).list->0.commands);
}

/// Appending no command changes nothing where a list is open.
pub proof fn lemma_emit_nothing(encoder: EncoderView)
    requires
        encoder.list is Some,
    ensures
        encoder.emit(seq![]) == encoder,
{
    assert(encoder.emit(seq![]).list->0.commands =~= encoder.list->0.commands);
    assert(encoder.emit(seq![]).list->0 == encoder.list->0);
}

/// Encoding that begins on an encoder with a list in its pool, or with a
/// list that the device created, and ends at once gives a closed command
/// buffer that holds nothing but the commands every list starts with.
pub proof fn lemma_begin_then_end(
    encoder: EncoderView,
    label: Option<Seq<char>>,
    created: Option<Result<ListHandle, DeviceError>>,
)
    requires
        encoder.free_lists.len() > 0 || created matches Some(Ok(_)),
    ensures
        encoder.begin_result(created) is Ok,
        encoder.begin_encoding(label, created).list is Some,
        encoder.begin_encoding(label, created).ended_list().commands == begin_commands(
            encoder.free_lists.len() > 0,
            label,
        ).push(Command::Plain(NativeCommand::Close)),
        encoder.begin_encoding(label, created).end_encoding().list is None,
        encoder.begin_encoding(label, created).end_encoding().free_lists
            == encoder.begin_encoding(label, created).free_lists,
{
}

/// A list that is discarded goes back to the pool, and the encoding that
/// begins next opens that very list again, whatever the device would have
/// created.
pub proof fn lemma_discard_then_begin(
    encoder: EncoderView,
    label: Option<Seq<char>>,
    created: Option<Result<ListHandle, DeviceError>>,
)
    requires
        encoder.list is Some,
    ensures
        encoder.discarded_list() == Some(encoder.list->0.raw),
        encoder.discard_encoding().list is None,
        encoder.discard_encoding().free_lists == encoder.free_lists.push(encoder.list->0.raw),
        encoder.discard_encoding().begin_result(created) is Ok,
        encoder.discard_encoding().begin_encoding(label, created).list == Some(
            ListView { raw: encoder.list->0.raw, commands: begin_commands(true, label) },
        ),
        encoder.discard_encoding().begin_encoding(label, created).free_lists
            == encoder.free_lists,
{
    let discarded = encoder.discard_encoding();
    assert(discarded.free_lists.drop_last() =~= encoder.free_lists);
}

impl CommandEncoder {
    /// An encoder with no list open and an empty pool.
    pub fn new(shared: DeviceShared) -> (encoder: CommandEncoder)
        ensures
            encoder@ == (EncoderView {
                shared,
                list: None,
                free_lists: seq![],
                pass: PassView::cleared(),
                temp: TempView { marker: seq![], barriers: seq![] },
            }),
            encoder@.wf(),
    {
        CommandEncoder {
            shared,
            list: None,
            free_lists: Vec::new(),
            pass: PassState::new(),
            temp: Temp::new(),
        }
    }

    /// Whether beginning to encode needs a list from the device: it does
    /// when the pool is empty.
    pub fn needs_new_list(&self) -> (needed: bool)
        ensures
            needed == (self@.free_lists.len() == 0),
    {
        self.free_lists.len() == 0
    }

    /// Appends one command to the open list.
    pub fn emit(&mut self, command: NativeCommand)
        requires
            old(self)@.list is Some,
        ensures
            final(self)@ == old(self)@.emit(seq![command@]),
    {
        let ghost appended = seq![command@];
        match &mut self.list {
            Some(list) => {
                list.record(command);
            },
            None => {},
        }
        assert(final(self)@.list->0.commands =~= old(self)@.list->0.commands + appended);
    }

    /// Begins to encode. `created` is what the device answered when it was
    /// asked for a new list; it is looked at only if the pool is empty.
    pub fn begin_encoding(
        &mut self,
        label: Option<&str>,
        created: Option<Result<ListHandle, DeviceError>>,
    ) -> (result: Result<(), DeviceError>)
        requires
            old(self)@.free_lists.len() == 0 ==> created is Some,
            old(self)@.wf(),
        ensures
            result == old(self)@.begin_result(created),
            final(self)@ == old(self)@.begin_encoding(label_text(label), created),
            final(self)@.wf(),
    {
        let mut list = match self.free_lists.pop() {
            Some(raw) => {
                let mut list = CommandList { raw, commands: Vec::new() };
                list.record(NativeCommand::Reset);
                list
            },
            None => match created {
                Some(Ok(raw)) => CommandList { raw, commands: Vec::new() },
                Some(Err(error)) => {
                    return Err(error);
                },
                None => {
                    return Ok(());
                },
            },
        };
        if let Some(label) = label {
            list.record(NativeCommand::SetName(wide_string(label)));
        }
        assert(list@.commands =~= begin_commands(
            old(self)@.free_lists.len() > 0,
            label_text(label),
        ));
        self.list = Some(list);
        self.temp.clear();
        self.pass.clear();
        Ok(())
    }

    /// Gives up the open list, if there is one, and puts it into the pool.
    /// Nothing of what was recorded is kept. Returns the list that was
    /// open: its native object is to be closed before it is used again.
    pub fn discard_encoding(&mut self) -> (closed: Option<ListHandle>)
        ensures
            final(self)@ == old(self)@.discard_encoding(),
            closed == old(self)@.discarded_list(),
    {
        match self.list.take() {
            Some(list) => {
                self.free_lists.push(list.raw);
                Some(list.raw)
            },
            None => None,
        }
    }

    /// Closes the open list and hands it out as a command buffer.
    pub fn end_encoding(&mut self) -> (result: Result<CommandBuffer, DeviceError>)
        requires
            old(self)@.list is Some,
        ensures
            result matches Ok(buffer) && buffer@ == old(self)@.ended_list(),
            final(self)@ == old(self)@.end_encoding(),
    {
        let mut raw = self.list.take().unwrap();
        raw.record(NativeCommand::Close);
        Ok(CommandBuffer { raw: raw.raw, commands: raw.commands })
    }

    /// Takes command buffers back whose work is done: their lists go into
    /// the pool, in the order in which they are given.
    pub fn reset_all(&mut self, command_buffers: Vec<CommandBuffer>)
        ensures
            final(self)@ == (EncoderView {
                free_lists: old(self)@.free_lists + command_buffers@.map_values(
                    |buffer: CommandBuffer| buffer.raw,
                ),
                ..old(self)@
            }),
    {
        let mut i: usize = 0;
        while i < command_buffers.len()
            invariant
                i <= command_buffers.len(),
                self@ == (EncoderView {
                    free_lists: old(self)@.free_lists + command_buffers@.take(i as int).map_values(
                        |buffer: CommandBuffer| buffer.raw,
                    ),
                    ..old(self)@
                }),
            decreases command_buffers.len() - i,
        {
            self.free_lists.push(command_buffers[i].raw);
            assert(command_buffers@.take(i + 1).map_values(|buffer: CommandBuffer| buffer.raw)
                =~= command_buffers@.take(i as int).map_values(
                |buffer: CommandBuffer| buffer.raw,
            ).push(command_buffers@[i as int].raw));
            i += 1;
        }
        assert(command_buffers@.take(i as int) =~= command_buffers@);
    }

    /// Begins a pass of the given kind.
    pub fn begin_pass(&mut self, kind: PassKind, label: Option<&str>)
        requires
            old(self)@.list is Some,
            old(self)@.wf(),
            label_fits(label_text(label)),
        ensures
            final(self)@ == old(self)@.begin_pass(kind, label_text(label)),
            final(self)@.wf(),
    {
        self.pass.kind = kind;
        if let Some(label) = label {
            let (wide_label, size) = self.temp.prepare_marker(label);
            let text = slice_to_vec(wide_label);
            self.emit(NativeCommand::BeginEvent { text, size });
            self.pass.has_label = true;
        }
        self.emit(
            NativeCommand::SetDescriptorHeaps {
                views: self.shared.heap_views,
                samplers: self.shared.heap_samplers,
            },
        );
        assert(final(self)@.list->0.commands =~= old(self)@.begin_pass(
            kind,
            label_text(label),
        ).list->0.commands);
    }

    /// Ends the pass that is open.
    pub fn end_pass(&mut self)
        requires
            old(self)@.list is Some,
        ensures
            final(self)@ == old(self)@.end_pass(),
            final(self)@.wf(),
    {
        self.emit(NativeCommand::ClearDescriptorHeaps);
        if self.pass.has_label {
            self.emit(NativeCommand::EndEvent);
        }
        self.pass.clear();
        assert(final(self)@.list->0.commands =~= old(self)@.end_pass().list->0.commands);
    }

    /// Binds every vertex buffer slot that changed since it was last bound,
    /// lowest slot first, so that a draw finds them all as they were set.
    pub fn prepare_draw(&mut self)
        requires
            old(self)@.list is Some,
            old(self)@.wf(),
        ensures
            final(self)@ == old(self)@.prepare_draw(),
            final(self)@.wf(),
    {
        let ghost views = self@.pass.vertex_buffers;
        let ghost all = vertex_flush(self@.pass.dirty_vertex_buffers, views);
        let ghost emitted = Seq::<Command>::empty();
        while self.pass.dirty_vertex_buffers != 0
            invariant
                self@.list is Some,
                self@.wf(),
                old(self)@.list is Some,
                views == old(self)@.pass.vertex_buffers,
                all == vertex_flush(old(self)@.pass.dirty_vertex_buffers, views),
                emitted + vertex_flush(self@.pass.dirty_vertex_buffers, views) == all,
                self@ == (EncoderView {
                    pass: PassView {
                        dirty_vertex_buffers: self@.pass.dirty_vertex_buffers,
                        ..old(self)@.pass
                    },
                    ..old(self)@.emit(emitted)
                }),
            decreases self.pass.dirty_vertex_buffers,
        {
            let ghost before = self@;
            let index = self.pass.take_dirty_slot();
            let view = self.pass.vertex_buffers[index as usize];
            let command = NativeCommand::SetVertexBuffer { slot: index, view };
            proof {
                assert(vertex_flush(before.pass.dirty_vertex_buffers, views) =~= seq![command@]
                    + vertex_flush(self@.pass.dirty_vertex_buffers, views));
                lemma_emit_twice(old(self)@, emitted, seq![command@]);
                emitted = emitted + seq![command@];
            }
            self.emit(command);
        }
        proof {
            lemma_no_dirty_slots();
            assert(emitted =~= all);
        }
    }

    /// Binds natively what the root slots of `range` hold, in the order of
    /// the slots.
    pub fn update_root_elements(&mut self, range: Range<RootIndex>)
        requires
            old(self)@.list is Some,
            range.start < range.end ==> range.end <= MAX_ROOT_ELEMENTS,
        ensures
            final(self)@ == old(self)@.emit(
                root_commands(
                    old(self)@.pass.kind,
                    old(self)@.pass.root_elements,
                    range.start as int,
                    range.end as int,
                ),
            ),
    {
        let mut index = range.start;
        proof {
            lemma_emit_nothing(self@);
        }
        while index < range.end
            invariant
                old(self)@.list is Some,
                range.start < range.end ==> range.end <= MAX_ROOT_ELEMENTS,
                range.start <= index,
                range.start < range.end ==> index <= range.end,
                range.start >= range.end ==> index == range.start,
                self@ == old(self)@.emit(
                    root_commands(
                        old(self)@.pass.kind,
                        old(self)@.pass.root_elements,
                        range.start as int,
                        index as int,
                    ),
                ),
            decreases range.end - index,
        {
            let ghost done = root_commands(
                old(self)@.pass.kind,
                old(self)@.pass.root_elements,
                range.start as int,
                index as int,
            );
            let element = self.pass.root_elements[index as usize];
            match root_command_for(self.pass.kind, index, element) {
                Some(command) => {
                    proof {
                        lemma_emit_twice(old(self)@, done, seq![command@]);
                    }
                    self.emit(command);
                },
                None => {
                    assert(done + Seq::<Command>::empty() =~= done);
                },
            }
            index += 1;
        }
        assert(root_commands(
            old(self)@.pass.kind,
            old(self)@.pass.root_elements,
            range.start as int,
            index as int,
        ) == root_commands(
            old(self)@.pass.kind,
            old(self)@.pass.root_elements,
            range.start as int,
            range.end as int,
        ));
    }

    /// Inserts a debug marker.
    pub fn insert_debug_marker(&mut self, label: &str)
        requires
            old(self)@.list is Some,
            text_fits(label@),
        ensures
            final(self)@ == (EncoderView {
                temp: TempView { marker: wide_text(label@), ..old(self)@.temp },
                ..old(self)@.emit(
                    seq![
                        Command::SetMarker {
                            text: wide_text(label@),
                            size: wide_text_size(label@) as u32,
                        },
                    ],
                )
            }),
    {
        let (wide_label, size) = self.temp.prepare_marker(label);
        let text = slice_to_vec(wide_label);
        self.emit(NativeCommand::SetMarker { text, size });
    }

    /// Opens a debug scope.
    pub fn begin_debug_marker(&mut self, group_label: &str)
        requires
            old(self)@.list is Some,
            text_fits(group_label@),
        ensures
            final(self)@ == (EncoderView {
                temp: TempView { marker: wide_text(group_label@), ..old(self)@.temp },
                ..old(self)@.emit(
                    seq![
                        Command::BeginEvent {
                            text: wide_text(group_label@),
                            size: wide_text_size(group_label@) as u32,
                        },
                    ],
                )
            }),
    {
        let (wide_label, size) = self.temp.prepare_marker(group_label);
        let text = slice_to_vec(wide_label);
        self.emit(NativeCommand::BeginEvent { text, size });
    }

    /// Closes the innermost debug scope.
    pub fn end_debug_marker(&mut self)
        requires
            old(self)@.list is Some,
        ensures
            final(self)@ == old(self)@.emit(seq![Command::Plain(NativeCommand::EndEvent)]),
    {
        self.emit(NativeCommand::EndEvent);
    }
}

} // verus!
