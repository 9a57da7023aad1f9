use dx12_encoder::encoder::{CommandEncoder, CommandSignatures, DeviceError, DeviceShared};
use dx12_encoder::native::{CommandBuffer, NativeCommand, VertexBufferView};
use dx12_encoder::root::{PassKind, RootElement};
use dx12_encoder::temp::{wide_string, Temp};

fn lifecycle_shared() -> DeviceShared {
    DeviceShared {
        heap_views: 11,
        heap_samplers: 12,
        zero_buffer: 13,
        cmd_signatures: CommandSignatures { draw: 21, draw_indexed: 22, dispatch: 23 },
    }
}

fn wide(text: &str) -> Vec<u16> {
    let mut units: Vec<u16> = text.encode_utf16().collect();
    units.push(0);
    units
}

#[test]
fn marker_is_staged_as_utf16_with_a_zero_at_the_end() {
    let mut temp = Temp::new();
    let (text, size) = temp.prepare_marker("ab");
    assert_eq!(text, &[0x61u16, 0x62, 0][..]);
    assert_eq!(size, 6);
    assert_eq!(temp.marker, vec![0x61, 0x62, 0]);
}

#[test]
fn marker_outside_the_basic_plane_takes_a_surrogate_pair() {
    let mut temp = Temp::new();
    let (text, size) = temp.prepare_marker("a\u{1F600}\u{e9}\u{FFFF}\u{10000}\u{10FFFF}");
    assert_eq!(
        text,
        &[0x61u16, 0xD83D, 0xDE00, 0xE9, 0xFFFF, 0xD800, 0xDC00, 0xDBFF, 0xDFFF, 0][..]
    );
    assert_eq!(size, 20);
}

#[test]
fn empty_marker_is_a_single_zero() {
    let mut temp = Temp::new();
    let (text, size) = temp.prepare_marker("");
    assert_eq!(text, &[0u16][..]);
    assert_eq!(size, 2);
}

#[test]
fn marker_replaces_the_one_staged_before() {
    let mut temp = Temp::new();
    temp.prepare_marker("a long marker");
    let (text, size) = temp.prepare_marker("b");
    assert_eq!(text, &[0x62u16, 0][..]);
    assert_eq!(size, 4);
    assert_eq!(temp.barriers, vec![]);
}

#[test]
fn wide_string_ends_with_a_zero() {
    assert_eq!(wide_string("hi"), vec![0x68, 0x69, 0]);
    assert_eq!(wide_string(""), vec![0]);
    assert_eq!(wide_string("\u{1F600}"), vec![0xD83D, 0xDE00, 0]);
}

#[test]
fn new_encoder_has_no_list() {
    let encoder = CommandEncoder::new(lifecycle_shared());
    assert!(encoder.list.is_none());
    assert_eq!(encoder.free_lists, vec![]);
    assert!(encoder.needs_new_list());
    assert_eq!(encoder.pass.kind, PassKind::Transfer);
    assert_eq!(encoder.pass.signature, None);
    assert_eq!(encoder.pass.dirty_vertex_buffers, 0);
    assert!(!encoder.pass.has_label);
    assert!(encoder.pass.root_elements.iter().all(|element| *element == RootElement::Empty));
    assert_eq!(encoder.pass.root_elements.len(), 64);
    assert_eq!(encoder.pass.vertex_buffers.len(), 16);
    assert!(encoder.pass.vertex_buffers.iter().all(|view| *view
        == VertexBufferView { buffer_location: 0, size_in_bytes: 0, stride_in_bytes: 0 }));
}

#[test]
fn begin_then_end_gives_an_empty_closed_buffer() {
    let mut encoder = CommandEncoder::new(lifecycle_shared());
    assert_eq!(encoder.begin_encoding(None, Some(Ok(5))), Ok(()));
    assert_eq!(encoder.list.as_ref().unwrap().raw, 5);
    assert_eq!(encoder.list.as_ref().unwrap().commands, vec![]);
    let buffer = encoder.end_encoding().unwrap();
    assert_eq!(buffer, CommandBuffer { raw: 5, commands: vec![NativeCommand::Close] });
    assert!(encoder.list.is_none());
    assert_eq!(encoder.free_lists, vec![]);
}

#[test]
fn label_names_the_list() {
    let mut encoder = CommandEncoder::new(lifecycle_shared());
    encoder.begin_encoding(Some("frame \u{e9}"), Some(Ok(5))).unwrap();
    assert_eq!(
        encoder.list.as_ref().unwrap().commands,
        vec![NativeCommand::SetName(wide("frame \u{e9}"))]
    );
}

#[test]
fn creation_failure_is_reported_and_changes_nothing() {
    let mut encoder = CommandEncoder::new(lifecycle_shared());
    assert_eq!(
        encoder.begin_encoding(Some("x"), Some(Err(DeviceError::OutOfMemory))),
        Err(DeviceError::OutOfMemory)
    );
    assert!(encoder.list.is_none());
    assert_eq!(encoder.free_lists, vec![]);
    assert_eq!(
        encoder.begin_encoding(None, Some(Err(DeviceError::Lost))),
        Err(DeviceError::Lost)
    );
    assert!(encoder.list.is_none());
    assert_eq!(encoder.begin_encoding(None, Some(Ok(3))), Ok(()));
    assert_eq!(encoder.list.as_ref().unwrap().raw, 3);
}

#[test]
fn discard_returns_the_list_to_the_pool_and_begin_reuses_it() {
    let mut encoder = CommandEncoder::new(lifecycle_shared());
    encoder.begin_encoding(None, Some(Ok(5))).unwrap();
    encoder.insert_debug_marker("dropped");
    assert_eq!(encoder.discard_encoding(), Some(5));
    assert!(encoder.list.is_none());
    assert_eq!(encoder.free_lists, vec![5]);
    assert!(!encoder.needs_new_list());

    assert_eq!(encoder.begin_encoding(Some("again"), None), Ok(()));
    assert_eq!(encoder.free_lists, vec![]);
    let list = encoder.list.as_ref().unwrap();
    assert_eq!(list.raw, 5);
    assert_eq!(list.commands, vec![NativeCommand::Reset, NativeCommand::SetName(wide("again"))]);
}

#[test]
fn pooled_list_is_preferred_to_a_created_one() {
    let mut encoder = CommandEncoder::new(lifecycle_shared());
    encoder.begin_encoding(None, Some(Ok(5))).unwrap();
    encoder.discard_encoding();
    assert_eq!(encoder.begin_encoding(None, Some(Err(DeviceError::Lost))), Ok(()));
    assert_eq!(encoder.list.as_ref().unwrap().raw, 5);
    encoder.discard_encoding();
    assert_eq!(encoder.begin_encoding(None, Some(Ok(6))), Ok(()));
    assert_eq!(encoder.list.as_ref().unwrap().raw, 5);
    assert_eq!(encoder.list.as_ref().unwrap().commands, vec![NativeCommand::Reset]);
}

#[test]
fn discard_without_an_open_list_does_nothing() {
    let mut encoder = CommandEncoder::new(lifecycle_shared());
    assert_eq!(encoder.discard_encoding(), None);
    assert!(encoder.list.is_none());
    assert_eq!(encoder.free_lists, vec![]);
}

#[test]
fn ended_buffer_is_not_reused_until_it_is_reset() {
    let mut encoder = CommandEncoder::new(lifecycle_shared());
    encoder.begin_encoding(None, Some(Ok(5))).unwrap();
    let first = encoder.end_encoding().unwrap();
    assert!(encoder.needs_new_list());
    encoder.begin_encoding(None, Some(Ok(6))).unwrap();
    let second = encoder.end_encoding().unwrap();
    assert_eq!(second.raw, 6);

    encoder.reset_all(vec![first, second]);
    assert_eq!(encoder.free_lists, vec![5, 6]);
    encoder.begin_encoding(None, None).unwrap();
    assert_eq!(encoder.list.as_ref().unwrap().raw, 6);
    assert_eq!(encoder.free_lists, vec![5]);
}

#[test]
fn reset_all_of_nothing_keeps_the_pool() {
    let mut encoder = CommandEncoder::new(lifecycle_shared());
    encoder.begin_encoding(None, Some(Ok(5))).unwrap();
    encoder.discard_encoding();
    encoder.reset_all(vec![]);
    assert_eq!(encoder.free_lists, vec![5]);
}

#[test]
fn begin_clears_pass_and_scratch() {
    let mut encoder = CommandEncoder::new(lifecycle_shared());
    encoder.begin_encoding(None, Some(Ok(5))).unwrap();
    encoder.begin_pass(PassKind::Compute, Some("pass"));
    encoder.discard_encoding();
    assert_eq!(encoder.pass.kind, PassKind::Compute);
    assert!(!encoder.temp.marker.is_empty());
    encoder.begin_encoding(None, None).unwrap();
    assert_eq!(encoder.pass.kind, PassKind::Transfer);
    assert!(!encoder.pass.has_label);
    assert_eq!(encoder.temp.marker, vec![]);
    assert_eq!(encoder.temp.barriers, vec![]);
}

#[test]
fn commands_are_recorded_in_the_order_of_the_calls() {
    let mut encoder = CommandEncoder::new(lifecycle_shared());
    encoder.begin_encoding(None, Some(Ok(5))).unwrap();
    encoder.begin_debug_marker("outer");
    encoder.insert_debug_marker("m");
    encoder.end_debug_marker();
    let buffer = encoder.end_encoding().unwrap();
    assert_eq!(
        buffer.commands,
        vec![
            NativeCommand::BeginEvent { text: wide("outer"), size: 12 },
            NativeCommand::SetMarker { text: wide("m"), size: 4 },
            NativeCommand::EndEvent,
            NativeCommand::Close,
        ]
    );
}

#[test]
fn pass_with_a_label_opens_and_closes_a_scope() {
    let mut encoder = CommandEncoder::new(lifecycle_shared());
    encoder.begin_encoding(None, Some(Ok(5))).unwrap();
    encoder.begin_pass(PassKind::Compute, Some("c"));
    assert_eq!(encoder.pass.kind, PassKind::Compute);
    assert!(encoder.pass.has_label);
    assert_eq!(encoder.temp.marker, wide("c"));
    encoder.end_pass();
    assert_eq!(encoder.pass.kind, PassKind::Transfer);
    assert!(!encoder.pass.has_label);
    assert_eq!(
        encoder.list.as_ref().unwrap().commands,
        vec![
            NativeCommand::BeginEvent { text: wide("c"), size: 4 },
            NativeCommand::SetDescriptorHeaps { views: 11, samplers: 12 },
            NativeCommand::ClearDescriptorHeaps,
            NativeCommand::EndEvent,
        ]
    );
}

#[test]
fn pass_without_a_label_opens_no_scope() {
    let mut encoder = CommandEncoder::new(lifecycle_shared());
    encoder.begin_encoding(None, Some(Ok(5))).unwrap();
    encoder.begin_pass(PassKind::Render, None);
    assert_eq!(encoder.pass.kind, PassKind::Render);
    assert!(!encoder.pass.has_label);
    encoder.end_pass();
    assert_eq!(
        encoder.list.as_ref().unwrap().commands,
        vec![
            NativeCommand::SetDescriptorHeaps { views: 11, samplers: 12 },
            NativeCommand::ClearDescriptorHeaps,
        ]
    );
}
