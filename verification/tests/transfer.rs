use dx12_encoder::encoder::{CommandEncoder, CommandSignatures, DeviceShared, ZERO_BUFFER_SIZE};
use dx12_encoder::native::{Box3d, CopyLocation, NativeCommand, PlacedFootprint};
use dx12_encoder::resource::{
    map_index_format, Buffer, BufferBinding, CopyExtent, IndexFormat, Origin3d, QuerySet, Texture,
    TextureAspect, TextureCopyBase,
};
use dx12_encoder::transfer::{
    make_box, BufferCopy, BufferTextureCopy, ImageDataLayout, TextureCopy,
};
use dx12_encoder::usage::TextureUses;

fn transfer_encoder() -> CommandEncoder {
    let shared = DeviceShared {
        heap_views: 11,
        heap_samplers: 12,
        zero_buffer: 13,
        cmd_signatures: CommandSignatures { draw: 21, draw_indexed: 22, dispatch: 23 },
    };
    let mut encoder = CommandEncoder::new(shared);
    encoder.begin_encoding(None, Some(Ok(1))).unwrap();
    encoder
}

fn recorded(encoder: &CommandEncoder) -> &Vec<NativeCommand> {
    &encoder.list.as_ref().unwrap().commands
}

fn zero_copy(dst_offset: u64, size: u64) -> NativeCommand {
    NativeCommand::CopyBufferRegion { dst: 30, dst_offset, src: 13, src_offset: 0, size }
}

fn target() -> Buffer {
    Buffer { resource: 30, gpu_address: 0x8000, size: 1 << 30 }
}

fn source_texture() -> Texture {
    Texture { resource: 40, format: 28, mip_level_count: 3, array_layer_count: 4 }
}

fn target_texture() -> Texture {
    Texture { resource: 41, format: 87, mip_level_count: 5, array_layer_count: 2 }
}

fn base(mip_level: u32, array_layer: u32, x: u32, y: u32, z: u32) -> TextureCopyBase {
    TextureCopyBase {
        mip_level,
        array_layer,
        origin: Origin3d { x, y, z },
        aspect: TextureAspect::All,
    }
}

#[test]
fn zero_buffer_holds_256_kib() {
    assert_eq!(ZERO_BUFFER_SIZE, 262144);
}

#[test]
fn fill_of_a_large_range_is_split_into_chunks() {
    let mut encoder = transfer_encoder();
    encoder.fill_buffer(&target(), 10..10 + 2 * 262144 + 5, 0);
    assert_eq!(
        *recorded(&encoder),
        vec![zero_copy(10, 262144), zero_copy(262154, 262144), zero_copy(524298, 5)]
    );
}

#[test]
fn fill_chunks_cover_the_range_once_and_in_order() {
    for len in [1u64, 262143, 262144, 262145, 524288, 1000000] {
        let start = 4096u64;
        let mut encoder = transfer_encoder();
        encoder.fill_buffer(&target(), start..start + len, 0);
        let commands = recorded(&encoder);
        assert_eq!(commands.len() as u64, (len + 262143) / 262144);
        let mut at = start;
        for command in commands {
            match command {
                NativeCommand::CopyBufferRegion { dst, dst_offset, src, src_offset, size } => {
                    assert_eq!((*dst, *src, *src_offset), (30, 13, 0));
                    assert_eq!(*dst_offset, at);
                    assert!(*size >= 1 && *size <= 262144);
                    at += *size;
                }
                other => panic!("not a copy: {:?}", other),
            }
        }
        assert_eq!(at, start + len);
    }
}

#[test]
fn fill_of_exactly_one_chunk_is_one_copy() {
    let mut encoder = transfer_encoder();
    encoder.fill_buffer(&target(), 0..262144, 0);
    assert_eq!(*recorded(&encoder), vec![zero_copy(0, 262144)]);
}

#[test]
fn fill_of_an_empty_range_records_nothing() {
    let mut encoder = transfer_encoder();
    encoder.fill_buffer(&target(), 64..64, 0);
    encoder.fill_buffer(&target(), 64..32, 0);
    assert_eq!(*recorded(&encoder), vec![]);
}

#[test]
fn fill_at_the_end_of_the_address_space_does_not_wrap() {
    let mut encoder = transfer_encoder();
    encoder.fill_buffer(&target(), u64::MAX - 262145..u64::MAX, 0);
    assert_eq!(
        *recorded(&encoder),
        vec![zero_copy(u64::MAX - 262145, 262144), zero_copy(u64::MAX - 1, 1)]
    );
}

#[test]
fn buffer_copies_keep_the_order_of_the_regions() {
    let mut encoder = transfer_encoder();
    let src = Buffer { resource: 31, gpu_address: 0, size: 64 };
    encoder.copy_buffer_to_buffer(
        &src,
        &target(),
        &[
            BufferCopy { src_offset: 0, dst_offset: 16, size: 4 },
            BufferCopy { src_offset: 8, dst_offset: 0, size: 12 },
        ],
    );
    assert_eq!(
        *recorded(&encoder),
        vec![
            NativeCommand::CopyBufferRegion {
                dst: 30,
                dst_offset: 16,
                src: 31,
                src_offset: 0,
                size: 4
            },
            NativeCommand::CopyBufferRegion {
                dst: 30,
                dst_offset: 0,
                src: 31,
                src_offset: 8,
                size: 12
            },
        ]
    );
}

#[test]
fn copy_without_regions_records_nothing() {
    let mut encoder = transfer_encoder();
    encoder.copy_buffer_to_buffer(&target(), &target(), &[]);
    encoder.copy_texture_to_texture(
        &source_texture(),
        TextureUses { bits: TextureUses::COPY_SRC },
        &target_texture(),
        &[],
    );
    encoder.copy_buffer_to_texture(&target(), &target_texture(), &[]);
    encoder.copy_texture_to_buffer(
        &source_texture(),
        TextureUses { bits: TextureUses::COPY_SRC },
        &target(),
        &[],
    );
    assert_eq!(*recorded(&encoder), vec![]);
}

#[test]
fn box_spans_from_the_origin_by_the_extent() {
    let b = make_box(&Origin3d { x: 1, y: 2, z: 3 }, &CopyExtent { width: 10, height: 20, depth: 30 });
    assert_eq!(b, Box3d { left: 1, top: 2, front: 3, right: 11, bottom: 22, back: 33 });
    let zero = make_box(&Origin3d { x: 0, y: 0, z: 0 }, &CopyExtent { width: 0, height: 0, depth: 0 });
    assert_eq!(zero, Box3d { left: 0, top: 0, front: 0, right: 0, bottom: 0, back: 0 });
    let far = make_box(
        &Origin3d { x: u32::MAX - 1, y: 0, z: 0 },
        &CopyExtent { width: 1, height: u32::MAX, depth: 1 },
    );
    assert_eq!(
        far,
        Box3d { left: u32::MAX - 1, top: 0, front: 0, right: u32::MAX, bottom: u32::MAX, back: 1 }
    );
}

#[test]
fn texture_copy_names_both_subresources() {
    let mut encoder = transfer_encoder();
    encoder.copy_texture_to_texture(
        &source_texture(),
        TextureUses { bits: TextureUses::COPY_SRC },
        &target_texture(),
        &[TextureCopy {
            src_base: base(2, 3, 4, 5, 6),
            dst_base: base(4, 1, 7, 8, 9),
            size: CopyExtent { width: 16, height: 8, depth: 1 },
        }],
    );
    assert_eq!(
        *recorded(&encoder),
        vec![NativeCommand::CopyTextureRegion {
            dst: CopyLocation::Subresource { resource: 41, index: 4 + 1 * 5 },
            dst_x: 7,
            dst_y: 8,
            dst_z: 9,
            src: CopyLocation::Subresource { resource: 40, index: 2 + 3 * 3 },
            src_box: Box3d { left: 4, top: 5, front: 6, right: 20, bottom: 13, back: 7 },
        }]
    );
}

#[test]
fn buffer_to_texture_copy_raises_a_small_row_pitch() {
    let mut encoder = transfer_encoder();
    let region = |bytes_per_row, rows_per_image| BufferTextureCopy {
        buffer_layout: ImageDataLayout { offset: 512, bytes_per_row, rows_per_image },
        texture_base: base(1, 1, 2, 3, 0),
        size: CopyExtent { width: 16, height: 8, depth: 2 },
    };
    encoder.copy_buffer_to_texture(
        &target(),
        &target_texture(),
        &[region(Some(64), None), region(Some(1024), Some(32)), region(None, None)],
    );
    let expect = |row_pitch, height| NativeCommand::CopyTextureRegion {
        dst: CopyLocation::Subresource { resource: 41, index: 6 },
        dst_x: 2,
        dst_y: 3,
        dst_z: 0,
        src: CopyLocation::Footprint {
            resource: 30,
            footprint: PlacedFootprint {
                offset: 512,
                format: 87,
                width: 16,
                height,
                depth: 2,
                row_pitch,
            },
        },
        src_box: Box3d { left: 0, top: 0, front: 0, right: 16, bottom: 8, back: 2 },
    };
    assert_eq!(*recorded(&encoder), vec![expect(256, 8), expect(1024, 32), expect(0, 8)]);
}

#[test]
fn texture_to_buffer_copy_keeps_the_row_pitch() {
    let mut encoder = transfer_encoder();
    let region = |bytes_per_row, rows_per_image| BufferTextureCopy {
        buffer_layout: ImageDataLayout { offset: 768, bytes_per_row, rows_per_image },
        texture_base: base(0, 2, 2, 3, 1),
        size: CopyExtent { width: 16, height: 8, depth: 2 },
    };
    encoder.copy_texture_to_buffer(
        &source_texture(),
        TextureUses { bits: TextureUses::COPY_SRC },
        &target(),
        &[region(Some(64), Some(4)), region(None, None)],
    );
    let expect = |row_pitch, height| NativeCommand::CopyTextureRegion {
        dst: CopyLocation::Footprint {
            resource: 30,
            footprint: PlacedFootprint {
                offset: 768,
                format: 28,
                width: 16,
                height,
                depth: 2,
                row_pitch,
            },
        },
        dst_x: 0,
        dst_y: 0,
        dst_z: 0,
        src: CopyLocation::Subresource { resource: 40, index: 6 },
        src_box: Box3d { left: 2, top: 3, front: 1, right: 18, bottom: 11, back: 3 },
    };
    assert_eq!(*recorded(&encoder), vec![expect(64, 4), expect(0, 8)]);
}

#[test]
fn queries_name_heap_type_and_index() {
    let mut encoder = transfer_encoder();
    let set = QuerySet { raw: 50, raw_ty: 0 };
    encoder.begin_query(&set, 3);
    encoder.end_query(&set, 3);
    encoder.write_timestamp(&set, 4);
    encoder.reset_queries(&set, 0..8);
    encoder.copy_query_results(&set, 2..7, &target(), 256, 8);
    encoder.copy_query_results(&set, 5..5, &target(), 0, 8);
    assert_eq!(
        *recorded(&encoder),
        vec![
            NativeCommand::BeginQuery { heap: 50, ty: 0, index: 3 },
            NativeCommand::EndQuery { heap: 50, ty: 0, index: 3 },
            NativeCommand::EndQuery { heap: 50, ty: 2, index: 4 },
            NativeCommand::ResolveQueryData {
                heap: 50,
                ty: 0,
                start: 2,
                count: 5,
                dst: 30,
                dst_offset: 256
            },
            NativeCommand::ResolveQueryData {
                heap: 50,
                ty: 0,
                start: 5,
                count: 0,
                dst: 30,
                dst_offset: 0
            },
        ]
    );
}

#[test]
fn binding_resolves_size_and_address() {
    let buffer = Buffer { resource: 30, gpu_address: 0x8000, size: 1000 };
    let rest = BufferBinding { buffer, offset: 400, size: None };
    assert_eq!(rest.resolve_size(), 600);
    assert_eq!(rest.resolve_address(), 0x8000 + 400);
    let sized = BufferBinding { buffer, offset: 8, size: Some(16) };
    assert_eq!(sized.resolve_size(), 16);
    assert_eq!(sized.resolve_address(), 0x8008);
    let empty = BufferBinding { buffer, offset: 1000, size: None };
    assert_eq!(empty.resolve_size(), 0);
}

#[test]
fn index_formats_have_their_native_codes() {
    assert_eq!(map_index_format(IndexFormat::Uint16), 57);
    assert_eq!(map_index_format(IndexFormat::Uint32), 42);
}
