use dx12_encoder::barrier::{
    push_buffer_barriers, push_texture_barriers, Barrier, BufferBarrier, Subresource,
    TextureBarrier,
};
use dx12_encoder::encoder::{CommandEncoder, CommandSignatures, DeviceShared};
use dx12_encoder::native::NativeCommand;
use dx12_encoder::resource::{Buffer, Texture, TextureAspect, TextureCopyBase, TextureRange, Origin3d};
use dx12_encoder::usage::{
    map_buffer_usage_to_state, map_texture_usage_to_state, BufferUses, ResourceStates, TextureUses,
};

fn barrier_encoder() -> CommandEncoder {
    let shared = DeviceShared {
        heap_views: 11,
        heap_samplers: 12,
        zero_buffer: 13,
        cmd_signatures: CommandSignatures { draw: 21, draw_indexed: 22, dispatch: 23 },
    };
    let mut encoder = CommandEncoder::new(shared);
    encoder.begin_encoding(None, Some(Ok(1))).unwrap();
    encoder
}

fn buffer(resource: u64) -> Buffer {
    Buffer { resource, gpu_address: 0x1000, size: 256 }
}

fn buffer_change(resource: u64, before: u32, after: u32) -> BufferBarrier {
    BufferBarrier {
        buffer: buffer(resource),
        usage: BufferUses { bits: before }..BufferUses { bits: after },
    }
}

fn texture() -> Texture {
    Texture { resource: 40, format: 28, mip_level_count: 3, array_layer_count: 4 }
}

fn whole_range() -> TextureRange {
    TextureRange {
        aspect: TextureAspect::All,
        base_mip_level: 0,
        mip_level_count: None,
        base_array_layer: 0,
        array_layer_count: None,
    }
}

fn states(bits: u32) -> ResourceStates {
    ResourceStates { bits }
}

#[test]
fn buffer_usage_maps_each_flag_to_its_state() {
    let map = |bits: u32| map_buffer_usage_to_state(BufferUses { bits }).bits;
    assert_eq!(map(0), ResourceStates::COMMON);
    assert_eq!(map(BufferUses::MAP_READ), 0);
    assert_eq!(map(BufferUses::MAP_WRITE), 0);
    assert_eq!(map(BufferUses::COPY_SRC), 0x800);
    assert_eq!(map(BufferUses::COPY_DST), 0x400);
    assert_eq!(map(BufferUses::INDEX), 0x2);
    assert_eq!(map(BufferUses::VERTEX), 0x1);
    assert_eq!(map(BufferUses::UNIFORM), 0x1);
    assert_eq!(map(BufferUses::STORAGE_READ), 0xC0);
    assert_eq!(map(BufferUses::STORAGE_WRITE), 0x8);
    assert_eq!(map(BufferUses::INDIRECT), 0x200);
}

#[test]
fn buffer_storage_write_hides_storage_read() {
    let usage = BufferUses { bits: BufferUses::STORAGE_READ | BufferUses::STORAGE_WRITE };
    assert_eq!(map_buffer_usage_to_state(usage).bits, ResourceStates::UNORDERED_ACCESS);
}

#[test]
fn buffer_usage_states_are_united() {
    let usage = BufferUses {
        bits: BufferUses::COPY_SRC | BufferUses::INDEX | BufferUses::UNIFORM | BufferUses::INDIRECT,
    };
    assert_eq!(map_buffer_usage_to_state(usage).bits, 0x800 | 0x2 | 0x1 | 0x200);
}

#[test]
fn texture_usage_maps_each_flag_to_its_state() {
    let map = |bits: u32| map_texture_usage_to_state(TextureUses { bits }).bits;
    assert_eq!(map(0), 0);
    assert_eq!(map(TextureUses::COPY_SRC), 0x800);
    assert_eq!(map(TextureUses::COPY_DST), 0x400);
    assert_eq!(map(TextureUses::RESOURCE), 0xC0);
    assert_eq!(map(TextureUses::COLOR_TARGET), 0x4);
    assert_eq!(map(TextureUses::DEPTH_STENCIL_READ), 0x20);
    assert_eq!(map(TextureUses::DEPTH_STENCIL_WRITE), 0x10);
    assert_eq!(map(TextureUses::STORAGE_READ), 0x8);
    assert_eq!(map(TextureUses::STORAGE_WRITE), 0x8);
    assert_eq!(map(TextureUses::COPY_SRC | TextureUses::RESOURCE), 0x8C0);
}

#[test]
fn uninitialized_texture_is_in_the_common_state() {
    let usage = TextureUses { bits: TextureUses::UNINITIALIZED };
    assert_eq!(map_texture_usage_to_state(usage).bits, ResourceStates::COMMON);
}

#[test]
fn unchanged_buffer_usage_emits_no_barrier() {
    let mut out = Vec::new();
    let all = [
        BufferUses::MAP_READ,
        BufferUses::COPY_SRC,
        BufferUses::COPY_DST,
        BufferUses::INDEX,
        BufferUses::VERTEX,
        BufferUses::UNIFORM,
        BufferUses::STORAGE_READ,
        BufferUses::INDIRECT,
        BufferUses::STORAGE_READ | BufferUses::STORAGE_WRITE,
    ];
    for bits in all {
        push_buffer_barriers(&mut out, &[buffer_change(1, bits, bits)]);
    }
    assert_eq!(out, vec![]);
}

#[test]
fn exclusive_storage_write_emits_a_hazard_barrier() {
    let mut out = Vec::new();
    push_buffer_barriers(
        &mut out,
        &[buffer_change(7, BufferUses::STORAGE_WRITE, BufferUses::STORAGE_WRITE)],
    );
    assert_eq!(out, vec![Barrier::Uav { resource: 7 }]);
}

#[test]
fn changed_buffer_state_emits_a_transition_of_all_subresources() {
    let mut out = Vec::new();
    push_buffer_barriers(&mut out, &[buffer_change(7, BufferUses::COPY_DST, BufferUses::VERTEX)]);
    assert_eq!(
        out,
        vec![Barrier::Transition {
            resource: 7,
            subresource: Subresource::All,
            before: states(0x400),
            after: states(0x1),
        }]
    );
}

#[test]
fn changed_usage_with_the_same_state_emits_no_barrier() {
    let mut out = Vec::new();
    push_buffer_barriers(&mut out, &[buffer_change(7, BufferUses::VERTEX, BufferUses::UNIFORM)]);
    push_buffer_barriers(&mut out, &[buffer_change(7, BufferUses::MAP_READ, BufferUses::MAP_WRITE)]);
    assert_eq!(out, vec![]);
}

#[test]
fn buffer_barriers_keep_the_order_of_the_list() {
    let mut out = vec![Barrier::Uav { resource: 99 }];
    push_buffer_barriers(
        &mut out,
        &[
            buffer_change(1, BufferUses::COPY_SRC, BufferUses::COPY_DST),
            buffer_change(2, BufferUses::INDEX, BufferUses::INDEX),
            buffer_change(3, BufferUses::STORAGE_WRITE, BufferUses::STORAGE_WRITE),
            buffer_change(4, BufferUses::STORAGE_WRITE, BufferUses::STORAGE_READ),
        ],
    );
    assert_eq!(
        out,
        vec![
            Barrier::Uav { resource: 99 },
            Barrier::Transition {
                resource: 1,
                subresource: Subresource::All,
                before: states(0x800),
                after: states(0x400),
            },
            Barrier::Uav { resource: 3 },
            Barrier::Transition {
                resource: 4,
                subresource: Subresource::All,
                before: states(0x8),
                after: states(0xC0),
            },
        ]
    );
}

#[test]
fn whole_texture_gets_one_transition() {
    let mut out = Vec::new();
    let barrier = TextureBarrier {
        texture: texture(),
        range: whole_range(),
        usage: TextureUses { bits: TextureUses::COPY_DST }..TextureUses {
            bits: TextureUses::RESOURCE,
        },
    };
    push_texture_barriers(&mut out, &[barrier]);
    assert_eq!(
        out,
        vec![Barrier::Transition {
            resource: 40,
            subresource: Subresource::All,
            before: states(0x400),
            after: states(0xC0),
        }]
    );
}

#[test]
fn whole_texture_given_by_counts_gets_one_transition() {
    let mut out = Vec::new();
    let barrier = TextureBarrier {
        texture: texture(),
        range: TextureRange {
            aspect: TextureAspect::All,
            base_mip_level: 0,
            mip_level_count: Some(3),
            base_array_layer: 0,
            array_layer_count: Some(4),
        },
        usage: TextureUses { bits: TextureUses::COPY_DST }..TextureUses {
            bits: TextureUses::RESOURCE,
        },
    };
    push_texture_barriers(&mut out, &[barrier]);
    assert_eq!(out.len(), 1);
    assert!(matches!(out[0], Barrier::Transition { subresource: Subresource::All, .. }));
}

#[test]
fn partial_texture_range_gets_a_transition_per_subresource() {
    let mut out = Vec::new();
    let barrier = TextureBarrier {
        texture: texture(),
        range: TextureRange {
            aspect: TextureAspect::All,
            base_mip_level: 1,
            mip_level_count: Some(2),
            base_array_layer: 1,
            array_layer_count: Some(3),
        },
        usage: TextureUses { bits: TextureUses::COPY_SRC }..TextureUses {
            bits: TextureUses::RESOURCE,
        },
    };
    push_texture_barriers(&mut out, &[barrier]);
    let expected: Vec<Barrier> = [4u32, 7, 10, 5, 8, 11]
        .iter()
        .map(|index| Barrier::Transition {
            resource: 40,
            subresource: Subresource::Index(*index),
            before: states(0x800),
            after: states(0xC0),
        })
        .collect();
    assert_eq!(out, expected);
}

#[test]
fn single_aspect_of_the_whole_texture_gets_a_transition_per_subresource() {
    let mut out = Vec::new();
    let barrier = TextureBarrier {
        texture: texture(),
        range: TextureRange { aspect: TextureAspect::DepthOnly, ..whole_range() },
        usage: TextureUses { bits: TextureUses::DEPTH_STENCIL_WRITE }..TextureUses {
            bits: TextureUses::DEPTH_STENCIL_READ,
        },
    };
    push_texture_barriers(&mut out, &[barrier]);
    assert_eq!(out.len(), 12);
    for (k, barrier) in out.iter().enumerate() {
        let mip = k / 4;
        let layer = k % 4;
        assert_eq!(
            *barrier,
            Barrier::Transition {
                resource: 40,
                subresource: Subresource::Index((mip + layer * 3) as u32),
                before: states(0x10),
                after: states(0x20),
            }
        );
    }
}

#[test]
fn open_ended_partial_range_counts_what_follows_the_base() {
    let mut out = Vec::new();
    let barrier = TextureBarrier {
        texture: texture(),
        range: TextureRange {
            aspect: TextureAspect::All,
            base_mip_level: 2,
            mip_level_count: None,
            base_array_layer: 0,
            array_layer_count: Some(2),
        },
        usage: TextureUses { bits: TextureUses::COLOR_TARGET }..TextureUses {
            bits: TextureUses::COPY_SRC,
        },
    };
    push_texture_barriers(&mut out, &[barrier]);
    let indices: Vec<Subresource> = out
        .iter()
        .map(|barrier| match barrier {
            Barrier::Transition { subresource, .. } => *subresource,
            Barrier::Uav { .. } => panic!("a hazard barrier"),
        })
        .collect();
    assert_eq!(indices, vec![Subresource::Index(2), Subresource::Index(5)]);
}

#[test]
fn unchanged_texture_usage_emits_no_barrier() {
    let mut out = Vec::new();
    for bits in [
        TextureUses::COPY_SRC,
        TextureUses::RESOURCE,
        TextureUses::COLOR_TARGET,
        TextureUses::STORAGE_READ,
        TextureUses::UNINITIALIZED,
    ] {
        let barrier = TextureBarrier {
            texture: texture(),
            range: whole_range(),
            usage: TextureUses { bits }..TextureUses { bits },
        };
        push_texture_barriers(&mut out, &[barrier]);
    }
    assert_eq!(out, vec![]);
}

#[test]
fn texture_storage_write_emits_a_hazard_barrier_whatever_the_range() {
    let mut out = Vec::new();
    let barrier = TextureBarrier {
        texture: texture(),
        range: TextureRange {
            aspect: TextureAspect::All,
            base_mip_level: 1,
            mip_level_count: Some(1),
            base_array_layer: 2,
            array_layer_count: Some(1),
        },
        usage: TextureUses { bits: TextureUses::STORAGE_WRITE }..TextureUses {
            bits: TextureUses::STORAGE_WRITE,
        },
    };
    push_texture_barriers(&mut out, &[barrier]);
    assert_eq!(out, vec![Barrier::Uav { resource: 40 }]);
}

#[test]
fn reversed_transition_swaps_its_states() {
    let barrier = Barrier::Transition {
        resource: 3,
        subresource: Subresource::Index(9),
        before: states(0x4),
        after: states(0x2000),
    };
    assert_eq!(
        barrier.reverse(),
        Barrier::Transition {
            resource: 3,
            subresource: Subresource::Index(9),
            before: states(0x2000),
            after: states(0x4),
        }
    );
    assert_eq!(barrier.reverse().reverse(), barrier);
    assert_eq!(Barrier::Uav { resource: 3 }.reverse(), Barrier::Uav { resource: 3 });
}

#[test]
fn transition_buffers_records_one_batch() {
    let mut encoder = barrier_encoder();
    encoder.transition_buffers(&[
        buffer_change(1, BufferUses::COPY_SRC, BufferUses::COPY_DST),
        buffer_change(2, BufferUses::STORAGE_WRITE, BufferUses::STORAGE_WRITE),
    ]);
    let batch = vec![
        Barrier::Transition {
            resource: 1,
            subresource: Subresource::All,
            before: states(0x800),
            after: states(0x400),
        },
        Barrier::Uav { resource: 2 },
    ];
    assert_eq!(
        encoder.list.as_ref().unwrap().commands,
        vec![NativeCommand::ResourceBarrier(batch.clone())]
    );
    assert_eq!(encoder.temp.barriers, batch);
}

#[test]
fn transition_without_barriers_records_nothing() {
    let mut encoder = barrier_encoder();
    encoder.transition_buffers(&[]);
    encoder.transition_buffers(&[buffer_change(1, BufferUses::INDEX, BufferUses::INDEX)]);
    encoder.transition_textures(&[]);
    assert_eq!(encoder.list.as_ref().unwrap().commands, vec![]);
}

#[test]
fn transition_without_barriers_needs_no_open_list() {
    let shared = DeviceShared {
        heap_views: 1,
        heap_samplers: 2,
        zero_buffer: 3,
        cmd_signatures: CommandSignatures { draw: 4, draw_indexed: 5, dispatch: 6 },
    };
    let mut encoder = CommandEncoder::new(shared);
    encoder.transition_buffers(&[buffer_change(1, BufferUses::INDEX, BufferUses::INDEX)]);
    assert!(encoder.list.is_none());
}

#[test]
fn barriers_do_not_leak_from_one_call_into_the_next() {
    let mut encoder = barrier_encoder();
    encoder.transition_buffers(&[buffer_change(1, BufferUses::COPY_SRC, BufferUses::COPY_DST)]);
    let barrier = TextureBarrier {
        texture: texture(),
        range: whole_range(),
        usage: TextureUses { bits: TextureUses::COPY_DST }..TextureUses {
            bits: TextureUses::COLOR_TARGET,
        },
    };
    encoder.transition_textures(&[barrier]);
    let commands = &encoder.list.as_ref().unwrap().commands;
    assert_eq!(commands.len(), 2);
    assert_eq!(
        commands[1],
        NativeCommand::ResourceBarrier(vec![Barrier::Transition {
            resource: 40,
            subresource: Subresource::All,
            before: states(0x400),
            after: states(0x4),
        }])
    );
    encoder.transition_buffers(&[]);
    assert_eq!(encoder.temp.barriers, vec![]);
    assert_eq!(encoder.list.as_ref().unwrap().commands.len(), 2);
}

#[test]
fn subresource_index_counts_mips_first() {
    let texture = texture();
    assert_eq!(texture.calc_subresource(0, 0, 0), 0);
    assert_eq!(texture.calc_subresource(2, 0, 0), 2);
    assert_eq!(texture.calc_subresource(0, 1, 0), 3);
    assert_eq!(texture.calc_subresource(2, 3, 0), 11);
    assert_eq!(texture.calc_subresource(1, 2, 1), 1 + (2 + 4) * 3);
    let base = TextureCopyBase {
        mip_level: 1,
        array_layer: 3,
        origin: Origin3d { x: 0, y: 0, z: 0 },
        aspect: TextureAspect::All,
    };
    assert_eq!(texture.calc_subresource_for_copy(&base), 10);
}
