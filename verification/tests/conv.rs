use iree_rocket_hal::activation::{lut_bn_alu, lut_bn_alu_supports_zero_point, Activation};
use iree_rocket_hal::builders::cna::{CnaConvCon1, CnaDcompAddr0, CnaFeatureDataAddr};
use iree_rocket_hal::builders::dpu::{DpuDstBaseAddr, DpuSPointer};
use iree_rocket_hal::builders::dpu_rdma::DpuRdmaBsBaseAddr;
use iree_rocket_hal::builders::pc::PCTrailer;
use iree_rocket_hal::builders::{RegCmd, Register, RegisterMeta};
use iree_rocket_hal::builders::values::ArgbInputMode;
use iree_rocket_hal::conv::{
    argb_input_mode, bs_buffer_bytes, relocate, relocate_staged_accumulator, relocate_with_exact_output,
    write_bs_buffer, AccumulatorOutputTile, BsEntry, Buffers, BS_CONSTANT, BS_UNIT_MULTIPLIER,
};
use iree_rocket_hal::device::prep_bo_deadline_ns;

const RELOCATION: Buffers = Buffers {
    input: 0x1_0000,
    weights: 0x2_0000,
    bias: 0x3_0000,
    output: 0x4_0000,
};

fn value_of<R: RegisterMeta>(commands: &[RegCmd]) -> u32 {
    let matches: Vec<_> = commands
        .iter()
        .filter(|command| {
            ((command.0 >> 48) as u32, command.0 as u32 & 0xffff) == (R::DOMAIN, R::OFFSET)
        })
        .collect();
    assert_eq!(matches.len(), 1);
    (matches[0].0 >> 16) as u32
}

/// A small program carrying the four address registers with tile offsets,
/// between other register writes.
fn tile_program(feature_offset: u32, output_offset: u32) -> Vec<RegCmd> {
    vec![
        Register::<DpuSPointer>::from_val(0xe).build(),
        Register::<CnaFeatureDataAddr>::from_val(feature_offset).build(),
        Register::<CnaConvCon1>::from_val(0x2).build(),
        Register::<CnaDcompAddr0>::new().build(),
        Register::<DpuRdmaBsBaseAddr>::new().build(),
        Register::<DpuDstBaseAddr>::from_val(output_offset).build(),
        PCTrailer::required_marker(),
    ]
}

#[test]
fn relocation_assigns_addresses_to_a_whole_image_program() {
    let mut commands = tile_program(0, 0);
    relocate(&mut commands, RELOCATION);
    assert_eq!(value_of::<CnaFeatureDataAddr>(&commands), 0x1_0000);
    assert_eq!(value_of::<CnaDcompAddr0>(&commands), 0x2_0000);
    assert_eq!(value_of::<DpuRdmaBsBaseAddr>(&commands), 0x3_0000);
    assert_eq!(value_of::<DpuDstBaseAddr>(&commands), 0x4_0000);
}

#[test]
fn relocation_adds_the_tile_offset_and_leaves_other_words_alone() {
    let original = tile_program(0xb40, 0x2000);
    let mut commands = tile_program(0xb40, 0x2000);
    relocate(&mut commands, RELOCATION);
    assert_eq!(value_of::<CnaFeatureDataAddr>(&commands), 0x1_0000 + 0xb40);
    assert_eq!(value_of::<DpuDstBaseAddr>(&commands), 0x4_0000 + 0x2000);
    assert_eq!(value_of::<CnaDcompAddr0>(&commands), 0x2_0000);
    assert_eq!(value_of::<DpuRdmaBsBaseAddr>(&commands), 0x3_0000);
    for index in [0, 2, 6] {
        assert_eq!(commands[index].0, original[index].0);
    }
    assert_eq!(commands[1].0, 0x0201_0001_0b40_1070);
}

#[test]
fn exact_output_relocation_drops_only_the_output_tile_offset() {
    let mut commands = tile_program(0xb40, 0x2000);
    relocate_with_exact_output(&mut commands, RELOCATION);
    assert_eq!(value_of::<CnaFeatureDataAddr>(&commands), 0x1_0000 + 0xb40);
    assert_eq!(value_of::<CnaDcompAddr0>(&commands), 0x2_0000);
    assert_eq!(value_of::<DpuRdmaBsBaseAddr>(&commands), 0x3_0000);
    assert_eq!(value_of::<DpuDstBaseAddr>(&commands), 0x4_0000);
}

#[test]
fn staged_accumulator_output_lands_at_its_scratch_offset() {
    let mut commands = tile_program(0x100, 0x2000);
    relocate_staged_accumulator(
        &mut commands,
        RELOCATION,
        &AccumulatorOutputTile {
            scratch_offset: 0x800,
        },
    );
    assert_eq!(value_of::<CnaFeatureDataAddr>(&commands), 0x1_0100);
    assert_eq!(value_of::<DpuDstBaseAddr>(&commands), 0x4_0800);
}

#[test]
fn bs_buffer_matches_the_converted_models() {
    // Byte-for-byte against `co16`, a Cout=16 model with per-channel
    // weight magnitudes 0.01*(c+1) and biases 0.05*(c+1). Two blocks,
    // and the second block is what shows the layout repeats rather than
    // running as one flat plane.
    let entries: Vec<BsEntry> = (0..16)
        .map(|c| BsEntry {
            bias: 162675,
            constant: BS_CONSTANT,
            multiplier: 1024 * (c + 1),
        })
        .collect();
    let mut buffer = vec![0u8; bs_buffer_bytes(16)];
    assert_eq!(buffer.len(), 128);
    write_bs_buffer(&mut buffer, &entries);

    // First block: biases at 0, the constant plane at 32, multipliers
    // at 48.
    assert_eq!(&buffer[0..4], &162675i32.to_le_bytes());
    assert_eq!(&buffer[32..34], &128i16.to_le_bytes());
    assert_eq!(&buffer[48..50], &1024i16.to_le_bytes());
    assert_eq!(&buffer[62..64], &8192i16.to_le_bytes());
    // Second block repeats the same three planes for channels 8..15.
    assert_eq!(&buffer[64..68], &162675i32.to_le_bytes());
    assert_eq!(&buffer[96..98], &128i16.to_le_bytes());
    assert_eq!(&buffer[112..114], &9216i16.to_le_bytes());
    assert_eq!(&buffer[126..128], &16384i16.to_le_bytes());

    // A partial block is padded, not packed: Cout 4 still occupies 64
    // bytes with the unused lanes left zero.
    let mut partial = vec![0xffu8; bs_buffer_bytes(4)];
    assert_eq!(partial.len(), 64);
    write_bs_buffer(
        &mut partial,
        &[
            BsEntry {
                bias: 162675,
                constant: BS_CONSTANT,
                multiplier: 4096,
            },
            BsEntry {
                bias: 162675,
                constant: BS_CONSTANT,
                multiplier: 8192,
            },
            BsEntry {
                bias: 162675,
                constant: BS_CONSTANT,
                multiplier: 12288,
            },
            BsEntry {
                bias: 162675,
                constant: BS_CONSTANT,
                multiplier: 16384,
            },
        ],
    );
    assert_eq!(
        &partial[48..56],
        &[0x00, 0x10, 0x00, 0x20, 0x00, 0x30, 0x00, 0x40]
    );
    assert!(partial[16..32].iter().all(|&b| b == 0), "unused bias lanes");
    assert!(partial[56..64].iter().all(|&b| b == 0), "unused mul lanes");

    // The default entry is what a uniform-scale, zero-bias convolution
    // needs, and it is not a zeroed buffer.
    assert_eq!(BsEntry::default().multiplier, BS_UNIT_MULTIPLIER);
    assert_ne!(BsEntry::default().multiplier, 0);
}

#[test]
fn bs_buffer_reads_back_and_leaves_the_tail_alone() {
    let entries: Vec<BsEntry> = (0..10)
        .map(|c| BsEntry {
            bias: -1000 * (c as i32 + 1),
            constant: -7,
            multiplier: 300 + c as i16,
        })
        .collect();
    let mut buffer = vec![0xa5u8; 200];
    write_bs_buffer(&mut buffer, &entries);
    for (c, entry) in entries.iter().enumerate() {
        let base = (c / 8) * 64;
        let lane = c % 8;
        let bias = i32::from_le_bytes(buffer[base + lane * 4..base + lane * 4 + 4].try_into().unwrap());
        let constant =
            i16::from_le_bytes(buffer[base + 32 + lane * 2..base + 34 + lane * 2].try_into().unwrap());
        let multiplier =
            i16::from_le_bytes(buffer[base + 48 + lane * 2..base + 50 + lane * 2].try_into().unwrap());
        assert_eq!(BsEntry { bias, constant, multiplier }, *entry);
    }
    assert!(buffer[72..96].iter().all(|&b| b == 0), "unused bias lanes of block two");
    assert!(buffer[128..].iter().all(|&b| b == 0xa5), "bytes past the buffer's need");
}

#[test]
fn bs_buffer_sizes_round_up_to_whole_blocks() {
    assert_eq!(bs_buffer_bytes(0), 0);
    assert_eq!(bs_buffer_bytes(1), 64);
    assert_eq!(bs_buffer_bytes(8), 64);
    assert_eq!(bs_buffer_bytes(9), 128);
    assert_eq!(bs_buffer_bytes(512), 4096);
}

#[test]
fn lut_bn_alu_matches_the_captured_operands() {
    // tanh sweep: zero point -2 against operand 17123.
    assert_eq!(lut_bn_alu(-2, 17123), 34246);
    // A positive zero point gives a negative operand as a two's-complement word.
    assert_eq!(lut_bn_alu(127, 17429), (-(127i64 * 17429)) as i32 as u32);
    assert_eq!(lut_bn_alu(127, 17429), 4_292_753_813);
    assert_eq!(lut_bn_alu(0, 26135), 0);
    assert_eq!(lut_bn_alu(-128, 32658), 128 * 32658);
    assert_eq!(lut_bn_alu(i32::MIN, u32::MAX), ((1i64 << 31) * (u32::MAX as i64)) as i32 as u32);
    assert_eq!(lut_bn_alu(i32::MAX, u32::MAX), (-(i32::MAX as i64) * (u32::MAX as i64)) as i32 as u32);
}

#[test]
fn lut_bn_alu_supports_only_the_captured_zero_points() {
    for zero_point in [-128, -2, 0, 127] {
        assert!(lut_bn_alu_supports_zero_point(zero_point));
    }
    for zero_point in [-127, -1, 1, 42, 128, i32::MIN, i32::MAX] {
        assert!(!lut_bn_alu_supports_zero_point(zero_point));
    }
}

#[test]
fn activation_modes_compare_by_value() {
    assert_eq!(Activation::Relux { cmp: 3 }, Activation::Relux { cmp: 3 });
    assert_ne!(Activation::Relux { cmp: 3 }, Activation::Relux { cmp: 4 });
    assert_ne!(Activation::Identity, Activation::Relu);
}

#[test]
fn prep_bo_deadline_is_absolute() {
    assert_eq!(prep_bo_deadline_ns(2, 500, 1_000), 2_000_001_500);
    assert_eq!(prep_bo_deadline_ns(0, 0, i64::MAX as u64), i64::MAX);
    assert_eq!(prep_bo_deadline_ns(0, 0, i64::MAX as u64 + 1), i64::MIN);
    assert_eq!(prep_bo_deadline_ns(0, 5, u64::MAX - 5), -1);
}

#[test]
fn dense_channel_counts_pick_their_argb_mode() {
    assert_eq!(argb_input_mode(1), ArgbInputMode::OneChannel);
    assert_eq!(argb_input_mode(2), ArgbInputMode::TwoChannels);
    assert_eq!(argb_input_mode(3), ArgbInputMode::ThreeChannels);
    assert_eq!(argb_input_mode(4), ArgbInputMode::FourChannels);
}
