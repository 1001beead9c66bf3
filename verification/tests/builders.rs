use iree_rocket_hal::builders::cna::{CnaCbufCon1, CnaConvCon1, CnaConvCon2, CnaDcompAmount3, CnaSPointer};
use iree_rocket_hal::builders::dpu::{DpuDstSurfStride, DpuEwOpValue7, DpuSPointer, DpuSurfaceAdd};
use iree_rocket_hal::builders::dpu_rdma::{
    DpuRdmaDataCubeHeight, DpuRdmaErdmaCfg, DpuRdmaFeatureModeCfg, DpuRdmaSPointer, DpuRdmaWeight,
};
use iree_rocket_hal::builders::global::GlobalOperationEnable;
use iree_rocket_hal::builders::ppu_rdma::{PpuRdmaSStatus, PpuRdmaSrcLineStride};
use iree_rocket_hal::builders::{
    Bits, RegCmd, Register, RegisterMeta, DOMAIN_CNA, DOMAIN_CORE, DOMAIN_DPU, DOMAIN_DPU_RDMA,
    DOMAIN_GLOBAL, DOMAIN_PC, DOMAIN_PPU, DOMAIN_PPU_RDMA,
};

fn decode(command: &RegCmd) -> (u32, u32, u32) {
    (
        (command.0 >> 48) as u32,
        (command.0 & 0xffff) as u32,
        (command.0 >> 16) as u32,
    )
}

#[test]
fn domains_are_the_block_targets_with_bit_zero_set() {
    assert_eq!(DOMAIN_PC, 0x0101);
    assert_eq!(DOMAIN_CNA, 0x0201);
    assert_eq!(DOMAIN_CORE, 0x0801);
    assert_eq!(DOMAIN_DPU, 0x1001);
    assert_eq!(DOMAIN_DPU_RDMA, 0x2001);
    assert_eq!(DOMAIN_PPU, 0x4001);
    assert_eq!(DOMAIN_PPU_RDMA, 0x8001);
    assert_eq!(DOMAIN_GLOBAL, 0x81);
}

#[test]
fn regcmd_packs_domain_value_and_offset() {
    let command = RegCmd::new(0x1001, 0x4004, 0x0000_000e);
    assert_eq!(command.0, 0x1001_0000_000e_4004);
    assert_eq!(decode(&command), (0x1001, 0x4004, 0x0000_000e));
    // Only the low 16 bits of the domain survive the packing.
    assert_eq!(RegCmd::new(0x4_0001, 0x8, 1).0, 0x0001_0000_0001_0008);
    assert_eq!(RegCmd::new_raw(0x1234).0, 0x1234);
}

#[test]
fn set_field_replaces_only_the_masked_bits() {
    let mut reg = Register::<CnaConvCon1>::from_val(0xffff_0000);
    reg.set_field(0x0000_ff00, 0x1234_5678);
    assert_eq!(decode(&reg.build()).2, 0xffff_5600);
    // Writing the same field again leaves only the second write.
    reg.set_field(0x0000_ff00, 0x0000_0100);
    assert_eq!(decode(&reg.build()).2, 0xffff_0100);
    // Fields with disjoint masks commute.
    let mut a = Register::<CnaConvCon1>::new();
    a.set_field(0x0f, 0x3).set_field(0xf0, 0x50);
    let mut b = Register::<CnaConvCon1>::new();
    b.set_field(0xf0, 0x50).set_field(0x0f, 0x3);
    assert_eq!(a.build().0, b.build().0);
    assert_eq!(decode(&a.build()).2, 0x53);
}

#[test]
fn set_flag_sets_or_clears_every_bit_of_its_mask() {
    let mut reg = Register::<CnaConvCon1>::from_val(0x0000_0f00);
    reg.set_flag(0x0000_00f0, true);
    assert_eq!(decode(&reg.build()).2, 0x0000_0ff0);
    reg.set_flag(0x0000_0300, false);
    assert_eq!(decode(&reg.build()).2, 0x0000_0cf0);
    let default = Register::<CnaConvCon1>::default().build();
    assert_eq!(default.0, Register::<CnaConvCon1>::new().build().0);
}

#[test]
fn ping_pong_pointer_matches_the_captured_dpu_word() {
    // The captured convolution program writes DPU_S_POINTER = 0xe.
    let dpu = Register::<DpuSPointer>::new()
        .pointer_pp_mode(Bits::new(1))
        .executer_pp_en(Bits::new(1))
        .pointer_pp_en(Bits::new(1))
        .build();
    assert_eq!(decode(&dpu), (0x1001, 0x4004, 0x0000_000e));
    let rdma = Register::<DpuRdmaSPointer>::new()
        .pointer_pp_mode(Bits::new(1))
        .executer_pp_en(Bits::new(1))
        .pointer_pp_en(Bits::new(1))
        .build();
    assert_eq!(decode(&rdma), (0x2001, 0x5004, 0x0000_000e));
    let cna = Register::<CnaSPointer>::new().executer(Bits::new(1)).pointer(Bits::new(1)).build();
    assert_eq!(decode(&cna), (0x0201, 0x1004, 0x0001_0001));
}

#[test]
fn register_identities() {
    assert_eq!((CnaCbufCon1::DOMAIN, CnaCbufCon1::OFFSET), (0x0201, 0x1044));
    assert_eq!(CnaDcompAmount3::OFFSET, 0x114c);
    assert_eq!(DpuEwOpValue7::OFFSET, 0x40ac);
    assert_eq!((DpuRdmaWeight::DOMAIN, DpuRdmaWeight::OFFSET), (0x2001, 0x5068));
    assert_eq!((PpuRdmaSrcLineStride::DOMAIN, PpuRdmaSrcLineStride::OFFSET), (0x8001, 0x7024));
    assert_eq!((GlobalOperationEnable::DOMAIN, GlobalOperationEnable::OFFSET), (0x81, 0xf008));
}

#[test]
fn dpu_rdma_fields_land_on_their_documented_bits() {
    let mode = Register::<DpuRdmaFeatureModeCfg>::new()
        .flying_mode(Bits::new(1))
        .burst_len(Bits::new(15))
        .in_precision(Bits::new(2))
        .proc_precision(Bits::new(2))
        .mrdma_fp16tofp32_en(Bits::new(1))
        .build();
    // flying 0, fp16tofp32 3, proc 7:5, burst 14:11, in 17:15.
    assert_eq!(decode(&mode).2, 0x1 | 0x8 | (2 << 5) | (15 << 11) | (2 << 15));
    let weight = Register::<DpuRdmaWeight>::new()
        .e_weight(Bits::new(1))
        .n_weight(Bits::new(1))
        .b_weight(Bits::new(1))
        .m_weight(Bits::new(1))
        .build();
    assert_eq!(decode(&weight).2, 0x0101_0101);
    let erdma = Register::<DpuRdmaErdmaCfg>::new()
        .erdma_data_mode(Bits::new(1))
        .erdma_data_size(Bits::new(2))
        .build();
    assert_eq!(decode(&erdma).2, 0x4000_0008);
    let height = Register::<DpuRdmaDataCubeHeight>::new()
        .height(Bits::new(31))
        .ew_line_notch_addr(Bits::new(0x1fff))
        .build();
    assert_eq!(decode(&height).2, 0x1fff_001f);
}

#[test]
fn strides_are_shifted_into_bits_31_to_4() {
    let stride = Register::<DpuDstSurfStride>::new().dst_surf_stride(Bits::new(64)).build();
    assert_eq!(decode(&stride), (0x1001, 0x4024, 0x400));
    let add = Register::<DpuSurfaceAdd>::new().surf_add(Bits::new(0x0fff_ffff)).build();
    assert_eq!(decode(&add).2, 0xffff_fff0);
    let line = Register::<PpuRdmaSrcLineStride>::new().src_line_stride(Bits::new(2)).build();
    assert_eq!(decode(&line), (0x8001, 0x7024, 0x20));
}

#[test]
fn cna_pinned_fields() {
    let grains = Register::<CnaConvCon2>::new().feature_grains(Bits::new(0x21)).build();
    assert_eq!(decode(&grains).2, 0x210);
    let entries = Register::<CnaCbufCon1>::new().data_entries(Bits::new(0x1fff)).build();
    assert_eq!(decode(&entries).2, 0x1fff);
    let mode = Register::<CnaConvCon1>::from_val(0xffff_fff0).conv_mode(Bits::new(3)).build();
    assert_eq!(decode(&mode).2, 0xffff_fff3);
    let amount = Register::<CnaDcompAmount3>::new().dcomp_amount(Bits::new(0xdead_beef)).build();
    assert_eq!(decode(&amount), (0x0201, 0x114c, 0xdead_beef));
    let op = Register::<DpuEwOpValue7>::new().ew_operand(Bits::new(0x3f00_0000)).build();
    assert_eq!(decode(&op), (0x1001, 0x40ac, 0x3f00_0000));
}

#[test]
fn status_fields_sit_at_bits_1_0_and_17_16() {
    let status = Register::<PpuRdmaSStatus>::new()
        .status_0(Bits::new(2))
        .status_1(Bits::new(3))
        .build();
    assert_eq!(decode(&status), (0x8001, 0x7000, 0x0003_0002));
}

#[test]
fn global_operation_enable_skips_reserved_bit_one() {
    let word = Register::<GlobalOperationEnable>::new()
        .cna_op_en(Bits::new(1))
        .core_op_en(Bits::new(1))
        .dpu_op_en(Bits::new(1))
        .dpu_rdma_op_en(Bits::new(1))
        .ppu_op_en(Bits::new(1))
        .ppu_rdma_op_en(Bits::new(1))
        .build();
    assert_eq!(word.0, 0x0081_0000_007d_f008);
}

#[test]
fn bits_keep_their_value() {
    assert_eq!(Bits::<1>::new(1).val(), 1);
    assert_eq!(Bits::<13>::new(0x1fff).val(), 0x1fff);
    assert_eq!(Bits::<32>::new(u32::MAX).val(), u32::MAX);
}
