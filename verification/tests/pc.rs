use iree_rocket_hal::builders::pc::{
    PCBaseAddress, PCInterruptClear, PCInterruptMask, PCOperationEnable, PCOperationMask,
    PCRegisterAmounts, PCTaskCon, PCTaskDMABaseAddr, PCTrailer,
};
use iree_rocket_hal::builders::{Bits, Register};

#[test]
fn convolution_trailer_matches_vendor_encoding() {
    assert_eq!(PCTrailer::single_task_placeholder().0, 0);
    assert_eq!(PCTrailer::required_marker().0, 0x0041_0000_0000_0000);
    assert_eq!(
        PCTrailer::operation_enable(PCOperationMask::CONVOLUTION()).0,
        0x0081_0000_001d_0008
    );
    assert_eq!(PCTrailer::alignment_padding().0, 0);
}

#[test]
fn convolution_mask_is_the_union_of_its_four_blocks() {
    let union = PCOperationMask::CNA()
        | PCOperationMask::CORE()
        | PCOperationMask::DPU()
        | PCOperationMask::DPU_RDMA();
    assert_eq!(union, PCOperationMask::CONVOLUTION());
    assert_eq!(union.bits(), 0x1d);

    let mut all = PCOperationMask::CONVOLUTION();
    all |= PCOperationMask::PPU();
    all |= PCOperationMask::PPU_RDMA();
    assert_eq!(all.bits(), 0x7d);
    assert_eq!(PCTrailer::operation_enable(all).0, 0x0081_0000_007d_0008);
}

#[test]
fn pc_register_amounts_word_matches_the_vendor_program() {
    // The captured convolution program's PC_REGISTER_AMOUNTS write.
    assert_eq!(Register::<PCRegisterAmounts>::new().build().0, 0x0101_0000_0000_0014);
    assert_eq!(
        Register::<PCRegisterAmounts>::new()
            .pc_data_amount(Bits::new(0x7c))
            .build()
            .0,
        0x0101_0000_007c_0014
    );
}

#[test]
fn pc_addresses_occupy_bits_31_to_4() {
    let word = Register::<PCBaseAddress>::new()
        .pc_src_address(Bits::new(0x0123_4567))
        .pc_sel(true)
        .build()
        .0;
    assert_eq!(word, 0x0101_1234_5671_0010);
    let word = Register::<PCTaskDMABaseAddr>::new()
        .base_address(Bits::new(0x0fff_ffff))
        .build()
        .0;
    assert_eq!(word, 0x0101_ffff_fff0_0034);
}

#[test]
fn pc_task_con_fields() {
    let mut reg = Register::<PCTaskCon>::new();
    reg.task_number(Bits::new(0xabc)).task_pp_enable(true).count_clear(true);
    assert_eq!(reg.build().0, 0x0101_0000_3abc_0030);
    reg.task_pp_enable(false);
    assert_eq!(reg.build().0, 0x0101_0000_2abc_0030);
}

#[test]
fn pc_interrupt_bits_follow_the_event_order() {
    let mut mask = Register::<PCInterruptMask>::new();
    mask.cna_feature_0(true)
        .cna_feature_1(true)
        .cna_weight_0(true)
        .cna_weight_1(true)
        .cna_csc_0(true)
        .cna_csc_1(true)
        .core_0(true)
        .core_1(true)
        .dpu_0(true)
        .dpu_1(true)
        .ppu_0(true)
        .ppu_1(true)
        .dma_read_error(true)
        .dma_write_error(true);
    assert_eq!(mask.build().0, 0x0101_0000_3fff_0020);
    mask.dpu_0(false).dma_write_error(false);
    assert_eq!(mask.build().0, 0x0101_0000_1eff_0020);

    let clear = Register::<PCInterruptClear>::new().dpu_1(true).ppu_0(true).build();
    assert_eq!(clear.0, 0x0101_0000_0600_0024);
    let clear = Register::<PCInterruptClear>::new()
        .cna_feature_0(true)
        .cna_feature_1(true)
        .cna_weight_0(true)
        .cna_weight_1(true)
        .cna_csc_0(true)
        .cna_csc_1(true)
        .core_0(true)
        .core_1(true)
        .dma_read_error(true)
        .dma_write_error(true)
        .ppu_1(true)
        .build();
    assert_eq!(clear.0, 0x0101_0000_38ff_0024);
}

#[test]
fn pc_operation_enable_kick_bit() {
    let on = Register::<PCOperationEnable>::new().op_enable(true).build();
    assert_eq!(on.0, 0x0101_0000_0001_0008);
    let off = Register::<PCOperationEnable>::from_val(0xffff_ffff)
        .op_enable(false)
        .build();
    assert_eq!(off.0, 0x0101_ffff_fffe_0008);
}
