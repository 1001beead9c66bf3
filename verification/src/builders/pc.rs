//! The PC (program control) block: its registers, the per-block
//! operation-enable mask and the instruction words that end a PC register
//! program.
use crate::builders::{
    encode, encode_field, regcmd_word, with_field, with_flag, Bits, RegCmd, Register,
    RegisterMeta, DOMAIN_PC,
};
use vstd::prelude::*;

verus! {

/// `PC_OPERATION_ENABLE` offset.
pub const REG_PC_OPERATION_ENABLE: u32 = 0x0008;

/// `PC_BASE_ADDRESS` offset.
pub const REG_PC_BASE_ADDRESS: u32 = 0x0010;

/// `PC_REGISTER_AMOUNTS` offset.
pub const REG_PC_REGISTER_AMOUNTS: u32 = 0x0014;

/// `PC_INTERRUPT_MASK` offset.
pub const REG_PC_INTERRUPT_MASK: u32 = 0x0020;

/// `PC_INTERRUPT_CLEAR` offset.
pub const REG_PC_INTERRUPT_CLEAR: u32 = 0x0024;

/// `PC_TASK_CON` offset.
pub const REG_PC_TASK_CON: u32 = 0x0030;

/// `PC_TASK_DMA_BASE_ADDR` offset.
pub const REG_PC_TASK_DMA_BASE_ADDR: u32 = 0x0034;

/// `PC_OPERATION_ENABLE.op_en`, bit 0.
pub const PC_OPERATION_ENABLE_OP_EN: u32 = 0x0000_0001;

/// `PC_BASE_ADDRESS.pc_sel`, bit 0.
pub const PC_BASE_ADDRESS_PC_SEL: u32 = 0x0000_0001;

/// `PC_BASE_ADDRESS.pc_source_addr`, bits 31:4.
pub const PC_BASE_ADDRESS_PC_SOURCE_ADDR_MASK: u32 = 0xffff_fff0;

pub const PC_BASE_ADDRESS_PC_SOURCE_ADDR_SHIFT: u32 = 4;

/// `PC_REGISTER_AMOUNTS.pc_data_amount`, bits 15:0.
pub const PC_REGISTER_AMOUNTS_PC_DATA_AMOUNT_MASK: u32 = 0x0000_ffff;

pub const PC_REGISTER_AMOUNTS_PC_DATA_AMOUNT_SHIFT: u32 = 0;

/// `PC_TASK_CON.task_number`, bits 11:0.
pub const PC_TASK_CON_TASK_NUMBER_MASK: u32 = 0x0000_0fff;

pub const PC_TASK_CON_TASK_NUMBER_SHIFT: u32 = 0;

/// `PC_TASK_CON.task_pp_en`, bit 12.
pub const PC_TASK_CON_TASK_PP_EN_MASK: u32 = 0x0000_1000;

pub const PC_TASK_CON_TASK_PP_EN_SHIFT: u32 = 12;

/// `PC_TASK_CON.task_count_clear`, bit 13.
pub const PC_TASK_CON_TASK_COUNT_CLEAR_MASK: u32 = 0x0000_2000;

pub const PC_TASK_CON_TASK_COUNT_CLEAR_SHIFT: u32 = 13;

/// `PC_TASK_DMA_BASE_ADDR.dma_base_addr`, bits 31:4.
pub const PC_TASK_DMA_BASE_ADDR_DMA_BASE_ADDR_MASK: u32 = 0xffff_fff0;

pub const PC_TASK_DMA_BASE_ADDR_DMA_BASE_ADDR_SHIFT: u32 = 4;

/// Interrupt bit 0: CNA feature group 0, in both `PC_INTERRUPT_MASK` and `PC_INTERRUPT_CLEAR`.
pub const PC_INTERRUPT_CNA_FEATURE_0: u32 = 0x1;

/// Interrupt bit 1: CNA feature group 1, in both `PC_INTERRUPT_MASK` and `PC_INTERRUPT_CLEAR`.
pub const PC_INTERRUPT_CNA_FEATURE_1: u32 = 0x2;

/// Interrupt bit 2: CNA weight group 0, in both `PC_INTERRUPT_MASK` and `PC_INTERRUPT_CLEAR`.
pub const PC_INTERRUPT_CNA_WEIGHT_0: u32 = 0x4;

/// Interrupt bit 3: CNA weight group 1, in both `PC_INTERRUPT_MASK` and `PC_INTERRUPT_CLEAR`.
pub const PC_INTERRUPT_CNA_WEIGHT_1: u32 = 0x8;

/// Interrupt bit 4: CNA csc (convert) group 0, in both `PC_INTERRUPT_MASK` and `PC_INTERRUPT_CLEAR`.
pub const PC_INTERRUPT_CNA_CSC_0: u32 = 0x10;

/// Interrupt bit 5: CNA csc (convert) group 1, in both `PC_INTERRUPT_MASK` and `PC_INTERRUPT_CLEAR`.
pub const PC_INTERRUPT_CNA_CSC_1: u32 = 0x20;

/// Interrupt bit 6: CORE group 0, in both `PC_INTERRUPT_MASK` and `PC_INTERRUPT_CLEAR`.
pub const PC_INTERRUPT_CORE_0: u32 = 0x40;

/// Interrupt bit 7: CORE group 1, in both `PC_INTERRUPT_MASK` and `PC_INTERRUPT_CLEAR`.
pub const PC_INTERRUPT_CORE_1: u32 = 0x80;

/// Interrupt bit 8: DPU group 0, in both `PC_INTERRUPT_MASK` and `PC_INTERRUPT_CLEAR`.
pub const PC_INTERRUPT_DPU_0: u32 = 0x100;

/// Interrupt bit 9: DPU group 1, in both `PC_INTERRUPT_MASK` and `PC_INTERRUPT_CLEAR`.
pub const PC_INTERRUPT_DPU_1: u32 = 0x200;

/// Interrupt bit 10: PPU group 0, in both `PC_INTERRUPT_MASK` and `PC_INTERRUPT_CLEAR`.
pub const PC_INTERRUPT_PPU_0: u32 = 0x400;

/// Interrupt bit 11: PPU group 1, in both `PC_INTERRUPT_MASK` and `PC_INTERRUPT_CLEAR`.
pub const PC_INTERRUPT_PPU_1: u32 = 0x800;

/// Interrupt bit 12: DMA read error, in both `PC_INTERRUPT_MASK` and `PC_INTERRUPT_CLEAR`.
pub const PC_INTERRUPT_DMA_READ_ERROR: u32 = 0x1000;

/// Interrupt bit 13: DMA write error, in both `PC_INTERRUPT_MASK` and `PC_INTERRUPT_CLEAR`.
pub const PC_INTERRUPT_DMA_WRITE_ERROR: u32 = 0x2000;

/// The 0/1 value a `bool` stores in a one-bit field.
pub open spec fn bool_bit(b: bool) -> u32 {
    if b {
        1
    } else {
        0
    }
}

/// The AHB-side PC operation-enable register (the "kick" bit).
#[derive(Debug, Clone, Copy)]
pub struct PCOperationEnable;

impl RegisterMeta for PCOperationEnable {
    const DOMAIN: u32 = DOMAIN_PC;
    const OFFSET: u32 = REG_PC_OPERATION_ENABLE;
}

impl Register<PCOperationEnable> {
    /// Enables the PC module to fetch and apply the register program of each task.
    pub fn op_enable(&mut self, enable: bool) -> (ret: &mut Self)
        ensures
            ret@ == with_flag(old(self)@, PC_OPERATION_ENABLE_OP_EN, enable),
            *final(self) == *final(ret),
    {
        self.set_flag(PC_OPERATION_ENABLE_OP_EN, enable)
    }
}

/// Per-block operation-enable mask carried by the final PC regcmd word.
///
/// Distinct from the AHB-side [`PCOperationEnable`] register: each bit
/// starts one engine block configured by the preceding register program.
#[derive(Debug, Clone, Copy, PartialEq, Eq, Structural)]
pub struct PCOperationMask(u32);

impl View for PCOperationMask {
    type V = u32;

    closed spec fn view(&self) -> u32 {
        self.0
    }
}

impl PCOperationMask {
    /// Starts the CNA block (bit 0).
    #[allow(non_snake_case)]
    pub fn CNA() -> (r: Self)
        ensures
            r@ == 0x01,
    {
        PCOperationMask(0x01)
    }

    // Bit 1 has no corresponding engine target.
    /// Starts the CORE block (bit 2).
    #[allow(non_snake_case)]
    pub fn CORE() -> (r: Self)
        ensures
            r@ == 0x04,
    {
        PCOperationMask(0x04)
    }

    /// Starts the DPU block (bit 3).
    #[allow(non_snake_case)]
    pub fn DPU() -> (r: Self)
        ensures
            r@ == 0x08,
    {
        PCOperationMask(0x08)
    }

    /// Starts the DPU_RDMA block (bit 4).
    #[allow(non_snake_case)]
    pub fn DPU_RDMA() -> (r: Self)
        ensures
            r@ == 0x10,
    {
        PCOperationMask(0x10)
    }

    /// Starts the PPU block (bit 5).
    #[allow(non_snake_case)]
    pub fn PPU() -> (r: Self)
        ensures
            r@ == 0x20,
    {
        PCOperationMask(0x20)
    }

    /// Starts the PPU_RDMA block (bit 6).
    #[allow(non_snake_case)]
    pub fn PPU_RDMA() -> (r: Self)
        ensures
            r@ == 0x40,
    {
        PCOperationMask(0x40)
    }

    /// CNA, CORE, DPU and DPU_RDMA together: the blocks a convolution
    /// program starts.
    #[allow(non_snake_case)]
    pub fn CONVOLUTION() -> (r: Self)
        ensures
            r@ == 0x01u32 | 0x04u32 | 0x08u32 | 0x10u32,
    {
        assert(0x01u32 | 0x04u32 | 0x08u32 | 0x10u32 == 0x1du32) by (bit_vector);
        PCOperationMask(0x1d)
    }

    pub fn bits(self) -> (r: u32)
        ensures
            r == self@,
    {
        self.0
    }
}

impl core::ops::BitOr for PCOperationMask {
    type Output = Self;

    fn bitor(self, rhs: Self) -> (r: Self)
        ensures
            r@ == self@ | rhs@,
    {
        PCOperationMask(self.0 | rhs.0)
    }
}

impl vstd::std_specs::ops::BitOrSpecImpl for PCOperationMask {
    open spec fn obeys_bitor_spec() -> bool {
        true
    }

    open spec fn bitor_req(self, rhs: Self) -> bool {
        true
    }

    closed spec fn bitor_spec(self, rhs: Self) -> Self {
        PCOperationMask(self.0 | rhs.0)
    }
}

impl core::ops::BitOrAssign for PCOperationMask {
    fn bitor_assign(&mut self, rhs: Self)
        ensures
            final(self)@ == old(self)@ | rhs@,
    {
        self.0 = self.0 | rhs.0;
    }
}

/// Typed constructors for the non-register instruction words of a PC
/// regcmd trailer.
#[derive(Debug, Clone, Copy)]
pub struct PCTrailer;

impl PCTrailer {
    /// Placeholder emitted before the trailer of a single-task program.
    pub fn single_task_placeholder() -> (r: RegCmd)
        ensures
            r.0 == 0,
    {
        RegCmd::new_raw(0)
    }

    /// Marker required immediately before the operation-enable instruction.
    pub fn required_marker() -> (r: RegCmd)
        ensures
            r.0 == 0x0041_0000_0000_0000u64,
    {
        RegCmd::new_raw(0x0041_0000_0000_0000)
    }

    /// Starts exactly the engine blocks selected by `mask`: domain 0x81 sets
    /// the regcmd operation-enable flag, offset 0x0008 selects
    /// `PC_OPERATION_ENABLE`.
    pub fn operation_enable(mask: PCOperationMask) -> (r: RegCmd)
        ensures
            r.0 == regcmd_word(0x81, REG_PC_OPERATION_ENABLE, mask@),
    {
        RegCmd::new(0x81, REG_PC_OPERATION_ENABLE, mask.bits())
    }

    /// Zero word used to align a PC register program.
    pub fn alignment_padding() -> (r: RegCmd)
        ensures
            r.0 == 0,
    {
        RegCmd::new_raw(0)
    }
}

/// Selects PC or slave mode and holds the regcmd program's fetch address.
#[derive(Debug, Clone, Copy)]
pub struct PCBaseAddress;

impl RegisterMeta for PCBaseAddress {
    const DOMAIN: u32 = DOMAIN_PC;
    const OFFSET: u32 = REG_PC_BASE_ADDRESS;
}

impl Register<PCBaseAddress> {
    /// false: PC mode, register configuration fetched by AXI DMA; true: slave
    /// mode, registers set directly over AHB.
    pub fn pc_sel(&mut self, enable: bool) -> (ret: &mut Self)
        ensures
            ret@ == with_flag(old(self)@, PC_BASE_ADDRESS_PC_SEL, enable),
            *final(self) == *final(ret),
    {
        self.set_flag(PC_BASE_ADDRESS_PC_SEL, enable)
    }

    /// Address bits 31:4 of the regcmd program fetched in PC mode.
    pub fn pc_src_address(&mut self, val: Bits<28>) -> (ret: &mut Self)
        ensures
            ret@ == with_field(
                old(self)@,
                PC_BASE_ADDRESS_PC_SOURCE_ADDR_MASK,
                encode_field(val@, PC_BASE_ADDRESS_PC_SOURCE_ADDR_SHIFT, PC_BASE_ADDRESS_PC_SOURCE_ADDR_MASK),
            ),
            *final(self) == *final(ret),
    {
        let encoded = encode(
            val.val(),
            PC_BASE_ADDRESS_PC_SOURCE_ADDR_SHIFT,
            PC_BASE_ADDRESS_PC_SOURCE_ADDR_MASK,
        );
        self.set_field(PC_BASE_ADDRESS_PC_SOURCE_ADDR_MASK, encoded)
    }
}

/// Number of regcmd words PC fetches and applies for one task.
#[derive(Debug, Clone, Copy)]
pub struct PCRegisterAmounts;

impl RegisterMeta for PCRegisterAmounts {
    const DOMAIN: u32 = DOMAIN_PC;
    const OFFSET: u32 = REG_PC_REGISTER_AMOUNTS;
}

impl Register<PCRegisterAmounts> {
    /// Number of 64-bit regcmd words in one task's register program.
    pub fn pc_data_amount(&mut self, val: Bits<16>) -> (ret: &mut Self)
        ensures
            ret@ == with_field(
                old(self)@,
                PC_REGISTER_AMOUNTS_PC_DATA_AMOUNT_MASK,
                encode_field(val@, PC_REGISTER_AMOUNTS_PC_DATA_AMOUNT_SHIFT, PC_REGISTER_AMOUNTS_PC_DATA_AMOUNT_MASK),
            ),
            *final(self) == *final(ret),
    {
        let encoded = encode(
            val.val(),
            PC_REGISTER_AMOUNTS_PC_DATA_AMOUNT_SHIFT,
            PC_REGISTER_AMOUNTS_PC_DATA_AMOUNT_MASK,
        );
        self.set_field(PC_REGISTER_AMOUNTS_PC_DATA_AMOUNT_MASK, encoded)
    }
}

/// Per-event interrupt enables.
#[derive(Debug, Clone, Copy)]
pub struct PCInterruptMask;

impl RegisterMeta for PCInterruptMask {
    const DOMAIN: u32 = DOMAIN_PC;
    const OFFSET: u32 = REG_PC_INTERRUPT_MASK;
}

impl Register<PCInterruptMask> {
    /// Enables propagation of the CNA feature group 0 interrupt (bit 0) to the PC's interrupt lines.
    pub fn cna_feature_0(&mut self, enable: bool) -> (ret: &mut Self)
        ensures
            ret@ == with_flag(old(self)@, PC_INTERRUPT_CNA_FEATURE_0, enable),
            *final(self) == *final(ret),
    {
        self.set_flag(PC_INTERRUPT_CNA_FEATURE_0, enable)
    }

    /// Enables propagation of the CNA feature group 1 interrupt (bit 1) to the PC's interrupt lines.
    pub fn cna_feature_1(&mut self, enable: bool) -> (ret: &mut Self)
        ensures
            ret@ == with_flag(old(self)@, PC_INTERRUPT_CNA_FEATURE_1, enable),
            *final(self) == *final(ret),
    {
        self.set_flag(PC_INTERRUPT_CNA_FEATURE_1, enable)
    }

    /// Enables propagation of the CNA weight group 0 interrupt (bit 2) to the PC's interrupt lines.
    pub fn cna_weight_0(&mut self, enable: bool) -> (ret: &mut Self)
        ensures
            ret@ == with_flag(old(self)@, PC_INTERRUPT_CNA_WEIGHT_0, enable),
            *final(self) == *final(ret),
    {
        self.set_flag(PC_INTERRUPT_CNA_WEIGHT_0, enable)
    }

    /// Enables propagation of the CNA weight group 1 interrupt (bit 3) to the PC's interrupt lines.
    pub fn cna_weight_1(&mut self, enable: bool) -> (ret: &mut Self)
        ensures
            ret@ == with_flag(old(self)@, PC_INTERRUPT_CNA_WEIGHT_1, enable),
            *final(self) == *final(ret),
    {
        self.set_flag(PC_INTERRUPT_CNA_WEIGHT_1, enable)
    }

    /// Enables propagation of the CNA csc (convert) group 0 interrupt (bit 4) to the PC's interrupt lines.
    pub fn cna_csc_0(&mut self, enable: bool) -> (ret: &mut Self)
        ensures
            ret@ == with_flag(old(self)@, PC_INTERRUPT_CNA_CSC_0, enable),
            *final(self) == *final(ret),
    {
        self.set_flag(PC_INTERRUPT_CNA_CSC_0, enable)
    }

    /// Enables propagation of the CNA csc (convert) group 1 interrupt (bit 5) to the PC's interrupt lines.
    pub fn cna_csc_1(&mut self, enable: bool) -> (ret: &mut Self)
        ensures
            ret@ == with_flag(old(self)@, PC_INTERRUPT_CNA_CSC_1, enable),
            *final(self) == *final(ret),
    {
        self.set_flag(PC_INTERRUPT_CNA_CSC_1, enable)
    }

    /// Enables propagation of the CORE group 0 interrupt (bit 6) to the PC's interrupt lines.
    pub fn core_0(&mut self, enable: bool) -> (ret: &mut Self)
        ensures
            ret@ == with_flag(old(self)@, PC_INTERRUPT_CORE_0, enable),
            *final(self) == *final(ret),
    {
        self.set_flag(PC_INTERRUPT_CORE_0, enable)
    }

    /// Enables propagation of the CORE group 1 interrupt (bit 7) to the PC's interrupt lines.
    pub fn core_1(&mut self, enable: bool) -> (ret: &mut Self)
        ensures
            ret@ == with_flag(old(self)@, PC_INTERRUPT_CORE_1, enable),
            *final(self) == *final(ret),
    {
        self.set_flag(PC_INTERRUPT_CORE_1, enable)
    }

    /// Enables propagation of the DPU group 0 interrupt (bit 8) to the PC's interrupt lines.
    pub fn dpu_0(&mut self, enable: bool) -> (ret: &mut Self)
        ensures
            ret@ == with_flag(old(self)@, PC_INTERRUPT_DPU_0, enable),
            *final(self) == *final(ret),
    {
        self.set_flag(PC_INTERRUPT_DPU_0, enable)
    }

    /// Enables propagation of the DPU group 1 interrupt (bit 9) to the PC's interrupt lines.
    pub fn dpu_1(&mut self, enable: bool) -> (ret: &mut Self)
        ensures
            ret@ == with_flag(old(self)@, PC_INTERRUPT_DPU_1, enable),
            *final(self) == *final(ret),
    {
        self.set_flag(PC_INTERRUPT_DPU_1, enable)
    }

    /// Enables propagation of the PPU group 0 interrupt (bit 10) to the PC's interrupt lines.
    pub fn ppu_0(&mut self, enable: bool) -> (ret: &mut Self)
        ensures
            ret@ == with_flag(old(self)@, PC_INTERRUPT_PPU_0, enable),
            *final(self) == *final(ret),
    {
        self.set_flag(PC_INTERRUPT_PPU_0, enable)
    }

    /// Enables propagation of the PPU group 1 interrupt (bit 11) to the PC's interrupt lines.
    pub fn ppu_1(&mut self, enable: bool) -> (ret: &mut Self)
        ensures
            ret@ == with_flag(old(self)@, PC_INTERRUPT_PPU_1, enable),
            *final(self) == *final(ret),
    {
        self.set_flag(PC_INTERRUPT_PPU_1, enable)
    }

    /// Enables propagation of the DMA read error interrupt (bit 12) to the PC's interrupt lines.
    pub fn dma_read_error(&mut self, enable: bool) -> (ret: &mut Self)
        ensures
            ret@ == with_flag(old(self)@, PC_INTERRUPT_DMA_READ_ERROR, enable),
            *final(self) == *final(ret),
    {
        self.set_flag(PC_INTERRUPT_DMA_READ_ERROR, enable)
    }

    /// Enables propagation of the DMA write error interrupt (bit 13) to the PC's interrupt lines.
    pub fn dma_write_error(&mut self, enable: bool) -> (ret: &mut Self)
        ensures
            ret@ == with_flag(old(self)@, PC_INTERRUPT_DMA_WRITE_ERROR, enable),
            *final(self) == *final(ret),
    {
        self.set_flag(PC_INTERRUPT_DMA_WRITE_ERROR, enable)
    }
}

/// Per-event interrupt acknowledgements (write 1 to clear).
#[derive(Debug, Clone, Copy)]
pub struct PCInterruptClear;

impl RegisterMeta for PCInterruptClear {
    const DOMAIN: u32 = DOMAIN_PC;
    const OFFSET: u32 = REG_PC_INTERRUPT_CLEAR;
}

impl Register<PCInterruptClear> {
    /// Clears (write 1 to clear) the latched CNA feature group 0 interrupt (bit 0).
    pub fn cna_feature_0(&mut self, enable: bool) -> (ret: &mut Self)
        ensures
            ret@ == with_flag(old(self)@, PC_INTERRUPT_CNA_FEATURE_0, enable),
            *final(self) == *final(ret),
    {
        self.set_flag(PC_INTERRUPT_CNA_FEATURE_0, enable)
    }

    /// Clears (write 1 to clear) the latched CNA feature group 1 interrupt (bit 1).
    pub fn cna_feature_1(&mut self, enable: bool) -> (ret: &mut Self)
        ensures
            ret@ == with_flag(old(self)@, PC_INTERRUPT_CNA_FEATURE_1, enable),
            *final(self) == *final(ret),
    {
        self.set_flag(PC_INTERRUPT_CNA_FEATURE_1, enable)
    }

    /// Clears (write 1 to clear) the latched CNA weight group 0 interrupt (bit 2).
    pub fn cna_weight_0(&mut self, enable: bool) -> (ret: &mut Self)
        ensures
            ret@ == with_flag(old(self)@, PC_INTERRUPT_CNA_WEIGHT_0, enable),
            *final(self) == *final(ret),
    {
        self.set_flag(PC_INTERRUPT_CNA_WEIGHT_0, enable)
    }

    /// Clears (write 1 to clear) the latched CNA weight group 1 interrupt (bit 3).
    pub fn cna_weight_1(&mut self, enable: bool) -> (ret: &mut Self)
        ensures
            ret@ == with_flag(old(self)@, PC_INTERRUPT_CNA_WEIGHT_1, enable),
            *final(self) == *final(ret),
    {
        self.set_flag(PC_INTERRUPT_CNA_WEIGHT_1, enable)
    }

    /// Clears (write 1 to clear) the latched CNA csc (convert) group 0 interrupt (bit 4).
    pub fn cna_csc_0(&mut self, enable: bool) -> (ret: &mut Self)
        ensures
            ret@ == with_flag(old(self)@, PC_INTERRUPT_CNA_CSC_0, enable),
            *final(self) == *final(ret),
    {
        self.set_flag(PC_INTERRUPT_CNA_CSC_0, enable)
    }

    /// Clears (write 1 to clear) the latched CNA csc (convert) group 1 interrupt (bit 5).
    pub fn cna_csc_1(&mut self, enable: bool) -> (ret: &mut Self)
        ensures
            ret@ == with_flag(old(self)@, PC_INTERRUPT_CNA_CSC_1, enable),
            *final(self) == *final(ret),
    {
        self.set_flag(PC_INTERRUPT_CNA_CSC_1, enable)
    }

    /// Clears (write 1 to clear) the latched CORE group 0 interrupt (bit 6).
    pub fn core_0(&mut self, enable: bool) -> (ret: &mut Self)
        ensures
            ret@ == with_flag(old(self)@, PC_INTERRUPT_CORE_0, enable),
            *final(self) == *final(ret),
    {
        self.set_flag(PC_INTERRUPT_CORE_0, enable)
    }

    /// Clears (write 1 to clear) the latched CORE group 1 interrupt (bit 7).
    pub fn core_1(&mut self, enable: bool) -> (ret: &mut Self)
        ensures
            ret@ == with_flag(old(self)@, PC_INTERRUPT_CORE_1, enable),
            *final(self) == *final(ret),
    {
        self.set_flag(PC_INTERRUPT_CORE_1, enable)
    }

    /// Clears (write 1 to clear) the latched DPU group 0 interrupt (bit 8).
    pub fn dpu_0(&mut self, enable: bool) -> (ret: &mut Self)
        ensures
            ret@ == with_flag(old(self)@, PC_INTERRUPT_DPU_0, enable),
            *final(self) == *final(ret),
    {
        self.set_flag(PC_INTERRUPT_DPU_0, enable)
    }

    /// Clears (write 1 to clear) the latched DPU group 1 interrupt (bit 9).
    pub fn dpu_1(&mut self, enable: bool) -> (ret: &mut Self)
        ensures
            ret@ == with_flag(old(self)@, PC_INTERRUPT_DPU_1, enable),
            *final(self) == *final(ret),
    {
        self.set_flag(PC_INTERRUPT_DPU_1, enable)
    }

    /// Clears (write 1 to clear) the latched PPU group 0 interrupt (bit 10).
    pub fn ppu_0(&mut self, enable: bool) -> (ret: &mut Self)
        ensures
            ret@ == with_flag(old(self)@, PC_INTERRUPT_PPU_0, enable),
            *final(self) == *final(ret),
    {
        self.set_flag(PC_INTERRUPT_PPU_0, enable)
    }

    /// Clears (write 1 to clear) the latched PPU group 1 interrupt (bit 11).
    pub fn ppu_1(&mut self, enable: bool) -> (ret: &mut Self)
        ensures
            ret@ == with_flag(old(self)@, PC_INTERRUPT_PPU_1, enable),
            *final(self) == *final(ret),
    {
        self.set_flag(PC_INTERRUPT_PPU_1, enable)
    }

    /// Clears (write 1 to clear) the latched DMA read error interrupt (bit 12).
    pub fn dma_read_error(&mut self, enable: bool) -> (ret: &mut Self)
        ensures
            ret@ == with_flag(old(self)@, PC_INTERRUPT_DMA_READ_ERROR, enable),
            *final(self) == *final(ret),
    {
        self.set_flag(PC_INTERRUPT_DMA_READ_ERROR, enable)
    }

    /// Clears (write 1 to clear) the latched DMA write error interrupt (bit 13).
    pub fn dma_write_error(&mut self, enable: bool) -> (ret: &mut Self)
        ensures
            ret@ == with_flag(old(self)@, PC_INTERRUPT_DMA_WRITE_ERROR, enable),
            *final(self) == *final(ret),
    {
        self.set_flag(PC_INTERRUPT_DMA_WRITE_ERROR, enable)
    }
}

/// Task count and task-fetch mode of a PC run.
#[derive(Debug, Clone, Copy)]
pub struct PCTaskCon;

impl RegisterMeta for PCTaskCon {
    const DOMAIN: u32 = DOMAIN_PC;
    const OFFSET: u32 = REG_PC_TASK_CON;
}

impl Register<PCTaskCon> {
    /// Total number of tasks this PC operation executes (0-4095).
    pub fn task_number(&mut self, task_number: Bits<12>) -> (ret: &mut Self)
        ensures
            ret@ == with_field(
                old(self)@,
                PC_TASK_CON_TASK_NUMBER_MASK,
                encode_field(task_number@, PC_TASK_CON_TASK_NUMBER_SHIFT, PC_TASK_CON_TASK_NUMBER_MASK),
            ),
            *final(self) == *final(ret),
    {
        let encoded = encode(
            task_number.val(),
            PC_TASK_CON_TASK_NUMBER_SHIFT,
            PC_TASK_CON_TASK_NUMBER_MASK,
        );
        self.set_field(PC_TASK_CON_TASK_NUMBER_MASK, encoded)
    }

    /// Fetches the next task's registers right after the current task's
    /// registers are fetched (ping-pong) rather than after it finishes.
    pub fn task_pp_enable(&mut self, enable: bool) -> (ret: &mut Self)
        ensures
            ret@ == with_field(
                old(self)@,
                PC_TASK_CON_TASK_PP_EN_MASK,
                encode_field(bool_bit(enable), PC_TASK_CON_TASK_PP_EN_SHIFT, PC_TASK_CON_TASK_PP_EN_MASK),
            ),
            *final(self) == *final(ret),
    {
        let encoded = encode(
            enable as u32,
            PC_TASK_CON_TASK_PP_EN_SHIFT,
            PC_TASK_CON_TASK_PP_EN_MASK,
        );
        self.set_field(PC_TASK_CON_TASK_PP_EN_MASK, encoded)
    }

    /// Clears the counter of the currently executing task (write 1 to clear).
    pub fn count_clear(&mut self, enable: bool) -> (ret: &mut Self)
        ensures
            ret@ == with_field(
                old(self)@,
                PC_TASK_CON_TASK_COUNT_CLEAR_MASK,
                encode_field(bool_bit(enable), PC_TASK_CON_TASK_COUNT_CLEAR_SHIFT, PC_TASK_CON_TASK_COUNT_CLEAR_MASK),
            ),
            *final(self) == *final(ret),
    {
        let encoded = encode(
            enable as u32,
            PC_TASK_CON_TASK_COUNT_CLEAR_SHIFT,
            PC_TASK_CON_TASK_COUNT_CLEAR_MASK,
        );
        self.set_field(PC_TASK_CON_TASK_COUNT_CLEAR_MASK, encoded)
    }
}

/// Per-task base address added to every engine's DMA offset.
#[derive(Debug, Clone, Copy)]
pub struct PCTaskDMABaseAddr;

impl RegisterMeta for PCTaskDMABaseAddr {
    const DOMAIN: u32 = DOMAIN_PC;
    const OFFSET: u32 = REG_PC_TASK_DMA_BASE_ADDR;
}

impl Register<PCTaskDMABaseAddr> {
    /// Address bits 31:4 of the per-task DMA base.
    pub fn base_address(&mut self, address: Bits<28>) -> (ret: &mut Self)
        ensures
            ret@ == with_field(
                old(self)@,
                PC_TASK_DMA_BASE_ADDR_DMA_BASE_ADDR_MASK,
                encode_field(address@, PC_TASK_DMA_BASE_ADDR_DMA_BASE_ADDR_SHIFT, PC_TASK_DMA_BASE_ADDR_DMA_BASE_ADDR_MASK),
            ),
            *final(self) == *final(ret),
    {
        let encoded = encode(
            address.val(),
            PC_TASK_DMA_BASE_ADDR_DMA_BASE_ADDR_SHIFT,
            PC_TASK_DMA_BASE_ADDR_DMA_BASE_ADDR_MASK,
        );
        self.set_field(PC_TASK_DMA_BASE_ADDR_DMA_BASE_ADDR_MASK, encoded)
    }
}

/// The domain and offset each register of this block names.
pub proof fn lemma_register_identities()
    ensures
        PCOperationEnable::DOMAIN == DOMAIN_PC,
        PCOperationEnable::OFFSET == REG_PC_OPERATION_ENABLE,
        PCBaseAddress::DOMAIN == DOMAIN_PC,
        PCBaseAddress::OFFSET == REG_PC_BASE_ADDRESS,
        PCRegisterAmounts::DOMAIN == DOMAIN_PC,
        PCRegisterAmounts::OFFSET == REG_PC_REGISTER_AMOUNTS,
        PCInterruptMask::DOMAIN == DOMAIN_PC,
        PCInterruptMask::OFFSET == REG_PC_INTERRUPT_MASK,
        PCInterruptClear::DOMAIN == DOMAIN_PC,
        PCInterruptClear::OFFSET == REG_PC_INTERRUPT_CLEAR,
        PCTaskCon::DOMAIN == DOMAIN_PC,
        PCTaskCon::OFFSET == REG_PC_TASK_CON,
        PCTaskDMABaseAddr::DOMAIN == DOMAIN_PC,
        PCTaskDMABaseAddr::OFFSET == REG_PC_TASK_DMA_BASE_ADDR,
{
}

} // verus!
