//! The GLOBAL block's chip-wide operation-enable register.
use crate::builders::{
    encode, encode_field, with_field, Bits, Register, RegisterMeta, DOMAIN_GLOBAL,
};
use vstd::prelude::*;

verus! {

/// `GLOBAL_OPERATION_ENABLE` offset.
pub const REG_GLOBAL_OPERATION_ENABLE: u32 = 0xf008;

/// `GLOBAL_OPERATION_ENABLE.cna_op_en`, bit 0.
pub const GLOBAL_OPERATION_ENABLE_CNA_OP_EN_MASK: u32 = 0x1;

pub const GLOBAL_OPERATION_ENABLE_CNA_OP_EN_SHIFT: u32 = 0;

/// `GLOBAL_OPERATION_ENABLE.core_op_en`, bit 2.
pub const GLOBAL_OPERATION_ENABLE_CORE_OP_EN_MASK: u32 = 0x4;

pub const GLOBAL_OPERATION_ENABLE_CORE_OP_EN_SHIFT: u32 = 2;

/// `GLOBAL_OPERATION_ENABLE.dpu_op_en`, bit 3.
pub const GLOBAL_OPERATION_ENABLE_DPU_OP_EN_MASK: u32 = 0x8;

pub const GLOBAL_OPERATION_ENABLE_DPU_OP_EN_SHIFT: u32 = 3;

/// `GLOBAL_OPERATION_ENABLE.dpu_rdma_op_en`, bit 4.
pub const GLOBAL_OPERATION_ENABLE_DPU_RDMA_OP_EN_MASK: u32 = 0x10;

pub const GLOBAL_OPERATION_ENABLE_DPU_RDMA_OP_EN_SHIFT: u32 = 4;

/// `GLOBAL_OPERATION_ENABLE.ppu_op_en`, bit 5.
pub const GLOBAL_OPERATION_ENABLE_PPU_OP_EN_MASK: u32 = 0x20;

pub const GLOBAL_OPERATION_ENABLE_PPU_OP_EN_SHIFT: u32 = 5;

/// `GLOBAL_OPERATION_ENABLE.ppu_rdma_op_en`, bit 6.
pub const GLOBAL_OPERATION_ENABLE_PPU_RDMA_OP_EN_MASK: u32 = 0x40;

pub const GLOBAL_OPERATION_ENABLE_PPU_RDMA_OP_EN_SHIFT: u32 = 6;

/// Chip-wide enable signals, one per engine block, independent of each
/// block's own operation-enable register.
#[derive(Debug, Clone, Copy)]
pub struct GlobalOperationEnable;

impl RegisterMeta for GlobalOperationEnable {
    const DOMAIN: u32 = DOMAIN_GLOBAL;
    const OFFSET: u32 = REG_GLOBAL_OPERATION_ENABLE;
}

impl Register<GlobalOperationEnable> {
    /// Chip-wide enable that triggers the CNA block (0 = disable, 1 = enable).
    /// Bit 1, between this field and `core_op_en`, is reserved.
    pub fn cna_op_en(&mut self, cna_op_en: Bits<1>) -> (ret: &mut Self)
        ensures
            ret@ == with_field(
                old(self)@,
                GLOBAL_OPERATION_ENABLE_CNA_OP_EN_MASK,
                encode_field(cna_op_en@, GLOBAL_OPERATION_ENABLE_CNA_OP_EN_SHIFT, GLOBAL_OPERATION_ENABLE_CNA_OP_EN_MASK),
            ),
            *final(self) == *final(ret),
    {
        let encoded = encode(
            cna_op_en.val(),
            GLOBAL_OPERATION_ENABLE_CNA_OP_EN_SHIFT,
            GLOBAL_OPERATION_ENABLE_CNA_OP_EN_MASK,
        );
        self.set_field(GLOBAL_OPERATION_ENABLE_CNA_OP_EN_MASK, encoded)
    }

    /// Chip-wide enable that triggers the CORE block (0 = disable, 1 = enable).
    pub fn core_op_en(&mut self, core_op_en: Bits<1>) -> (ret: &mut Self)
        ensures
            ret@ == with_field(
                old(self)@,
                GLOBAL_OPERATION_ENABLE_CORE_OP_EN_MASK,
                encode_field(core_op_en@, GLOBAL_OPERATION_ENABLE_CORE_OP_EN_SHIFT, GLOBAL_OPERATION_ENABLE_CORE_OP_EN_MASK),
            ),
            *final(self) == *final(ret),
    {
        let encoded = encode(
            core_op_en.val(),
            GLOBAL_OPERATION_ENABLE_CORE_OP_EN_SHIFT,
            GLOBAL_OPERATION_ENABLE_CORE_OP_EN_MASK,
        );
        self.set_field(GLOBAL_OPERATION_ENABLE_CORE_OP_EN_MASK, encoded)
    }

    /// Chip-wide enable that triggers the DPU block (0 = disable, 1 = enable).
    pub fn dpu_op_en(&mut self, dpu_op_en: Bits<1>) -> (ret: &mut Self)
        ensures
            ret@ == with_field(
                old(self)@,
                GLOBAL_OPERATION_ENABLE_DPU_OP_EN_MASK,
                encode_field(dpu_op_en@, GLOBAL_OPERATION_ENABLE_DPU_OP_EN_SHIFT, GLOBAL_OPERATION_ENABLE_DPU_OP_EN_MASK),
            ),
            *final(self) == *final(ret),
    {
        let encoded = encode(
            dpu_op_en.val(),
            GLOBAL_OPERATION_ENABLE_DPU_OP_EN_SHIFT,
            GLOBAL_OPERATION_ENABLE_DPU_OP_EN_MASK,
        );
        self.set_field(GLOBAL_OPERATION_ENABLE_DPU_OP_EN_MASK, encoded)
    }

    /// Chip-wide enable that triggers the DPU_RDMA block (0 = disable, 1 = enable).
    /// Only relevant when DPU runs in flying mode.
    pub fn dpu_rdma_op_en(&mut self, dpu_rdma_op_en: Bits<1>) -> (ret: &mut Self)
        ensures
            ret@ == with_field(
                old(self)@,
                GLOBAL_OPERATION_ENABLE_DPU_RDMA_OP_EN_MASK,
                encode_field(dpu_rdma_op_en@, GLOBAL_OPERATION_ENABLE_DPU_RDMA_OP_EN_SHIFT, GLOBAL_OPERATION_ENABLE_DPU_RDMA_OP_EN_MASK),
            ),
            *final(self) == *final(ret),
    {
        let encoded = encode(
            dpu_rdma_op_en.val(),
            GLOBAL_OPERATION_ENABLE_DPU_RDMA_OP_EN_SHIFT,
            GLOBAL_OPERATION_ENABLE_DPU_RDMA_OP_EN_MASK,
        );
        self.set_field(GLOBAL_OPERATION_ENABLE_DPU_RDMA_OP_EN_MASK, encoded)
    }

    /// Chip-wide enable that triggers the PPU block (0 = disable, 1 = enable).
    pub fn ppu_op_en(&mut self, ppu_op_en: Bits<1>) -> (ret: &mut Self)
        ensures
            ret@ == with_field(
                old(self)@,
                GLOBAL_OPERATION_ENABLE_PPU_OP_EN_MASK,
                encode_field(ppu_op_en@, GLOBAL_OPERATION_ENABLE_PPU_OP_EN_SHIFT, GLOBAL_OPERATION_ENABLE_PPU_OP_EN_MASK),
            ),
            *final(self) == *final(ret),
    {
        let encoded = encode(
            ppu_op_en.val(),
            GLOBAL_OPERATION_ENABLE_PPU_OP_EN_SHIFT,
            GLOBAL_OPERATION_ENABLE_PPU_OP_EN_MASK,
        );
        self.set_field(GLOBAL_OPERATION_ENABLE_PPU_OP_EN_MASK, encoded)
    }

    /// Chip-wide enable that triggers the PPU_RDMA block (0 = disable, 1 = enable).
    /// Only relevant when PPU runs in flying mode.
    pub fn ppu_rdma_op_en(&mut self, ppu_rdma_op_en: Bits<1>) -> (ret: &mut Self)
        ensures
            ret@ == with_field(
                old(self)@,
                GLOBAL_OPERATION_ENABLE_PPU_RDMA_OP_EN_MASK,
                encode_field(ppu_rdma_op_en@, GLOBAL_OPERATION_ENABLE_PPU_RDMA_OP_EN_SHIFT, GLOBAL_OPERATION_ENABLE_PPU_RDMA_OP_EN_MASK),
            ),
            *final(self) == *final(ret),
    {
        let encoded = encode(
            ppu_rdma_op_en.val(),
            GLOBAL_OPERATION_ENABLE_PPU_RDMA_OP_EN_SHIFT,
            GLOBAL_OPERATION_ENABLE_PPU_RDMA_OP_EN_MASK,
        );
        self.set_field(GLOBAL_OPERATION_ENABLE_PPU_RDMA_OP_EN_MASK, encoded)
    }
}

/// The domain and offset each register of this block names.
pub proof fn lemma_register_identities()
    ensures
        GlobalOperationEnable::DOMAIN == DOMAIN_GLOBAL,
        GlobalOperationEnable::OFFSET == REG_GLOBAL_OPERATION_ENABLE,
{
}

} // verus!
