//! The PPU_RDMA block (PPU read DMA): register identities and the field
//! setters whose bit layout is pinned.
use crate::builders::{encode, encode_field, with_field, Bits, Register, RegisterMeta, DOMAIN_PPU_RDMA};
use vstd::prelude::*;

verus! {

/// `PPU_RDMA_RDMA_S_STATUS` offset.
pub const REG_PPU_RDMA_RDMA_S_STATUS: u32 = 0x7000;

/// The `PPU_RDMA_RDMA_S_STATUS` register.
#[derive(Debug, Clone, Copy)]
pub struct PpuRdmaSStatus;

impl RegisterMeta for PpuRdmaSStatus {
    const DOMAIN: u32 = DOMAIN_PPU_RDMA;
    const OFFSET: u32 = REG_PPU_RDMA_RDMA_S_STATUS;
}

/// `PPU_RDMA_RDMA_S_STATUS.status_0`: mask 0x00000003, shift 0.
pub const PPU_RDMA_RDMA_S_STATUS_STATUS_0_MASK: u32 = 0x00000003;

pub const PPU_RDMA_RDMA_S_STATUS_STATUS_0_SHIFT: u32 = 0;

/// `PPU_RDMA_RDMA_S_STATUS.status_1`: mask 0x00030000, shift 16.
pub const PPU_RDMA_RDMA_S_STATUS_STATUS_1_MASK: u32 = 0x00030000;

pub const PPU_RDMA_RDMA_S_STATUS_STATUS_1_SHIFT: u32 = 16;

impl Register<PpuRdmaSStatus> {
    /// Reports executer 0's current operating state within PPU_RDMA's executer/pointer ping-pong pair.
    pub fn status_0(&mut self, status_0: Bits<2>) -> (ret: &mut Self)
        ensures
            ret@ == with_field(old(self)@, PPU_RDMA_RDMA_S_STATUS_STATUS_0_MASK, encode_field(status_0@, PPU_RDMA_RDMA_S_STATUS_STATUS_0_SHIFT, PPU_RDMA_RDMA_S_STATUS_STATUS_0_MASK)),
            *final(self) == *final(ret),
    {
        let encoded = encode(status_0.val(), PPU_RDMA_RDMA_S_STATUS_STATUS_0_SHIFT, PPU_RDMA_RDMA_S_STATUS_STATUS_0_MASK);
        self.set_field(PPU_RDMA_RDMA_S_STATUS_STATUS_0_MASK, encoded)
    }

    /// Reports executer 1's current operating state within PPU_RDMA's executer/pointer ping-pong pair.
    pub fn status_1(&mut self, status_1: Bits<2>) -> (ret: &mut Self)
        ensures
            ret@ == with_field(old(self)@, PPU_RDMA_RDMA_S_STATUS_STATUS_1_MASK, encode_field(status_1@, PPU_RDMA_RDMA_S_STATUS_STATUS_1_SHIFT, PPU_RDMA_RDMA_S_STATUS_STATUS_1_MASK)),
            *final(self) == *final(ret),
    {
        let encoded = encode(status_1.val(), PPU_RDMA_RDMA_S_STATUS_STATUS_1_SHIFT, PPU_RDMA_RDMA_S_STATUS_STATUS_1_MASK);
        self.set_field(PPU_RDMA_RDMA_S_STATUS_STATUS_1_MASK, encoded)
    }
}

/// `PPU_RDMA_RDMA_S_POINTER` offset.
pub const REG_PPU_RDMA_RDMA_S_POINTER: u32 = 0x7004;

/// The `PPU_RDMA_RDMA_S_POINTER` register.
#[derive(Debug, Clone, Copy)]
pub struct PpuRdmaSPointer;

impl RegisterMeta for PpuRdmaSPointer {
    const DOMAIN: u32 = DOMAIN_PPU_RDMA;
    const OFFSET: u32 = REG_PPU_RDMA_RDMA_S_POINTER;
}

/// `PPU_RDMA_RDMA_S_POINTER.pointer`: mask 0x00000001, shift 0.
pub const PPU_RDMA_RDMA_S_POINTER_POINTER_MASK: u32 = 0x00000001;

pub const PPU_RDMA_RDMA_S_POINTER_POINTER_SHIFT: u32 = 0;

/// `PPU_RDMA_RDMA_S_POINTER.pointer_pp_en`: mask 0x00000002, shift 1.
pub const PPU_RDMA_RDMA_S_POINTER_POINTER_PP_EN_MASK: u32 = 0x00000002;

pub const PPU_RDMA_RDMA_S_POINTER_POINTER_PP_EN_SHIFT: u32 = 1;

/// `PPU_RDMA_RDMA_S_POINTER.executer_pp_en`: mask 0x00000004, shift 2.
pub const PPU_RDMA_RDMA_S_POINTER_EXECUTER_PP_EN_MASK: u32 = 0x00000004;

pub const PPU_RDMA_RDMA_S_POINTER_EXECUTER_PP_EN_SHIFT: u32 = 2;

/// `PPU_RDMA_RDMA_S_POINTER.pointer_pp_mode`: mask 0x00000008, shift 3.
pub const PPU_RDMA_RDMA_S_POINTER_POINTER_PP_MODE_MASK: u32 = 0x00000008;

pub const PPU_RDMA_RDMA_S_POINTER_POINTER_PP_MODE_SHIFT: u32 = 3;

/// `PPU_RDMA_RDMA_S_POINTER.pointer_pp_clear`: mask 0x00000010, shift 4.
pub const PPU_RDMA_RDMA_S_POINTER_POINTER_PP_CLEAR_MASK: u32 = 0x00000010;

pub const PPU_RDMA_RDMA_S_POINTER_POINTER_PP_CLEAR_SHIFT: u32 = 4;

/// `PPU_RDMA_RDMA_S_POINTER.executer_pp_clear`: mask 0x00000020, shift 5.
pub const PPU_RDMA_RDMA_S_POINTER_EXECUTER_PP_CLEAR_MASK: u32 = 0x00000020;

pub const PPU_RDMA_RDMA_S_POINTER_EXECUTER_PP_CLEAR_SHIFT: u32 = 5;

/// `PPU_RDMA_RDMA_S_POINTER.executer`: mask 0x00010000, shift 16.
pub const PPU_RDMA_RDMA_S_POINTER_EXECUTER_MASK: u32 = 0x00010000;

pub const PPU_RDMA_RDMA_S_POINTER_EXECUTER_SHIFT: u32 = 16;

impl Register<PpuRdmaSPointer> {
    /// Selects which of the two shadow register groups (0 or 1) is ready to be applied on the next operation.
    pub fn pointer(&mut self, pointer: Bits<1>) -> (ret: &mut Self)
        ensures
            ret@ == with_field(old(self)@, PPU_RDMA_RDMA_S_POINTER_POINTER_MASK, encode_field(pointer@, PPU_RDMA_RDMA_S_POINTER_POINTER_SHIFT, PPU_RDMA_RDMA_S_POINTER_POINTER_MASK)),
            *final(self) == *final(ret),
    {
        let encoded = encode(pointer.val(), PPU_RDMA_RDMA_S_POINTER_POINTER_SHIFT, PPU_RDMA_RDMA_S_POINTER_POINTER_MASK);
        self.set_field(PPU_RDMA_RDMA_S_POINTER_POINTER_MASK, encoded)
    }

    /// Enables ping-pong (double-buffered) operation of the register group pointer.
    pub fn pointer_pp_en(&mut self, pointer_pp_en: Bits<1>) -> (ret: &mut Self)
        ensures
            ret@ == with_field(old(self)@, PPU_RDMA_RDMA_S_POINTER_POINTER_PP_EN_MASK, encode_field(pointer_pp_en@, PPU_RDMA_RDMA_S_POINTER_POINTER_PP_EN_SHIFT, PPU_RDMA_RDMA_S_POINTER_POINTER_PP_EN_MASK)),
            *final(self) == *final(ret),
    {
        let encoded = encode(pointer_pp_en.val(), PPU_RDMA_RDMA_S_POINTER_POINTER_PP_EN_SHIFT, PPU_RDMA_RDMA_S_POINTER_POINTER_PP_EN_MASK);
        self.set_field(PPU_RDMA_RDMA_S_POINTER_POINTER_PP_EN_MASK, encoded)
    }

    /// Enables ping-pong (double-buffered) operation of the executer group.
    pub fn executer_pp_en(&mut self, executer_pp_en: Bits<1>) -> (ret: &mut Self)
        ensures
            ret@ == with_field(old(self)@, PPU_RDMA_RDMA_S_POINTER_EXECUTER_PP_EN_MASK, encode_field(executer_pp_en@, PPU_RDMA_RDMA_S_POINTER_EXECUTER_PP_EN_SHIFT, PPU_RDMA_RDMA_S_POINTER_EXECUTER_PP_EN_MASK)),
            *final(self) == *final(ret),
    {
        let encoded = encode(executer_pp_en.val(), PPU_RDMA_RDMA_S_POINTER_EXECUTER_PP_EN_SHIFT, PPU_RDMA_RDMA_S_POINTER_EXECUTER_PP_EN_MASK);
        self.set_field(PPU_RDMA_RDMA_S_POINTER_EXECUTER_PP_EN_MASK, encoded)
    }

    /// Selects the toggle rule used for register-group ping-pong.
    pub fn pointer_pp_mode(&mut self, pointer_pp_mode: Bits<1>) -> (ret: &mut Self)
        ensures
            ret@ == with_field(old(self)@, PPU_RDMA_RDMA_S_POINTER_POINTER_PP_MODE_MASK, encode_field(pointer_pp_mode@, PPU_RDMA_RDMA_S_POINTER_POINTER_PP_MODE_SHIFT, PPU_RDMA_RDMA_S_POINTER_POINTER_PP_MODE_MASK)),
            *final(self) == *final(ret),
    {
        let encoded = encode(pointer_pp_mode.val(), PPU_RDMA_RDMA_S_POINTER_POINTER_PP_MODE_SHIFT, PPU_RDMA_RDMA_S_POINTER_POINTER_PP_MODE_MASK);
        self.set_field(PPU_RDMA_RDMA_S_POINTER_POINTER_PP_MODE_MASK, encoded)
    }

    /// Write 1 to reset the register-group pointer back to 0.
    pub fn pointer_pp_clear(&mut self, pointer_pp_clear: Bits<1>) -> (ret: &mut Self)
        ensures
            ret@ == with_field(old(self)@, PPU_RDMA_RDMA_S_POINTER_POINTER_PP_CLEAR_MASK, encode_field(pointer_pp_clear@, PPU_RDMA_RDMA_S_POINTER_POINTER_PP_CLEAR_SHIFT, PPU_RDMA_RDMA_S_POINTER_POINTER_PP_CLEAR_MASK)),
            *final(self) == *final(ret),
    {
        let encoded = encode(pointer_pp_clear.val(), PPU_RDMA_RDMA_S_POINTER_POINTER_PP_CLEAR_SHIFT, PPU_RDMA_RDMA_S_POINTER_POINTER_PP_CLEAR_MASK);
        self.set_field(PPU_RDMA_RDMA_S_POINTER_POINTER_PP_CLEAR_MASK, encoded)
    }

    /// Write 1 to reset the executer-group pointer back to 0.
    pub fn executer_pp_clear(&mut self, executer_pp_clear: Bits<1>) -> (ret: &mut Self)
        ensures
            ret@ == with_field(old(self)@, PPU_RDMA_RDMA_S_POINTER_EXECUTER_PP_CLEAR_MASK, encode_field(executer_pp_clear@, PPU_RDMA_RDMA_S_POINTER_EXECUTER_PP_CLEAR_SHIFT, PPU_RDMA_RDMA_S_POINTER_EXECUTER_PP_CLEAR_MASK)),
            *final(self) == *final(ret),
    {
        let encoded = encode(executer_pp_clear.val(), PPU_RDMA_RDMA_S_POINTER_EXECUTER_PP_CLEAR_SHIFT, PPU_RDMA_RDMA_S_POINTER_EXECUTER_PP_CLEAR_MASK);
        self.set_field(PPU_RDMA_RDMA_S_POINTER_EXECUTER_PP_CLEAR_MASK, encoded)
    }

    /// Selects which executer register group is currently in use.
    pub fn executer(&mut self, executer: Bits<1>) -> (ret: &mut Self)
        ensures
            ret@ == with_field(old(self)@, PPU_RDMA_RDMA_S_POINTER_EXECUTER_MASK, encode_field(executer@, PPU_RDMA_RDMA_S_POINTER_EXECUTER_SHIFT, PPU_RDMA_RDMA_S_POINTER_EXECUTER_MASK)),
            *final(self) == *final(ret),
    {
        let encoded = encode(executer.val(), PPU_RDMA_RDMA_S_POINTER_EXECUTER_SHIFT, PPU_RDMA_RDMA_S_POINTER_EXECUTER_MASK);
        self.set_field(PPU_RDMA_RDMA_S_POINTER_EXECUTER_MASK, encoded)
    }
}

/// `PPU_RDMA_RDMA_OPERATION_ENABLE` offset.
pub const REG_PPU_RDMA_RDMA_OPERATION_ENABLE: u32 = 0x7008;

/// The `PPU_RDMA_RDMA_OPERATION_ENABLE` register.
#[derive(Debug, Clone, Copy)]
pub struct PpuRdmaOperationEnable;

impl RegisterMeta for PpuRdmaOperationEnable {
    const DOMAIN: u32 = DOMAIN_PPU_RDMA;
    const OFFSET: u32 = REG_PPU_RDMA_RDMA_OPERATION_ENABLE;
}

/// `PPU_RDMA_RDMA_OPERATION_ENABLE.op_en`: mask 0x00000001, shift 0.
pub const PPU_RDMA_RDMA_OPERATION_ENABLE_OP_EN_MASK: u32 = 0x00000001;

pub const PPU_RDMA_RDMA_OPERATION_ENABLE_OP_EN_SHIFT: u32 = 0;

impl Register<PpuRdmaOperationEnable> {
    /// Triggers the PPU_RDMA block to begin operating using the currently latched register group.
    pub fn op_en(&mut self, op_en: Bits<1>) -> (ret: &mut Self)
        ensures
            ret@ == with_field(old(self)@, PPU_RDMA_RDMA_OPERATION_ENABLE_OP_EN_MASK, encode_field(op_en@, PPU_RDMA_RDMA_OPERATION_ENABLE_OP_EN_SHIFT, PPU_RDMA_RDMA_OPERATION_ENABLE_OP_EN_MASK)),
            *final(self) == *final(ret),
    {
        let encoded = encode(op_en.val(), PPU_RDMA_RDMA_OPERATION_ENABLE_OP_EN_SHIFT, PPU_RDMA_RDMA_OPERATION_ENABLE_OP_EN_MASK);
        self.set_field(PPU_RDMA_RDMA_OPERATION_ENABLE_OP_EN_MASK, encoded)
    }
}

/// `PPU_RDMA_RDMA_CUBE_IN_WIDTH` offset.
pub const REG_PPU_RDMA_RDMA_CUBE_IN_WIDTH: u32 = 0x700c;

/// The `PPU_RDMA_RDMA_CUBE_IN_WIDTH` register.
#[derive(Debug, Clone, Copy)]
pub struct PpuRdmaCubeInWidth;

impl RegisterMeta for PpuRdmaCubeInWidth {
    const DOMAIN: u32 = DOMAIN_PPU_RDMA;
    const OFFSET: u32 = REG_PPU_RDMA_RDMA_CUBE_IN_WIDTH;
}

/// `PPU_RDMA_RDMA_CUBE_IN_HEIGHT` offset.
pub const REG_PPU_RDMA_RDMA_CUBE_IN_HEIGHT: u32 = 0x7010;

/// The `PPU_RDMA_RDMA_CUBE_IN_HEIGHT` register.
#[derive(Debug, Clone, Copy)]
pub struct PpuRdmaCubeInHeight;

impl RegisterMeta for PpuRdmaCubeInHeight {
    const DOMAIN: u32 = DOMAIN_PPU_RDMA;
    const OFFSET: u32 = REG_PPU_RDMA_RDMA_CUBE_IN_HEIGHT;
}

/// `PPU_RDMA_RDMA_CUBE_IN_CHANNEL` offset.
pub const REG_PPU_RDMA_RDMA_CUBE_IN_CHANNEL: u32 = 0x7014;

/// The `PPU_RDMA_RDMA_CUBE_IN_CHANNEL` register.
#[derive(Debug, Clone, Copy)]
pub struct PpuRdmaCubeInChannel;

impl RegisterMeta for PpuRdmaCubeInChannel {
    const DOMAIN: u32 = DOMAIN_PPU_RDMA;
    const OFFSET: u32 = REG_PPU_RDMA_RDMA_CUBE_IN_CHANNEL;
}

/// `PPU_RDMA_RDMA_SRC_BASE_ADDR` offset.
pub const REG_PPU_RDMA_RDMA_SRC_BASE_ADDR: u32 = 0x701c;

/// The `PPU_RDMA_RDMA_SRC_BASE_ADDR` register.
#[derive(Debug, Clone, Copy)]
pub struct PpuRdmaSrcBaseAddr;

impl RegisterMeta for PpuRdmaSrcBaseAddr {
    const DOMAIN: u32 = DOMAIN_PPU_RDMA;
    const OFFSET: u32 = REG_PPU_RDMA_RDMA_SRC_BASE_ADDR;
}

/// `PPU_RDMA_RDMA_SRC_BASE_ADDR.src_base_addr`: mask 0xffffffff, shift 0.
pub const PPU_RDMA_RDMA_SRC_BASE_ADDR_SRC_BASE_ADDR_MASK: u32 = 0xffffffff;

pub const PPU_RDMA_RDMA_SRC_BASE_ADDR_SRC_BASE_ADDR_SHIFT: u32 = 0;

impl Register<PpuRdmaSrcBaseAddr> {
    /// Base address in system memory of the pooling cube data that PPU_RDMA fetches.
    pub fn src_base_addr(&mut self, src_base_addr: Bits<32>) -> (ret: &mut Self)
        ensures
            ret@ == with_field(old(self)@, PPU_RDMA_RDMA_SRC_BASE_ADDR_SRC_BASE_ADDR_MASK, encode_field(src_base_addr@, PPU_RDMA_RDMA_SRC_BASE_ADDR_SRC_BASE_ADDR_SHIFT, PPU_RDMA_RDMA_SRC_BASE_ADDR_SRC_BASE_ADDR_MASK)),
            *final(self) == *final(ret),
    {
        let encoded = encode(src_base_addr.val(), PPU_RDMA_RDMA_SRC_BASE_ADDR_SRC_BASE_ADDR_SHIFT, PPU_RDMA_RDMA_SRC_BASE_ADDR_SRC_BASE_ADDR_MASK);
        self.set_field(PPU_RDMA_RDMA_SRC_BASE_ADDR_SRC_BASE_ADDR_MASK, encoded)
    }
}

/// `PPU_RDMA_RDMA_SRC_LINE_STRIDE` offset.
pub const REG_PPU_RDMA_RDMA_SRC_LINE_STRIDE: u32 = 0x7024;

/// The `PPU_RDMA_RDMA_SRC_LINE_STRIDE` register.
#[derive(Debug, Clone, Copy)]
pub struct PpuRdmaSrcLineStride;

impl RegisterMeta for PpuRdmaSrcLineStride {
    const DOMAIN: u32 = DOMAIN_PPU_RDMA;
    const OFFSET: u32 = REG_PPU_RDMA_RDMA_SRC_LINE_STRIDE;
}

/// `PPU_RDMA_RDMA_SRC_LINE_STRIDE.src_line_stride`: mask 0xfffffff0, shift 4.
pub const PPU_RDMA_RDMA_SRC_LINE_STRIDE_SRC_LINE_STRIDE_MASK: u32 = 0xfffffff0;

pub const PPU_RDMA_RDMA_SRC_LINE_STRIDE_SRC_LINE_STRIDE_SHIFT: u32 = 4;

impl Register<PpuRdmaSrcLineStride> {
    /// Stride (in bytes) between consecutive rows of the source pooling cube, including any "virtual box" padding beyond the logical cube width.
    pub fn src_line_stride(&mut self, src_line_stride: Bits<28>) -> (ret: &mut Self)
        ensures
            ret@ == with_field(old(self)@, PPU_RDMA_RDMA_SRC_LINE_STRIDE_SRC_LINE_STRIDE_MASK, encode_field(src_line_stride@, PPU_RDMA_RDMA_SRC_LINE_STRIDE_SRC_LINE_STRIDE_SHIFT, PPU_RDMA_RDMA_SRC_LINE_STRIDE_SRC_LINE_STRIDE_MASK)),
            *final(self) == *final(ret),
    {
        let encoded = encode(src_line_stride.val(), PPU_RDMA_RDMA_SRC_LINE_STRIDE_SRC_LINE_STRIDE_SHIFT, PPU_RDMA_RDMA_SRC_LINE_STRIDE_SRC_LINE_STRIDE_MASK);
        self.set_field(PPU_RDMA_RDMA_SRC_LINE_STRIDE_SRC_LINE_STRIDE_MASK, encoded)
    }
}

/// `PPU_RDMA_RDMA_SRC_SURF_STRIDE` offset.
pub const REG_PPU_RDMA_RDMA_SRC_SURF_STRIDE: u32 = 0x7028;

/// The `PPU_RDMA_RDMA_SRC_SURF_STRIDE` register.
#[derive(Debug, Clone, Copy)]
pub struct PpuRdmaSrcSurfStride;

impl RegisterMeta for PpuRdmaSrcSurfStride {
    const DOMAIN: u32 = DOMAIN_PPU_RDMA;
    const OFFSET: u32 = REG_PPU_RDMA_RDMA_SRC_SURF_STRIDE;
}

/// `PPU_RDMA_RDMA_SRC_SURF_STRIDE.src_surf_stride`: mask 0xfffffff0, shift 4.
pub const PPU_RDMA_RDMA_SRC_SURF_STRIDE_SRC_SURF_STRIDE_MASK: u32 = 0xfffffff0;

pub const PPU_RDMA_RDMA_SRC_SURF_STRIDE_SRC_SURF_STRIDE_SHIFT: u32 = 4;

impl Register<PpuRdmaSrcSurfStride> {
    /// Stride (in bytes) between consecutive surfaces/planes of the source pooling cube, including any "virtual box" padding beyond the logical cube area.
    pub fn src_surf_stride(&mut self, src_surf_stride: Bits<28>) -> (ret: &mut Self)
        ensures
            ret@ == with_field(old(self)@, PPU_RDMA_RDMA_SRC_SURF_STRIDE_SRC_SURF_STRIDE_MASK, encode_field(src_surf_stride@, PPU_RDMA_RDMA_SRC_SURF_STRIDE_SRC_SURF_STRIDE_SHIFT, PPU_RDMA_RDMA_SRC_SURF_STRIDE_SRC_SURF_STRIDE_MASK)),
            *final(self) == *final(ret),
    {
        let encoded = encode(src_surf_stride.val(), PPU_RDMA_RDMA_SRC_SURF_STRIDE_SRC_SURF_STRIDE_SHIFT, PPU_RDMA_RDMA_SRC_SURF_STRIDE_SRC_SURF_STRIDE_MASK);
        self.set_field(PPU_RDMA_RDMA_SRC_SURF_STRIDE_SRC_SURF_STRIDE_MASK, encoded)
    }
}

/// `PPU_RDMA_RDMA_DATA_FORMAT` offset.
pub const REG_PPU_RDMA_RDMA_DATA_FORMAT: u32 = 0x7030;

/// The `PPU_RDMA_RDMA_DATA_FORMAT` register.
#[derive(Debug, Clone, Copy)]
pub struct PpuRdmaDataFormat;

impl RegisterMeta for PpuRdmaDataFormat {
    const DOMAIN: u32 = DOMAIN_PPU_RDMA;
    const OFFSET: u32 = REG_PPU_RDMA_RDMA_DATA_FORMAT;
}

/// The domain and offset each register of this block names.
pub proof fn lemma_register_identities()
    ensures
        PpuRdmaSStatus::DOMAIN == DOMAIN_PPU_RDMA,
        PpuRdmaSStatus::OFFSET == REG_PPU_RDMA_RDMA_S_STATUS,
        PpuRdmaSPointer::DOMAIN == DOMAIN_PPU_RDMA,
        PpuRdmaSPointer::OFFSET == REG_PPU_RDMA_RDMA_S_POINTER,
        PpuRdmaOperationEnable::DOMAIN == DOMAIN_PPU_RDMA,
        PpuRdmaOperationEnable::OFFSET == REG_PPU_RDMA_RDMA_OPERATION_ENABLE,
        PpuRdmaCubeInWidth::DOMAIN == DOMAIN_PPU_RDMA,
        PpuRdmaCubeInWidth::OFFSET == REG_PPU_RDMA_RDMA_CUBE_IN_WIDTH,
        PpuRdmaCubeInHeight::DOMAIN == DOMAIN_PPU_RDMA,
        PpuRdmaCubeInHeight::OFFSET == REG_PPU_RDMA_RDMA_CUBE_IN_HEIGHT,
        PpuRdmaCubeInChannel::DOMAIN == DOMAIN_PPU_RDMA,
        PpuRdmaCubeInChannel::OFFSET == REG_PPU_RDMA_RDMA_CUBE_IN_CHANNEL,
        PpuRdmaSrcBaseAddr::DOMAIN == DOMAIN_PPU_RDMA,
        PpuRdmaSrcBaseAddr::OFFSET == REG_PPU_RDMA_RDMA_SRC_BASE_ADDR,
        PpuRdmaSrcLineStride::DOMAIN == DOMAIN_PPU_RDMA,
        PpuRdmaSrcLineStride::OFFSET == REG_PPU_RDMA_RDMA_SRC_LINE_STRIDE,
        PpuRdmaSrcSurfStride::DOMAIN == DOMAIN_PPU_RDMA,
        PpuRdmaSrcSurfStride::OFFSET == REG_PPU_RDMA_RDMA_SRC_SURF_STRIDE,
        PpuRdmaDataFormat::DOMAIN == DOMAIN_PPU_RDMA,
        PpuRdmaDataFormat::OFFSET == REG_PPU_RDMA_RDMA_DATA_FORMAT,
{
}

} // verus!
