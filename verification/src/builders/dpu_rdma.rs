//! The DPU_RDMA block (DPU read DMA): register identities and field setters.
use crate::builders::{encode, encode_field, with_field, Bits, Register, RegisterMeta, DOMAIN_DPU_RDMA};
use vstd::prelude::*;

verus! {

/// `DPU_RDMA_RDMA_S_STATUS` offset.
pub const REG_DPU_RDMA_RDMA_S_STATUS: u32 = 0x5000;

/// The `DPU_RDMA_RDMA_S_STATUS` register.
#[derive(Debug, Clone, Copy)]
pub struct DpuRdmaSStatus;

impl RegisterMeta for DpuRdmaSStatus {
    const DOMAIN: u32 = DOMAIN_DPU_RDMA;
    const OFFSET: u32 = REG_DPU_RDMA_RDMA_S_STATUS;
}

/// `DPU_RDMA_RDMA_S_STATUS.status_0`: mask 0x00000003, shift 0.
pub const DPU_RDMA_RDMA_S_STATUS_STATUS_0_MASK: u32 = 0x00000003;

pub const DPU_RDMA_RDMA_S_STATUS_STATUS_0_SHIFT: u32 = 0;

/// `DPU_RDMA_RDMA_S_STATUS.status_1`: mask 0x00030000, shift 16.
pub const DPU_RDMA_RDMA_S_STATUS_STATUS_1_MASK: u32 = 0x00030000;

pub const DPU_RDMA_RDMA_S_STATUS_STATUS_1_SHIFT: u32 = 16;

impl Register<DpuRdmaSStatus> {
    /// Executer 0's ping-pong operating state.
    pub fn status_0(&mut self, status_0: Bits<2>) -> (ret: &mut Self)
        ensures
            ret@ == with_field(old(self)@, DPU_RDMA_RDMA_S_STATUS_STATUS_0_MASK, encode_field(status_0@, DPU_RDMA_RDMA_S_STATUS_STATUS_0_SHIFT, DPU_RDMA_RDMA_S_STATUS_STATUS_0_MASK)),
            *final(self) == *final(ret),
    {
        let encoded = encode(status_0.val(), DPU_RDMA_RDMA_S_STATUS_STATUS_0_SHIFT, DPU_RDMA_RDMA_S_STATUS_STATUS_0_MASK);
        self.set_field(DPU_RDMA_RDMA_S_STATUS_STATUS_0_MASK, encoded)
    }

    /// Executer 1's ping-pong operating state.
    pub fn status_1(&mut self, status_1: Bits<2>) -> (ret: &mut Self)
        ensures
            ret@ == with_field(old(self)@, DPU_RDMA_RDMA_S_STATUS_STATUS_1_MASK, encode_field(status_1@, DPU_RDMA_RDMA_S_STATUS_STATUS_1_SHIFT, DPU_RDMA_RDMA_S_STATUS_STATUS_1_MASK)),
            *final(self) == *final(ret),
    {
        let encoded = encode(status_1.val(), DPU_RDMA_RDMA_S_STATUS_STATUS_1_SHIFT, DPU_RDMA_RDMA_S_STATUS_STATUS_1_MASK);
        self.set_field(DPU_RDMA_RDMA_S_STATUS_STATUS_1_MASK, encoded)
    }
}

/// `DPU_RDMA_RDMA_S_POINTER` offset.
pub const REG_DPU_RDMA_RDMA_S_POINTER: u32 = 0x5004;

/// The `DPU_RDMA_RDMA_S_POINTER` register.
#[derive(Debug, Clone, Copy)]
pub struct DpuRdmaSPointer;

impl RegisterMeta for DpuRdmaSPointer {
    const DOMAIN: u32 = DOMAIN_DPU_RDMA;
    const OFFSET: u32 = REG_DPU_RDMA_RDMA_S_POINTER;
}

/// `DPU_RDMA_RDMA_S_POINTER.pointer`: mask 0x00000001, shift 0.
pub const DPU_RDMA_RDMA_S_POINTER_POINTER_MASK: u32 = 0x00000001;

pub const DPU_RDMA_RDMA_S_POINTER_POINTER_SHIFT: u32 = 0;

/// `DPU_RDMA_RDMA_S_POINTER.pointer_pp_en`: mask 0x00000002, shift 1.
pub const DPU_RDMA_RDMA_S_POINTER_POINTER_PP_EN_MASK: u32 = 0x00000002;

pub const DPU_RDMA_RDMA_S_POINTER_POINTER_PP_EN_SHIFT: u32 = 1;

/// `DPU_RDMA_RDMA_S_POINTER.executer_pp_en`: mask 0x00000004, shift 2.
pub const DPU_RDMA_RDMA_S_POINTER_EXECUTER_PP_EN_MASK: u32 = 0x00000004;

pub const DPU_RDMA_RDMA_S_POINTER_EXECUTER_PP_EN_SHIFT: u32 = 2;

/// `DPU_RDMA_RDMA_S_POINTER.pointer_pp_mode`: mask 0x00000008, shift 3.
pub const DPU_RDMA_RDMA_S_POINTER_POINTER_PP_MODE_MASK: u32 = 0x00000008;

pub const DPU_RDMA_RDMA_S_POINTER_POINTER_PP_MODE_SHIFT: u32 = 3;

/// `DPU_RDMA_RDMA_S_POINTER.pointer_pp_clear`: mask 0x00000010, shift 4.
pub const DPU_RDMA_RDMA_S_POINTER_POINTER_PP_CLEAR_MASK: u32 = 0x00000010;

pub const DPU_RDMA_RDMA_S_POINTER_POINTER_PP_CLEAR_SHIFT: u32 = 4;

/// `DPU_RDMA_RDMA_S_POINTER.executer_pp_clear`: mask 0x00000020, shift 5.
pub const DPU_RDMA_RDMA_S_POINTER_EXECUTER_PP_CLEAR_MASK: u32 = 0x00000020;

pub const DPU_RDMA_RDMA_S_POINTER_EXECUTER_PP_CLEAR_SHIFT: u32 = 5;

/// `DPU_RDMA_RDMA_S_POINTER.executer`: mask 0x00010000, shift 16.
pub const DPU_RDMA_RDMA_S_POINTER_EXECUTER_MASK: u32 = 0x00010000;

pub const DPU_RDMA_RDMA_S_POINTER_EXECUTER_SHIFT: u32 = 16;

impl Register<DpuRdmaSPointer> {
    /// Selects which of the two shadow register groups is ready to be applied.
    pub fn pointer(&mut self, pointer: Bits<1>) -> (ret: &mut Self)
        ensures
            ret@ == with_field(old(self)@, DPU_RDMA_RDMA_S_POINTER_POINTER_MASK, encode_field(pointer@, DPU_RDMA_RDMA_S_POINTER_POINTER_SHIFT, DPU_RDMA_RDMA_S_POINTER_POINTER_MASK)),
            *final(self) == *final(ret),
    {
        let encoded = encode(pointer.val(), DPU_RDMA_RDMA_S_POINTER_POINTER_SHIFT, DPU_RDMA_RDMA_S_POINTER_POINTER_MASK);
        self.set_field(DPU_RDMA_RDMA_S_POINTER_POINTER_MASK, encoded)
    }

    /// Enables ping-pong toggling of the register group.
    pub fn pointer_pp_en(&mut self, pointer_pp_en: Bits<1>) -> (ret: &mut Self)
        ensures
            ret@ == with_field(old(self)@, DPU_RDMA_RDMA_S_POINTER_POINTER_PP_EN_MASK, encode_field(pointer_pp_en@, DPU_RDMA_RDMA_S_POINTER_POINTER_PP_EN_SHIFT, DPU_RDMA_RDMA_S_POINTER_POINTER_PP_EN_MASK)),
            *final(self) == *final(ret),
    {
        let encoded = encode(pointer_pp_en.val(), DPU_RDMA_RDMA_S_POINTER_POINTER_PP_EN_SHIFT, DPU_RDMA_RDMA_S_POINTER_POINTER_PP_EN_MASK);
        self.set_field(DPU_RDMA_RDMA_S_POINTER_POINTER_PP_EN_MASK, encoded)
    }

    /// Enables ping-pong toggling of the executer group.
    pub fn executer_pp_en(&mut self, executer_pp_en: Bits<1>) -> (ret: &mut Self)
        ensures
            ret@ == with_field(old(self)@, DPU_RDMA_RDMA_S_POINTER_EXECUTER_PP_EN_MASK, encode_field(executer_pp_en@, DPU_RDMA_RDMA_S_POINTER_EXECUTER_PP_EN_SHIFT, DPU_RDMA_RDMA_S_POINTER_EXECUTER_PP_EN_MASK)),
            *final(self) == *final(ret),
    {
        let encoded = encode(executer_pp_en.val(), DPU_RDMA_RDMA_S_POINTER_EXECUTER_PP_EN_SHIFT, DPU_RDMA_RDMA_S_POINTER_EXECUTER_PP_EN_MASK);
        self.set_field(DPU_RDMA_RDMA_S_POINTER_EXECUTER_PP_EN_MASK, encoded)
    }

    /// Selects the rule by which the register-group pointer toggles.
    pub fn pointer_pp_mode(&mut self, pointer_pp_mode: Bits<1>) -> (ret: &mut Self)
        ensures
            ret@ == with_field(old(self)@, DPU_RDMA_RDMA_S_POINTER_POINTER_PP_MODE_MASK, encode_field(pointer_pp_mode@, DPU_RDMA_RDMA_S_POINTER_POINTER_PP_MODE_SHIFT, DPU_RDMA_RDMA_S_POINTER_POINTER_PP_MODE_MASK)),
            *final(self) == *final(ret),
    {
        let encoded = encode(pointer_pp_mode.val(), DPU_RDMA_RDMA_S_POINTER_POINTER_PP_MODE_SHIFT, DPU_RDMA_RDMA_S_POINTER_POINTER_PP_MODE_MASK);
        self.set_field(DPU_RDMA_RDMA_S_POINTER_POINTER_PP_MODE_MASK, encoded)
    }

    /// Clears the register-group ping-pong pointer back to 0.
    pub fn pointer_pp_clear(&mut self, pointer_pp_clear: Bits<1>) -> (ret: &mut Self)
        ensures
            ret@ == with_field(old(self)@, DPU_RDMA_RDMA_S_POINTER_POINTER_PP_CLEAR_MASK, encode_field(pointer_pp_clear@, DPU_RDMA_RDMA_S_POINTER_POINTER_PP_CLEAR_SHIFT, DPU_RDMA_RDMA_S_POINTER_POINTER_PP_CLEAR_MASK)),
            *final(self) == *final(ret),
    {
        let encoded = encode(pointer_pp_clear.val(), DPU_RDMA_RDMA_S_POINTER_POINTER_PP_CLEAR_SHIFT, DPU_RDMA_RDMA_S_POINTER_POINTER_PP_CLEAR_MASK);
        self.set_field(DPU_RDMA_RDMA_S_POINTER_POINTER_PP_CLEAR_MASK, encoded)
    }

    /// Clears the executer-group ping-pong pointer back to 0.
    pub fn executer_pp_clear(&mut self, executer_pp_clear: Bits<1>) -> (ret: &mut Self)
        ensures
            ret@ == with_field(old(self)@, DPU_RDMA_RDMA_S_POINTER_EXECUTER_PP_CLEAR_MASK, encode_field(executer_pp_clear@, DPU_RDMA_RDMA_S_POINTER_EXECUTER_PP_CLEAR_SHIFT, DPU_RDMA_RDMA_S_POINTER_EXECUTER_PP_CLEAR_MASK)),
            *final(self) == *final(ret),
    {
        let encoded = encode(executer_pp_clear.val(), DPU_RDMA_RDMA_S_POINTER_EXECUTER_PP_CLEAR_SHIFT, DPU_RDMA_RDMA_S_POINTER_EXECUTER_PP_CLEAR_MASK);
        self.set_field(DPU_RDMA_RDMA_S_POINTER_EXECUTER_PP_CLEAR_MASK, encoded)
    }

    /// Selects which executer register group is used.
    pub fn executer(&mut self, executer: Bits<1>) -> (ret: &mut Self)
        ensures
            ret@ == with_field(old(self)@, DPU_RDMA_RDMA_S_POINTER_EXECUTER_MASK, encode_field(executer@, DPU_RDMA_RDMA_S_POINTER_EXECUTER_SHIFT, DPU_RDMA_RDMA_S_POINTER_EXECUTER_MASK)),
            *final(self) == *final(ret),
    {
        let encoded = encode(executer.val(), DPU_RDMA_RDMA_S_POINTER_EXECUTER_SHIFT, DPU_RDMA_RDMA_S_POINTER_EXECUTER_MASK);
        self.set_field(DPU_RDMA_RDMA_S_POINTER_EXECUTER_MASK, encoded)
    }
}

/// `DPU_RDMA_RDMA_OPERATION_ENABLE` offset.
pub const REG_DPU_RDMA_RDMA_OPERATION_ENABLE: u32 = 0x5008;

/// The `DPU_RDMA_RDMA_OPERATION_ENABLE` register.
#[derive(Debug, Clone, Copy)]
pub struct DpuRdmaOperationEnable;

impl RegisterMeta for DpuRdmaOperationEnable {
    const DOMAIN: u32 = DOMAIN_DPU_RDMA;
    const OFFSET: u32 = REG_DPU_RDMA_RDMA_OPERATION_ENABLE;
}

/// `DPU_RDMA_RDMA_OPERATION_ENABLE.op_en`: mask 0x00000001, shift 0.
pub const DPU_RDMA_RDMA_OPERATION_ENABLE_OP_EN_MASK: u32 = 0x00000001;

pub const DPU_RDMA_RDMA_OPERATION_ENABLE_OP_EN_SHIFT: u32 = 0;

impl Register<DpuRdmaOperationEnable> {
    /// Triggers the DPU_RDMA block to begin operating on the currently-configured register group.
    pub fn op_en(&mut self, op_en: Bits<1>) -> (ret: &mut Self)
        ensures
            ret@ == with_field(old(self)@, DPU_RDMA_RDMA_OPERATION_ENABLE_OP_EN_MASK, encode_field(op_en@, DPU_RDMA_RDMA_OPERATION_ENABLE_OP_EN_SHIFT, DPU_RDMA_RDMA_OPERATION_ENABLE_OP_EN_MASK)),
            *final(self) == *final(ret),
    {
        let encoded = encode(op_en.val(), DPU_RDMA_RDMA_OPERATION_ENABLE_OP_EN_SHIFT, DPU_RDMA_RDMA_OPERATION_ENABLE_OP_EN_MASK);
        self.set_field(DPU_RDMA_RDMA_OPERATION_ENABLE_OP_EN_MASK, encoded)
    }
}

/// `DPU_RDMA_RDMA_DATA_CUBE_WIDTH` offset.
pub const REG_DPU_RDMA_RDMA_DATA_CUBE_WIDTH: u32 = 0x500c;

/// The `DPU_RDMA_RDMA_DATA_CUBE_WIDTH` register.
#[derive(Debug, Clone, Copy)]
pub struct DpuRdmaDataCubeWidth;

impl RegisterMeta for DpuRdmaDataCubeWidth {
    const DOMAIN: u32 = DOMAIN_DPU_RDMA;
    const OFFSET: u32 = REG_DPU_RDMA_RDMA_DATA_CUBE_WIDTH;
}

/// `DPU_RDMA_RDMA_DATA_CUBE_WIDTH.width`: mask 0x00001fff, shift 0.
pub const DPU_RDMA_RDMA_DATA_CUBE_WIDTH_WIDTH_MASK: u32 = 0x00001fff;

pub const DPU_RDMA_RDMA_DATA_CUBE_WIDTH_WIDTH_SHIFT: u32 = 0;

impl Register<DpuRdmaDataCubeWidth> {
    /// Input feature map width fed into DPU_RDMA.
    pub fn width(&mut self, width: Bits<13>) -> (ret: &mut Self)
        ensures
            ret@ == with_field(old(self)@, DPU_RDMA_RDMA_DATA_CUBE_WIDTH_WIDTH_MASK, encode_field(width@, DPU_RDMA_RDMA_DATA_CUBE_WIDTH_WIDTH_SHIFT, DPU_RDMA_RDMA_DATA_CUBE_WIDTH_WIDTH_MASK)),
            *final(self) == *final(ret),
    {
        let encoded = encode(width.val(), DPU_RDMA_RDMA_DATA_CUBE_WIDTH_WIDTH_SHIFT, DPU_RDMA_RDMA_DATA_CUBE_WIDTH_WIDTH_MASK);
        self.set_field(DPU_RDMA_RDMA_DATA_CUBE_WIDTH_WIDTH_MASK, encoded)
    }
}

/// `DPU_RDMA_RDMA_DATA_CUBE_HEIGHT` offset.
pub const REG_DPU_RDMA_RDMA_DATA_CUBE_HEIGHT: u32 = 0x5010;

/// The `DPU_RDMA_RDMA_DATA_CUBE_HEIGHT` register.
#[derive(Debug, Clone, Copy)]
pub struct DpuRdmaDataCubeHeight;

impl RegisterMeta for DpuRdmaDataCubeHeight {
    const DOMAIN: u32 = DOMAIN_DPU_RDMA;
    const OFFSET: u32 = REG_DPU_RDMA_RDMA_DATA_CUBE_HEIGHT;
}

/// `DPU_RDMA_RDMA_DATA_CUBE_HEIGHT.height`: mask 0x00001fff, shift 0.
pub const DPU_RDMA_RDMA_DATA_CUBE_HEIGHT_HEIGHT_MASK: u32 = 0x00001fff;

pub const DPU_RDMA_RDMA_DATA_CUBE_HEIGHT_HEIGHT_SHIFT: u32 = 0;

/// `DPU_RDMA_RDMA_DATA_CUBE_HEIGHT.ew_line_notch_addr`: mask 0x1fff0000, shift 16.
pub const DPU_RDMA_RDMA_DATA_CUBE_HEIGHT_EW_LINE_NOTCH_ADDR_MASK: u32 = 0x1fff0000;

pub const DPU_RDMA_RDMA_DATA_CUBE_HEIGHT_EW_LINE_NOTCH_ADDR_SHIFT: u32 = 16;

impl Register<DpuRdmaDataCubeHeight> {
    /// Input feature map height fed into DPU_RDMA.
    pub fn height(&mut self, height: Bits<13>) -> (ret: &mut Self)
        ensures
            ret@ == with_field(old(self)@, DPU_RDMA_RDMA_DATA_CUBE_HEIGHT_HEIGHT_MASK, encode_field(height@, DPU_RDMA_RDMA_DATA_CUBE_HEIGHT_HEIGHT_SHIFT, DPU_RDMA_RDMA_DATA_CUBE_HEIGHT_HEIGHT_MASK)),
            *final(self) == *final(ret),
    {
        let encoded = encode(height.val(), DPU_RDMA_RDMA_DATA_CUBE_HEIGHT_HEIGHT_SHIFT, DPU_RDMA_RDMA_DATA_CUBE_HEIGHT_HEIGHT_MASK);
        self.set_field(DPU_RDMA_RDMA_DATA_CUBE_HEIGHT_HEIGHT_MASK, encoded)
    }

    /// Line notch address for the EW (element-wise) cube, used for end-of-line bookkeeping.
    pub fn ew_line_notch_addr(&mut self, ew_line_notch_addr: Bits<13>) -> (ret: &mut Self)
        ensures
            ret@ == with_field(old(self)@, DPU_RDMA_RDMA_DATA_CUBE_HEIGHT_EW_LINE_NOTCH_ADDR_MASK, encode_field(ew_line_notch_addr@, DPU_RDMA_RDMA_DATA_CUBE_HEIGHT_EW_LINE_NOTCH_ADDR_SHIFT, DPU_RDMA_RDMA_DATA_CUBE_HEIGHT_EW_LINE_NOTCH_ADDR_MASK)),
            *final(self) == *final(ret),
    {
        let encoded = encode(ew_line_notch_addr.val(), DPU_RDMA_RDMA_DATA_CUBE_HEIGHT_EW_LINE_NOTCH_ADDR_SHIFT, DPU_RDMA_RDMA_DATA_CUBE_HEIGHT_EW_LINE_NOTCH_ADDR_MASK);
        self.set_field(DPU_RDMA_RDMA_DATA_CUBE_HEIGHT_EW_LINE_NOTCH_ADDR_MASK, encoded)
    }
}

/// `DPU_RDMA_RDMA_DATA_CUBE_CHANNEL` offset.
pub const REG_DPU_RDMA_RDMA_DATA_CUBE_CHANNEL: u32 = 0x5014;

/// The `DPU_RDMA_RDMA_DATA_CUBE_CHANNEL` register.
#[derive(Debug, Clone, Copy)]
pub struct DpuRdmaDataCubeChannel;

impl RegisterMeta for DpuRdmaDataCubeChannel {
    const DOMAIN: u32 = DOMAIN_DPU_RDMA;
    const OFFSET: u32 = REG_DPU_RDMA_RDMA_DATA_CUBE_CHANNEL;
}

/// `DPU_RDMA_RDMA_DATA_CUBE_CHANNEL.channel`: mask 0x00001fff, shift 0.
pub const DPU_RDMA_RDMA_DATA_CUBE_CHANNEL_CHANNEL_MASK: u32 = 0x00001fff;

pub const DPU_RDMA_RDMA_DATA_CUBE_CHANNEL_CHANNEL_SHIFT: u32 = 0;

impl Register<DpuRdmaDataCubeChannel> {
    /// Input feature map channel count fed into DPU_RDMA.
    pub fn channel(&mut self, channel: Bits<13>) -> (ret: &mut Self)
        ensures
            ret@ == with_field(old(self)@, DPU_RDMA_RDMA_DATA_CUBE_CHANNEL_CHANNEL_MASK, encode_field(channel@, DPU_RDMA_RDMA_DATA_CUBE_CHANNEL_CHANNEL_SHIFT, DPU_RDMA_RDMA_DATA_CUBE_CHANNEL_CHANNEL_MASK)),
            *final(self) == *final(ret),
    {
        let encoded = encode(channel.val(), DPU_RDMA_RDMA_DATA_CUBE_CHANNEL_CHANNEL_SHIFT, DPU_RDMA_RDMA_DATA_CUBE_CHANNEL_CHANNEL_MASK);
        self.set_field(DPU_RDMA_RDMA_DATA_CUBE_CHANNEL_CHANNEL_MASK, encoded)
    }
}

/// `DPU_RDMA_RDMA_SRC_BASE_ADDR` offset.
pub const REG_DPU_RDMA_RDMA_SRC_BASE_ADDR: u32 = 0x5018;

/// The `DPU_RDMA_RDMA_SRC_BASE_ADDR` register.
#[derive(Debug, Clone, Copy)]
pub struct DpuRdmaSrcBaseAddr;

impl RegisterMeta for DpuRdmaSrcBaseAddr {
    const DOMAIN: u32 = DOMAIN_DPU_RDMA;
    const OFFSET: u32 = REG_DPU_RDMA_RDMA_SRC_BASE_ADDR;
}

/// `DPU_RDMA_RDMA_SRC_BASE_ADDR.src_base_addr`: mask 0xffffffff, shift 0.
pub const DPU_RDMA_RDMA_SRC_BASE_ADDR_SRC_BASE_ADDR_MASK: u32 = 0xffffffff;

pub const DPU_RDMA_RDMA_SRC_BASE_ADDR_SRC_BASE_ADDR_SHIFT: u32 = 0;

impl Register<DpuRdmaSrcBaseAddr> {
    /// Base address of DPU's main input data when running in flying mode (i.e. MRDMA's source address).
    pub fn src_base_addr(&mut self, src_base_addr: Bits<32>) -> (ret: &mut Self)
        ensures
            ret@ == with_field(old(self)@, DPU_RDMA_RDMA_SRC_BASE_ADDR_SRC_BASE_ADDR_MASK, encode_field(src_base_addr@, DPU_RDMA_RDMA_SRC_BASE_ADDR_SRC_BASE_ADDR_SHIFT, DPU_RDMA_RDMA_SRC_BASE_ADDR_SRC_BASE_ADDR_MASK)),
            *final(self) == *final(ret),
    {
        let encoded = encode(src_base_addr.val(), DPU_RDMA_RDMA_SRC_BASE_ADDR_SRC_BASE_ADDR_SHIFT, DPU_RDMA_RDMA_SRC_BASE_ADDR_SRC_BASE_ADDR_MASK);
        self.set_field(DPU_RDMA_RDMA_SRC_BASE_ADDR_SRC_BASE_ADDR_MASK, encoded)
    }
}

/// `DPU_RDMA_RDMA_BRDMA_CFG` offset.
pub const REG_DPU_RDMA_RDMA_BRDMA_CFG: u32 = 0x501c;

/// The `DPU_RDMA_RDMA_BRDMA_CFG` register.
#[derive(Debug, Clone, Copy)]
pub struct DpuRdmaBrdmaCfg;

impl RegisterMeta for DpuRdmaBrdmaCfg {
    const DOMAIN: u32 = DOMAIN_DPU_RDMA;
    const OFFSET: u32 = REG_DPU_RDMA_RDMA_BRDMA_CFG;
}

/// `DPU_RDMA_RDMA_BRDMA_CFG.brdma_data_use`: mask 0x0000001e, shift 1.
pub const DPU_RDMA_RDMA_BRDMA_CFG_BRDMA_DATA_USE_MASK: u32 = 0x0000001e;

pub const DPU_RDMA_RDMA_BRDMA_CFG_BRDMA_DATA_USE_SHIFT: u32 = 1;

impl Register<DpuRdmaBrdmaCfg> {
    /// Selects which BS-stage operand types BRDMA fetches from memory.
    pub fn brdma_data_use(&mut self, brdma_data_use: Bits<4>) -> (ret: &mut Self)
        ensures
            ret@ == with_field(old(self)@, DPU_RDMA_RDMA_BRDMA_CFG_BRDMA_DATA_USE_MASK, encode_field(brdma_data_use@, DPU_RDMA_RDMA_BRDMA_CFG_BRDMA_DATA_USE_SHIFT, DPU_RDMA_RDMA_BRDMA_CFG_BRDMA_DATA_USE_MASK)),
            *final(self) == *final(ret),
    {
        let encoded = encode(brdma_data_use.val(), DPU_RDMA_RDMA_BRDMA_CFG_BRDMA_DATA_USE_SHIFT, DPU_RDMA_RDMA_BRDMA_CFG_BRDMA_DATA_USE_MASK);
        self.set_field(DPU_RDMA_RDMA_BRDMA_CFG_BRDMA_DATA_USE_MASK, encoded)
    }
}

/// `DPU_RDMA_RDMA_BS_BASE_ADDR` offset.
pub const REG_DPU_RDMA_RDMA_BS_BASE_ADDR: u32 = 0x5020;

/// The `DPU_RDMA_RDMA_BS_BASE_ADDR` register.
#[derive(Debug, Clone, Copy)]
pub struct DpuRdmaBsBaseAddr;

impl RegisterMeta for DpuRdmaBsBaseAddr {
    const DOMAIN: u32 = DOMAIN_DPU_RDMA;
    const OFFSET: u32 = REG_DPU_RDMA_RDMA_BS_BASE_ADDR;
}

/// `DPU_RDMA_RDMA_BS_BASE_ADDR.bs_base_addr`: mask 0xffffffff, shift 0.
pub const DPU_RDMA_RDMA_BS_BASE_ADDR_BS_BASE_ADDR_MASK: u32 = 0xffffffff;

pub const DPU_RDMA_RDMA_BS_BASE_ADDR_BS_BASE_ADDR_SHIFT: u32 = 0;

impl Register<DpuRdmaBsBaseAddr> {
    /// Base address BRDMA reads from for BS ALU, BS CPEND, and BS MUL operands.
    pub fn bs_base_addr(&mut self, bs_base_addr: Bits<32>) -> (ret: &mut Self)
        ensures
            ret@ == with_field(old(self)@, DPU_RDMA_RDMA_BS_BASE_ADDR_BS_BASE_ADDR_MASK, encode_field(bs_base_addr@, DPU_RDMA_RDMA_BS_BASE_ADDR_BS_BASE_ADDR_SHIFT, DPU_RDMA_RDMA_BS_BASE_ADDR_BS_BASE_ADDR_MASK)),
            *final(self) == *final(ret),
    {
        let encoded = encode(bs_base_addr.val(), DPU_RDMA_RDMA_BS_BASE_ADDR_BS_BASE_ADDR_SHIFT, DPU_RDMA_RDMA_BS_BASE_ADDR_BS_BASE_ADDR_MASK);
        self.set_field(DPU_RDMA_RDMA_BS_BASE_ADDR_BS_BASE_ADDR_MASK, encoded)
    }
}

/// `DPU_RDMA_RDMA_NRDMA_CFG` offset.
pub const REG_DPU_RDMA_RDMA_NRDMA_CFG: u32 = 0x5028;

/// The `DPU_RDMA_RDMA_NRDMA_CFG` register.
#[derive(Debug, Clone, Copy)]
pub struct DpuRdmaNrdmaCfg;

impl RegisterMeta for DpuRdmaNrdmaCfg {
    const DOMAIN: u32 = DOMAIN_DPU_RDMA;
    const OFFSET: u32 = REG_DPU_RDMA_RDMA_NRDMA_CFG;
}

/// `DPU_RDMA_RDMA_NRDMA_CFG.nrdma_data_use`: mask 0x0000001e, shift 1.
pub const DPU_RDMA_RDMA_NRDMA_CFG_NRDMA_DATA_USE_MASK: u32 = 0x0000001e;

pub const DPU_RDMA_RDMA_NRDMA_CFG_NRDMA_DATA_USE_SHIFT: u32 = 1;

impl Register<DpuRdmaNrdmaCfg> {
    /// Selects which BN-stage operand types NRDMA fetches from memory.
    pub fn nrdma_data_use(&mut self, nrdma_data_use: Bits<4>) -> (ret: &mut Self)
        ensures
            ret@ == with_field(old(self)@, DPU_RDMA_RDMA_NRDMA_CFG_NRDMA_DATA_USE_MASK, encode_field(nrdma_data_use@, DPU_RDMA_RDMA_NRDMA_CFG_NRDMA_DATA_USE_SHIFT, DPU_RDMA_RDMA_NRDMA_CFG_NRDMA_DATA_USE_MASK)),
            *final(self) == *final(ret),
    {
        let encoded = encode(nrdma_data_use.val(), DPU_RDMA_RDMA_NRDMA_CFG_NRDMA_DATA_USE_SHIFT, DPU_RDMA_RDMA_NRDMA_CFG_NRDMA_DATA_USE_MASK);
        self.set_field(DPU_RDMA_RDMA_NRDMA_CFG_NRDMA_DATA_USE_MASK, encoded)
    }
}

/// `DPU_RDMA_RDMA_BN_BASE_ADDR` offset.
pub const REG_DPU_RDMA_RDMA_BN_BASE_ADDR: u32 = 0x502c;

/// The `DPU_RDMA_RDMA_BN_BASE_ADDR` register.
#[derive(Debug, Clone, Copy)]
pub struct DpuRdmaBnBaseAddr;

impl RegisterMeta for DpuRdmaBnBaseAddr {
    const DOMAIN: u32 = DOMAIN_DPU_RDMA;
    const OFFSET: u32 = REG_DPU_RDMA_RDMA_BN_BASE_ADDR;
}

/// `DPU_RDMA_RDMA_BN_BASE_ADDR.bn_base_addr`: mask 0xffffffff, shift 0.
pub const DPU_RDMA_RDMA_BN_BASE_ADDR_BN_BASE_ADDR_MASK: u32 = 0xffffffff;

pub const DPU_RDMA_RDMA_BN_BASE_ADDR_BN_BASE_ADDR_SHIFT: u32 = 0;

impl Register<DpuRdmaBnBaseAddr> {
    /// Base address NRDMA reads from for BN ALU and BN MUL operands.
    pub fn bn_base_addr(&mut self, bn_base_addr: Bits<32>) -> (ret: &mut Self)
        ensures
            ret@ == with_field(old(self)@, DPU_RDMA_RDMA_BN_BASE_ADDR_BN_BASE_ADDR_MASK, encode_field(bn_base_addr@, DPU_RDMA_RDMA_BN_BASE_ADDR_BN_BASE_ADDR_SHIFT, DPU_RDMA_RDMA_BN_BASE_ADDR_BN_BASE_ADDR_MASK)),
            *final(self) == *final(ret),
    {
        let encoded = encode(bn_base_addr.val(), DPU_RDMA_RDMA_BN_BASE_ADDR_BN_BASE_ADDR_SHIFT, DPU_RDMA_RDMA_BN_BASE_ADDR_BN_BASE_ADDR_MASK);
        self.set_field(DPU_RDMA_RDMA_BN_BASE_ADDR_BN_BASE_ADDR_MASK, encoded)
    }
}

/// `DPU_RDMA_RDMA_ERDMA_CFG` offset.
pub const REG_DPU_RDMA_RDMA_ERDMA_CFG: u32 = 0x5034;

/// The `DPU_RDMA_RDMA_ERDMA_CFG` register.
#[derive(Debug, Clone, Copy)]
pub struct DpuRdmaErdmaCfg;

impl RegisterMeta for DpuRdmaErdmaCfg {
    const DOMAIN: u32 = DOMAIN_DPU_RDMA;
    const OFFSET: u32 = REG_DPU_RDMA_RDMA_ERDMA_CFG;
}

/// `DPU_RDMA_RDMA_ERDMA_CFG.erdma_disable`: mask 0x00000001, shift 0.
pub const DPU_RDMA_RDMA_ERDMA_CFG_ERDMA_DISABLE_MASK: u32 = 0x00000001;

pub const DPU_RDMA_RDMA_ERDMA_CFG_ERDMA_DISABLE_SHIFT: u32 = 0;

/// `DPU_RDMA_RDMA_ERDMA_CFG.ov4k_bypass`: mask 0x00000002, shift 1.
pub const DPU_RDMA_RDMA_ERDMA_CFG_OV4K_BYPASS_MASK: u32 = 0x00000002;

pub const DPU_RDMA_RDMA_ERDMA_CFG_OV4K_BYPASS_SHIFT: u32 = 1;

/// `DPU_RDMA_RDMA_ERDMA_CFG.erdma_data_size`: mask 0x0000000c, shift 2.
pub const DPU_RDMA_RDMA_ERDMA_CFG_ERDMA_DATA_SIZE_MASK: u32 = 0x0000000c;

pub const DPU_RDMA_RDMA_ERDMA_CFG_ERDMA_DATA_SIZE_SHIFT: u32 = 2;

/// `DPU_RDMA_RDMA_ERDMA_CFG.erdma_nonalign`: mask 0x10000000, shift 28.
pub const DPU_RDMA_RDMA_ERDMA_CFG_ERDMA_NONALIGN_MASK: u32 = 0x10000000;

pub const DPU_RDMA_RDMA_ERDMA_CFG_ERDMA_NONALIGN_SHIFT: u32 = 28;

/// `DPU_RDMA_RDMA_ERDMA_CFG.erdma_surf_mode`: mask 0x20000000, shift 29.
pub const DPU_RDMA_RDMA_ERDMA_CFG_ERDMA_SURF_MODE_MASK: u32 = 0x20000000;

pub const DPU_RDMA_RDMA_ERDMA_CFG_ERDMA_SURF_MODE_SHIFT: u32 = 29;

/// `DPU_RDMA_RDMA_ERDMA_CFG.erdma_data_mode`: mask 0xc0000000, shift 30.
pub const DPU_RDMA_RDMA_ERDMA_CFG_ERDMA_DATA_MODE_MASK: u32 = 0xc0000000;

pub const DPU_RDMA_RDMA_ERDMA_CFG_ERDMA_DATA_MODE_SHIFT: u32 = 30;

impl Register<DpuRdmaErdmaCfg> {
    /// Disables the ERDMA sub-DMA entirely.
    pub fn erdma_disable(&mut self, erdma_disable: Bits<1>) -> (ret: &mut Self)
        ensures
            ret@ == with_field(old(self)@, DPU_RDMA_RDMA_ERDMA_CFG_ERDMA_DISABLE_MASK, encode_field(erdma_disable@, DPU_RDMA_RDMA_ERDMA_CFG_ERDMA_DISABLE_SHIFT, DPU_RDMA_RDMA_ERDMA_CFG_ERDMA_DISABLE_MASK)),
            *final(self) == *final(ret),
    {
        let encoded = encode(erdma_disable.val(), DPU_RDMA_RDMA_ERDMA_CFG_ERDMA_DISABLE_SHIFT, DPU_RDMA_RDMA_ERDMA_CFG_ERDMA_DISABLE_MASK);
        self.set_field(DPU_RDMA_RDMA_ERDMA_CFG_ERDMA_DISABLE_MASK, encoded)
    }

    /// Controls whether bursts larger than 4K are split into two independent burst commands.
    pub fn ov4k_bypass(&mut self, ov4k_bypass: Bits<1>) -> (ret: &mut Self)
        ensures
            ret@ == with_field(old(self)@, DPU_RDMA_RDMA_ERDMA_CFG_OV4K_BYPASS_MASK, encode_field(ov4k_bypass@, DPU_RDMA_RDMA_ERDMA_CFG_OV4K_BYPASS_SHIFT, DPU_RDMA_RDMA_ERDMA_CFG_OV4K_BYPASS_MASK)),
            *final(self) == *final(ret),
    {
        let encoded = encode(ov4k_bypass.val(), DPU_RDMA_RDMA_ERDMA_CFG_OV4K_BYPASS_SHIFT, DPU_RDMA_RDMA_ERDMA_CFG_OV4K_BYPASS_MASK);
        self.set_field(DPU_RDMA_RDMA_ERDMA_CFG_OV4K_BYPASS_MASK, encoded)
    }

    /// Precision of the cube data that ERDMA reads.
    pub fn erdma_data_size(&mut self, erdma_data_size: Bits<2>) -> (ret: &mut Self)
        ensures
            ret@ == with_field(old(self)@, DPU_RDMA_RDMA_ERDMA_CFG_ERDMA_DATA_SIZE_MASK, encode_field(erdma_data_size@, DPU_RDMA_RDMA_ERDMA_CFG_ERDMA_DATA_SIZE_SHIFT, DPU_RDMA_RDMA_ERDMA_CFG_ERDMA_DATA_SIZE_MASK)),
            *final(self) == *final(ret),
    {
        let encoded = encode(erdma_data_size.val(), DPU_RDMA_RDMA_ERDMA_CFG_ERDMA_DATA_SIZE_SHIFT, DPU_RDMA_RDMA_ERDMA_CFG_ERDMA_DATA_SIZE_MASK);
        self.set_field(DPU_RDMA_RDMA_ERDMA_CFG_ERDMA_DATA_SIZE_MASK, encoded)
    }

    /// Enables non-align read mode for the EW cube.
    pub fn erdma_nonalign(&mut self, erdma_nonalign: Bits<1>) -> (ret: &mut Self)
        ensures
            ret@ == with_field(old(self)@, DPU_RDMA_RDMA_ERDMA_CFG_ERDMA_NONALIGN_MASK, encode_field(erdma_nonalign@, DPU_RDMA_RDMA_ERDMA_CFG_ERDMA_NONALIGN_SHIFT, DPU_RDMA_RDMA_ERDMA_CFG_ERDMA_NONALIGN_MASK)),
            *final(self) == *final(ret),
    {
        let encoded = encode(erdma_nonalign.val(), DPU_RDMA_RDMA_ERDMA_CFG_ERDMA_NONALIGN_SHIFT, DPU_RDMA_RDMA_ERDMA_CFG_ERDMA_NONALIGN_MASK);
        self.set_field(DPU_RDMA_RDMA_ERDMA_CFG_ERDMA_NONALIGN_MASK, encoded)
    }

    /// Surface mode of the EW cube.
    pub fn erdma_surf_mode(&mut self, erdma_surf_mode: Bits<1>) -> (ret: &mut Self)
        ensures
            ret@ == with_field(old(self)@, DPU_RDMA_RDMA_ERDMA_CFG_ERDMA_SURF_MODE_MASK, encode_field(erdma_surf_mode@, DPU_RDMA_RDMA_ERDMA_CFG_ERDMA_SURF_MODE_SHIFT, DPU_RDMA_RDMA_ERDMA_CFG_ERDMA_SURF_MODE_MASK)),
            *final(self) == *final(ret),
    {
        let encoded = encode(erdma_surf_mode.val(), DPU_RDMA_RDMA_ERDMA_CFG_ERDMA_SURF_MODE_SHIFT, DPU_RDMA_RDMA_ERDMA_CFG_ERDMA_SURF_MODE_MASK);
        self.set_field(DPU_RDMA_RDMA_ERDMA_CFG_ERDMA_SURF_MODE_MASK, encoded)
    }

    /// Whether the data ERDMA reads is organized per channel, per pixel, or per channel-by-pixel.
    pub fn erdma_data_mode(&mut self, erdma_data_mode: Bits<2>) -> (ret: &mut Self)
        ensures
            ret@ == with_field(old(self)@, DPU_RDMA_RDMA_ERDMA_CFG_ERDMA_DATA_MODE_MASK, encode_field(erdma_data_mode@, DPU_RDMA_RDMA_ERDMA_CFG_ERDMA_DATA_MODE_SHIFT, DPU_RDMA_RDMA_ERDMA_CFG_ERDMA_DATA_MODE_MASK)),
            *final(self) == *final(ret),
    {
        let encoded = encode(erdma_data_mode.val(), DPU_RDMA_RDMA_ERDMA_CFG_ERDMA_DATA_MODE_SHIFT, DPU_RDMA_RDMA_ERDMA_CFG_ERDMA_DATA_MODE_MASK);
        self.set_field(DPU_RDMA_RDMA_ERDMA_CFG_ERDMA_DATA_MODE_MASK, encoded)
    }
}

/// `DPU_RDMA_RDMA_EW_BASE_ADDR` offset.
pub const REG_DPU_RDMA_RDMA_EW_BASE_ADDR: u32 = 0x5038;

/// The `DPU_RDMA_RDMA_EW_BASE_ADDR` register.
#[derive(Debug, Clone, Copy)]
pub struct DpuRdmaEwBaseAddr;

impl RegisterMeta for DpuRdmaEwBaseAddr {
    const DOMAIN: u32 = DOMAIN_DPU_RDMA;
    const OFFSET: u32 = REG_DPU_RDMA_RDMA_EW_BASE_ADDR;
}

/// `DPU_RDMA_RDMA_EW_BASE_ADDR.ew_base_addr`: mask 0xffffffff, shift 0.
pub const DPU_RDMA_RDMA_EW_BASE_ADDR_EW_BASE_ADDR_MASK: u32 = 0xffffffff;

pub const DPU_RDMA_RDMA_EW_BASE_ADDR_EW_BASE_ADDR_SHIFT: u32 = 0;

impl Register<DpuRdmaEwBaseAddr> {
    /// Base address ERDMA reads from for the EW operand.
    pub fn ew_base_addr(&mut self, ew_base_addr: Bits<32>) -> (ret: &mut Self)
        ensures
            ret@ == with_field(old(self)@, DPU_RDMA_RDMA_EW_BASE_ADDR_EW_BASE_ADDR_MASK, encode_field(ew_base_addr@, DPU_RDMA_RDMA_EW_BASE_ADDR_EW_BASE_ADDR_SHIFT, DPU_RDMA_RDMA_EW_BASE_ADDR_EW_BASE_ADDR_MASK)),
            *final(self) == *final(ret),
    {
        let encoded = encode(ew_base_addr.val(), DPU_RDMA_RDMA_EW_BASE_ADDR_EW_BASE_ADDR_SHIFT, DPU_RDMA_RDMA_EW_BASE_ADDR_EW_BASE_ADDR_MASK);
        self.set_field(DPU_RDMA_RDMA_EW_BASE_ADDR_EW_BASE_ADDR_MASK, encoded)
    }
}

/// `DPU_RDMA_RDMA_EW_SURF_STRIDE` offset.
pub const REG_DPU_RDMA_RDMA_EW_SURF_STRIDE: u32 = 0x5040;

/// The `DPU_RDMA_RDMA_EW_SURF_STRIDE` register.
#[derive(Debug, Clone, Copy)]
pub struct DpuRdmaEwSurfStride;

impl RegisterMeta for DpuRdmaEwSurfStride {
    const DOMAIN: u32 = DOMAIN_DPU_RDMA;
    const OFFSET: u32 = REG_DPU_RDMA_RDMA_EW_SURF_STRIDE;
}

/// `DPU_RDMA_RDMA_EW_SURF_STRIDE.ew_surf_stride`: mask 0xfffffff0, shift 4.
pub const DPU_RDMA_RDMA_EW_SURF_STRIDE_EW_SURF_STRIDE_MASK: u32 = 0xfffffff0;

pub const DPU_RDMA_RDMA_EW_SURF_STRIDE_EW_SURF_STRIDE_SHIFT: u32 = 4;

impl Register<DpuRdmaEwSurfStride> {
    /// Surface stride of the element-wise (EW) feature map read by ERDMA.
    pub fn ew_surf_stride(&mut self, ew_surf_stride: Bits<28>) -> (ret: &mut Self)
        ensures
            ret@ == with_field(old(self)@, DPU_RDMA_RDMA_EW_SURF_STRIDE_EW_SURF_STRIDE_MASK, encode_field(ew_surf_stride@, DPU_RDMA_RDMA_EW_SURF_STRIDE_EW_SURF_STRIDE_SHIFT, DPU_RDMA_RDMA_EW_SURF_STRIDE_EW_SURF_STRIDE_MASK)),
            *final(self) == *final(ret),
    {
        let encoded = encode(ew_surf_stride.val(), DPU_RDMA_RDMA_EW_SURF_STRIDE_EW_SURF_STRIDE_SHIFT, DPU_RDMA_RDMA_EW_SURF_STRIDE_EW_SURF_STRIDE_MASK);
        self.set_field(DPU_RDMA_RDMA_EW_SURF_STRIDE_EW_SURF_STRIDE_MASK, encoded)
    }
}

/// `DPU_RDMA_RDMA_FEATURE_MODE_CFG` offset.
pub const REG_DPU_RDMA_RDMA_FEATURE_MODE_CFG: u32 = 0x5044;

/// The `DPU_RDMA_RDMA_FEATURE_MODE_CFG` register.
#[derive(Debug, Clone, Copy)]
pub struct DpuRdmaFeatureModeCfg;

impl RegisterMeta for DpuRdmaFeatureModeCfg {
    const DOMAIN: u32 = DOMAIN_DPU_RDMA;
    const OFFSET: u32 = REG_DPU_RDMA_RDMA_FEATURE_MODE_CFG;
}

/// `DPU_RDMA_RDMA_FEATURE_MODE_CFG.flying_mode`: mask 0x00000001, shift 0.
pub const DPU_RDMA_RDMA_FEATURE_MODE_CFG_FLYING_MODE_MASK: u32 = 0x00000001;

pub const DPU_RDMA_RDMA_FEATURE_MODE_CFG_FLYING_MODE_SHIFT: u32 = 0;

/// `DPU_RDMA_RDMA_FEATURE_MODE_CFG.conv_mode`: mask 0x00000006, shift 1.
pub const DPU_RDMA_RDMA_FEATURE_MODE_CFG_CONV_MODE_MASK: u32 = 0x00000006;

pub const DPU_RDMA_RDMA_FEATURE_MODE_CFG_CONV_MODE_SHIFT: u32 = 1;

/// `DPU_RDMA_RDMA_FEATURE_MODE_CFG.mrdma_fp16tofp32_en`: mask 0x00000008, shift 3.
pub const DPU_RDMA_RDMA_FEATURE_MODE_CFG_MRDMA_FP16TOFP32_EN_MASK: u32 = 0x00000008;

pub const DPU_RDMA_RDMA_FEATURE_MODE_CFG_MRDMA_FP16TOFP32_EN_SHIFT: u32 = 3;

/// `DPU_RDMA_RDMA_FEATURE_MODE_CFG.mrdma_disable`: mask 0x00000010, shift 4.
pub const DPU_RDMA_RDMA_FEATURE_MODE_CFG_MRDMA_DISABLE_MASK: u32 = 0x00000010;

pub const DPU_RDMA_RDMA_FEATURE_MODE_CFG_MRDMA_DISABLE_SHIFT: u32 = 4;

/// `DPU_RDMA_RDMA_FEATURE_MODE_CFG.proc_precision`: mask 0x000000e0, shift 5.
pub const DPU_RDMA_RDMA_FEATURE_MODE_CFG_PROC_PRECISION_MASK: u32 = 0x000000e0;

pub const DPU_RDMA_RDMA_FEATURE_MODE_CFG_PROC_PRECISION_SHIFT: u32 = 5;

/// `DPU_RDMA_RDMA_FEATURE_MODE_CFG.comb_use`: mask 0x00000700, shift 8.
pub const DPU_RDMA_RDMA_FEATURE_MODE_CFG_COMB_USE_MASK: u32 = 0x00000700;

pub const DPU_RDMA_RDMA_FEATURE_MODE_CFG_COMB_USE_SHIFT: u32 = 8;

/// `DPU_RDMA_RDMA_FEATURE_MODE_CFG.burst_len`: mask 0x00007800, shift 11.
pub const DPU_RDMA_RDMA_FEATURE_MODE_CFG_BURST_LEN_MASK: u32 = 0x00007800;

pub const DPU_RDMA_RDMA_FEATURE_MODE_CFG_BURST_LEN_SHIFT: u32 = 11;

/// `DPU_RDMA_RDMA_FEATURE_MODE_CFG.in_precision`: mask 0x00038000, shift 15.
pub const DPU_RDMA_RDMA_FEATURE_MODE_CFG_IN_PRECISION_MASK: u32 = 0x00038000;

pub const DPU_RDMA_RDMA_FEATURE_MODE_CFG_IN_PRECISION_SHIFT: u32 = 15;

impl Register<DpuRdmaFeatureModeCfg> {
    /// Enables flying mode, where DPU's main input data comes from DPU_RDMA (MRDMA) instead of the convolution pipeline.
    pub fn flying_mode(&mut self, flying_mode: Bits<1>) -> (ret: &mut Self)
        ensures
            ret@ == with_field(old(self)@, DPU_RDMA_RDMA_FEATURE_MODE_CFG_FLYING_MODE_MASK, encode_field(flying_mode@, DPU_RDMA_RDMA_FEATURE_MODE_CFG_FLYING_MODE_SHIFT, DPU_RDMA_RDMA_FEATURE_MODE_CFG_FLYING_MODE_MASK)),
            *final(self) == *final(ret),
    {
        let encoded = encode(flying_mode.val(), DPU_RDMA_RDMA_FEATURE_MODE_CFG_FLYING_MODE_SHIFT, DPU_RDMA_RDMA_FEATURE_MODE_CFG_FLYING_MODE_MASK);
        self.set_field(DPU_RDMA_RDMA_FEATURE_MODE_CFG_FLYING_MODE_MASK, encoded)
    }

    /// Selects the convolution mode the fed data corresponds to.
    pub fn conv_mode(&mut self, conv_mode: Bits<2>) -> (ret: &mut Self)
        ensures
            ret@ == with_field(old(self)@, DPU_RDMA_RDMA_FEATURE_MODE_CFG_CONV_MODE_MASK, encode_field(conv_mode@, DPU_RDMA_RDMA_FEATURE_MODE_CFG_CONV_MODE_SHIFT, DPU_RDMA_RDMA_FEATURE_MODE_CFG_CONV_MODE_MASK)),
            *final(self) == *final(ret),
    {
        let encoded = encode(conv_mode.val(), DPU_RDMA_RDMA_FEATURE_MODE_CFG_CONV_MODE_SHIFT, DPU_RDMA_RDMA_FEATURE_MODE_CFG_CONV_MODE_MASK);
        self.set_field(DPU_RDMA_RDMA_FEATURE_MODE_CFG_CONV_MODE_MASK, encoded)
    }

    /// Enables conversion of DPU's input data from fp16 to fp32.
    pub fn mrdma_fp16tofp32_en(&mut self, mrdma_fp16tofp32_en: Bits<1>) -> (ret: &mut Self)
        ensures
            ret@ == with_field(old(self)@, DPU_RDMA_RDMA_FEATURE_MODE_CFG_MRDMA_FP16TOFP32_EN_MASK, encode_field(mrdma_fp16tofp32_en@, DPU_RDMA_RDMA_FEATURE_MODE_CFG_MRDMA_FP16TOFP32_EN_SHIFT, DPU_RDMA_RDMA_FEATURE_MODE_CFG_MRDMA_FP16TOFP32_EN_MASK)),
            *final(self) == *final(ret),
    {
        let encoded = encode(mrdma_fp16tofp32_en.val(), DPU_RDMA_RDMA_FEATURE_MODE_CFG_MRDMA_FP16TOFP32_EN_SHIFT, DPU_RDMA_RDMA_FEATURE_MODE_CFG_MRDMA_FP16TOFP32_EN_MASK);
        self.set_field(DPU_RDMA_RDMA_FEATURE_MODE_CFG_MRDMA_FP16TOFP32_EN_MASK, encoded)
    }

    /// Disables the MRDMA sub-DMA entirely.
    pub fn mrdma_disable(&mut self, mrdma_disable: Bits<1>) -> (ret: &mut Self)
        ensures
            ret@ == with_field(old(self)@, DPU_RDMA_RDMA_FEATURE_MODE_CFG_MRDMA_DISABLE_MASK, encode_field(mrdma_disable@, DPU_RDMA_RDMA_FEATURE_MODE_CFG_MRDMA_DISABLE_SHIFT, DPU_RDMA_RDMA_FEATURE_MODE_CFG_MRDMA_DISABLE_MASK)),
            *final(self) == *final(ret),
    {
        let encoded = encode(mrdma_disable.val(), DPU_RDMA_RDMA_FEATURE_MODE_CFG_MRDMA_DISABLE_SHIFT, DPU_RDMA_RDMA_FEATURE_MODE_CFG_MRDMA_DISABLE_MASK);
        self.set_field(DPU_RDMA_RDMA_FEATURE_MODE_CFG_MRDMA_DISABLE_MASK, encoded)
    }

    /// Process precision used for the fed data.
    pub fn proc_precision(&mut self, proc_precision: Bits<3>) -> (ret: &mut Self)
        ensures
            ret@ == with_field(old(self)@, DPU_RDMA_RDMA_FEATURE_MODE_CFG_PROC_PRECISION_MASK, encode_field(proc_precision@, DPU_RDMA_RDMA_FEATURE_MODE_CFG_PROC_PRECISION_SHIFT, DPU_RDMA_RDMA_FEATURE_MODE_CFG_PROC_PRECISION_MASK)),
            *final(self) == *final(ret),
    {
        let encoded = encode(proc_precision.val(), DPU_RDMA_RDMA_FEATURE_MODE_CFG_PROC_PRECISION_SHIFT, DPU_RDMA_RDMA_FEATURE_MODE_CFG_PROC_PRECISION_MASK);
        self.set_field(DPU_RDMA_RDMA_FEATURE_MODE_CFG_PROC_PRECISION_MASK, encoded)
    }

    /// Controls whether MRDMA and ERDMA share a single read and which of them the fetched data is routed to.
    pub fn comb_use(&mut self, comb_use: Bits<3>) -> (ret: &mut Self)
        ensures
            ret@ == with_field(old(self)@, DPU_RDMA_RDMA_FEATURE_MODE_CFG_COMB_USE_MASK, encode_field(comb_use@, DPU_RDMA_RDMA_FEATURE_MODE_CFG_COMB_USE_SHIFT, DPU_RDMA_RDMA_FEATURE_MODE_CFG_COMB_USE_MASK)),
            *final(self) == *final(ret),
    {
        let encoded = encode(comb_use.val(), DPU_RDMA_RDMA_FEATURE_MODE_CFG_COMB_USE_SHIFT, DPU_RDMA_RDMA_FEATURE_MODE_CFG_COMB_USE_MASK);
        self.set_field(DPU_RDMA_RDMA_FEATURE_MODE_CFG_COMB_USE_MASK, encoded)
    }

    /// AXI burst length used by DPU_RDMA's reads.
    pub fn burst_len(&mut self, burst_len: Bits<4>) -> (ret: &mut Self)
        ensures
            ret@ == with_field(old(self)@, DPU_RDMA_RDMA_FEATURE_MODE_CFG_BURST_LEN_MASK, encode_field(burst_len@, DPU_RDMA_RDMA_FEATURE_MODE_CFG_BURST_LEN_SHIFT, DPU_RDMA_RDMA_FEATURE_MODE_CFG_BURST_LEN_MASK)),
            *final(self) == *final(ret),
    {
        let encoded = encode(burst_len.val(), DPU_RDMA_RDMA_FEATURE_MODE_CFG_BURST_LEN_SHIFT, DPU_RDMA_RDMA_FEATURE_MODE_CFG_BURST_LEN_MASK);
        self.set_field(DPU_RDMA_RDMA_FEATURE_MODE_CFG_BURST_LEN_MASK, encoded)
    }

    /// Input data precision fed into DPU_RDMA.
    pub fn in_precision(&mut self, in_precision: Bits<3>) -> (ret: &mut Self)
        ensures
            ret@ == with_field(old(self)@, DPU_RDMA_RDMA_FEATURE_MODE_CFG_IN_PRECISION_MASK, encode_field(in_precision@, DPU_RDMA_RDMA_FEATURE_MODE_CFG_IN_PRECISION_SHIFT, DPU_RDMA_RDMA_FEATURE_MODE_CFG_IN_PRECISION_MASK)),
            *final(self) == *final(ret),
    {
        let encoded = encode(in_precision.val(), DPU_RDMA_RDMA_FEATURE_MODE_CFG_IN_PRECISION_SHIFT, DPU_RDMA_RDMA_FEATURE_MODE_CFG_IN_PRECISION_MASK);
        self.set_field(DPU_RDMA_RDMA_FEATURE_MODE_CFG_IN_PRECISION_MASK, encoded)
    }
}

/// `DPU_RDMA_RDMA_SRC_DMA_CFG` offset.
pub const REG_DPU_RDMA_RDMA_SRC_DMA_CFG: u32 = 0x5048;

/// The `DPU_RDMA_RDMA_SRC_DMA_CFG` register.
#[derive(Debug, Clone, Copy)]
pub struct DpuRdmaSrcDmaCfg;

impl RegisterMeta for DpuRdmaSrcDmaCfg {
    const DOMAIN: u32 = DOMAIN_DPU_RDMA;
    const OFFSET: u32 = REG_DPU_RDMA_RDMA_SRC_DMA_CFG;
}

/// `DPU_RDMA_RDMA_SRC_DMA_CFG.kernel_width`: mask 0x00000007, shift 0.
pub const DPU_RDMA_RDMA_SRC_DMA_CFG_KERNEL_WIDTH_MASK: u32 = 0x00000007;

pub const DPU_RDMA_RDMA_SRC_DMA_CFG_KERNEL_WIDTH_SHIFT: u32 = 0;

/// `DPU_RDMA_RDMA_SRC_DMA_CFG.kernel_height`: mask 0x00000038, shift 3.
pub const DPU_RDMA_RDMA_SRC_DMA_CFG_KERNEL_HEIGHT_MASK: u32 = 0x00000038;

pub const DPU_RDMA_RDMA_SRC_DMA_CFG_KERNEL_HEIGHT_SHIFT: u32 = 3;

/// `DPU_RDMA_RDMA_SRC_DMA_CFG.kernel_stride_width`: mask 0x000001c0, shift 6.
pub const DPU_RDMA_RDMA_SRC_DMA_CFG_KERNEL_STRIDE_WIDTH_MASK: u32 = 0x000001c0;

pub const DPU_RDMA_RDMA_SRC_DMA_CFG_KERNEL_STRIDE_WIDTH_SHIFT: u32 = 6;

/// `DPU_RDMA_RDMA_SRC_DMA_CFG.kernel_stride_height`: mask 0x00000e00, shift 9.
pub const DPU_RDMA_RDMA_SRC_DMA_CFG_KERNEL_STRIDE_HEIGHT_MASK: u32 = 0x00000e00;

pub const DPU_RDMA_RDMA_SRC_DMA_CFG_KERNEL_STRIDE_HEIGHT_SHIFT: u32 = 9;

/// `DPU_RDMA_RDMA_SRC_DMA_CFG.unpooling_en`: mask 0x00001000, shift 12.
pub const DPU_RDMA_RDMA_SRC_DMA_CFG_UNPOOLING_EN_MASK: u32 = 0x00001000;

pub const DPU_RDMA_RDMA_SRC_DMA_CFG_UNPOOLING_EN_SHIFT: u32 = 12;

/// `DPU_RDMA_RDMA_SRC_DMA_CFG.pooling_method`: mask 0x00002000, shift 13.
pub const DPU_RDMA_RDMA_SRC_DMA_CFG_POOLING_METHOD_MASK: u32 = 0x00002000;

pub const DPU_RDMA_RDMA_SRC_DMA_CFG_POOLING_METHOD_SHIFT: u32 = 13;

/// `DPU_RDMA_RDMA_SRC_DMA_CFG.line_notch_addr`: mask 0xfff80000, shift 19.
pub const DPU_RDMA_RDMA_SRC_DMA_CFG_LINE_NOTCH_ADDR_MASK: u32 = 0xfff80000;

pub const DPU_RDMA_RDMA_SRC_DMA_CFG_LINE_NOTCH_ADDR_SHIFT: u32 = 19;

impl Register<DpuRdmaSrcDmaCfg> {
    /// Un-pooling kernel width used by the un-pooling/upsample data path.
    pub fn kernel_width(&mut self, kernel_width: Bits<3>) -> (ret: &mut Self)
        ensures
            ret@ == with_field(old(self)@, DPU_RDMA_RDMA_SRC_DMA_CFG_KERNEL_WIDTH_MASK, encode_field(kernel_width@, DPU_RDMA_RDMA_SRC_DMA_CFG_KERNEL_WIDTH_SHIFT, DPU_RDMA_RDMA_SRC_DMA_CFG_KERNEL_WIDTH_MASK)),
            *final(self) == *final(ret),
    {
        let encoded = encode(kernel_width.val(), DPU_RDMA_RDMA_SRC_DMA_CFG_KERNEL_WIDTH_SHIFT, DPU_RDMA_RDMA_SRC_DMA_CFG_KERNEL_WIDTH_MASK);
        self.set_field(DPU_RDMA_RDMA_SRC_DMA_CFG_KERNEL_WIDTH_MASK, encoded)
    }

    /// Un-pooling kernel height used by the un-pooling/upsample data path.
    pub fn kernel_height(&mut self, kernel_height: Bits<3>) -> (ret: &mut Self)
        ensures
            ret@ == with_field(old(self)@, DPU_RDMA_RDMA_SRC_DMA_CFG_KERNEL_HEIGHT_MASK, encode_field(kernel_height@, DPU_RDMA_RDMA_SRC_DMA_CFG_KERNEL_HEIGHT_SHIFT, DPU_RDMA_RDMA_SRC_DMA_CFG_KERNEL_HEIGHT_MASK)),
            *final(self) == *final(ret),
    {
        let encoded = encode(kernel_height.val(), DPU_RDMA_RDMA_SRC_DMA_CFG_KERNEL_HEIGHT_SHIFT, DPU_RDMA_RDMA_SRC_DMA_CFG_KERNEL_HEIGHT_MASK);
        self.set_field(DPU_RDMA_RDMA_SRC_DMA_CFG_KERNEL_HEIGHT_MASK, encoded)
    }

    /// Un-pooling kernel stride width used by the un-pooling/upsample data path.
    pub fn kernel_stride_width(&mut self, kernel_stride_width: Bits<3>) -> (ret: &mut Self)
        ensures
            ret@ == with_field(old(self)@, DPU_RDMA_RDMA_SRC_DMA_CFG_KERNEL_STRIDE_WIDTH_MASK, encode_field(kernel_stride_width@, DPU_RDMA_RDMA_SRC_DMA_CFG_KERNEL_STRIDE_WIDTH_SHIFT, DPU_RDMA_RDMA_SRC_DMA_CFG_KERNEL_STRIDE_WIDTH_MASK)),
            *final(self) == *final(ret),
    {
        let encoded = encode(kernel_stride_width.val(), DPU_RDMA_RDMA_SRC_DMA_CFG_KERNEL_STRIDE_WIDTH_SHIFT, DPU_RDMA_RDMA_SRC_DMA_CFG_KERNEL_STRIDE_WIDTH_MASK);
        self.set_field(DPU_RDMA_RDMA_SRC_DMA_CFG_KERNEL_STRIDE_WIDTH_MASK, encoded)
    }

    /// Un-pooling kernel stride height used by the un-pooling/upsample data path.
    pub fn kernel_stride_height(&mut self, kernel_stride_height: Bits<3>) -> (ret: &mut Self)
        ensures
            ret@ == with_field(old(self)@, DPU_RDMA_RDMA_SRC_DMA_CFG_KERNEL_STRIDE_HEIGHT_MASK, encode_field(kernel_stride_height@, DPU_RDMA_RDMA_SRC_DMA_CFG_KERNEL_STRIDE_HEIGHT_SHIFT, DPU_RDMA_RDMA_SRC_DMA_CFG_KERNEL_STRIDE_HEIGHT_MASK)),
            *final(self) == *final(ret),
    {
        let encoded = encode(kernel_stride_height.val(), DPU_RDMA_RDMA_SRC_DMA_CFG_KERNEL_STRIDE_HEIGHT_SHIFT, DPU_RDMA_RDMA_SRC_DMA_CFG_KERNEL_STRIDE_HEIGHT_MASK);
        self.set_field(DPU_RDMA_RDMA_SRC_DMA_CFG_KERNEL_STRIDE_HEIGHT_MASK, encoded)
    }

    /// Enables the un-pooling (upsample) data path for this DPU_RDMA transfer.
    pub fn unpooling_en(&mut self, unpooling_en: Bits<1>) -> (ret: &mut Self)
        ensures
            ret@ == with_field(old(self)@, DPU_RDMA_RDMA_SRC_DMA_CFG_UNPOOLING_EN_MASK, encode_field(unpooling_en@, DPU_RDMA_RDMA_SRC_DMA_CFG_UNPOOLING_EN_SHIFT, DPU_RDMA_RDMA_SRC_DMA_CFG_UNPOOLING_EN_MASK)),
            *final(self) == *final(ret),
    {
        let encoded = encode(unpooling_en.val(), DPU_RDMA_RDMA_SRC_DMA_CFG_UNPOOLING_EN_SHIFT, DPU_RDMA_RDMA_SRC_DMA_CFG_UNPOOLING_EN_MASK);
        self.set_field(DPU_RDMA_RDMA_SRC_DMA_CFG_UNPOOLING_EN_MASK, encoded)
    }

    /// Selects the pooling method the un-pooling path should invert/mirror.
    pub fn pooling_method(&mut self, pooling_method: Bits<1>) -> (ret: &mut Self)
        ensures
            ret@ == with_field(old(self)@, DPU_RDMA_RDMA_SRC_DMA_CFG_POOLING_METHOD_MASK, encode_field(pooling_method@, DPU_RDMA_RDMA_SRC_DMA_CFG_POOLING_METHOD_SHIFT, DPU_RDMA_RDMA_SRC_DMA_CFG_POOLING_METHOD_MASK)),
            *final(self) == *final(ret),
    {
        let encoded = encode(pooling_method.val(), DPU_RDMA_RDMA_SRC_DMA_CFG_POOLING_METHOD_SHIFT, DPU_RDMA_RDMA_SRC_DMA_CFG_POOLING_METHOD_MASK);
        self.set_field(DPU_RDMA_RDMA_SRC_DMA_CFG_POOLING_METHOD_MASK, encoded)
    }

    /// Number of pixels from the end of the transfer's width to the end of the underlying shape's feature line.
    pub fn line_notch_addr(&mut self, line_notch_addr: Bits<13>) -> (ret: &mut Self)
        ensures
            ret@ == with_field(old(self)@, DPU_RDMA_RDMA_SRC_DMA_CFG_LINE_NOTCH_ADDR_MASK, encode_field(line_notch_addr@, DPU_RDMA_RDMA_SRC_DMA_CFG_LINE_NOTCH_ADDR_SHIFT, DPU_RDMA_RDMA_SRC_DMA_CFG_LINE_NOTCH_ADDR_MASK)),
            *final(self) == *final(ret),
    {
        let encoded = encode(line_notch_addr.val(), DPU_RDMA_RDMA_SRC_DMA_CFG_LINE_NOTCH_ADDR_SHIFT, DPU_RDMA_RDMA_SRC_DMA_CFG_LINE_NOTCH_ADDR_MASK);
        self.set_field(DPU_RDMA_RDMA_SRC_DMA_CFG_LINE_NOTCH_ADDR_MASK, encoded)
    }
}

/// `DPU_RDMA_RDMA_SURF_NOTCH` offset.
pub const REG_DPU_RDMA_RDMA_SURF_NOTCH: u32 = 0x504c;

/// The `DPU_RDMA_RDMA_SURF_NOTCH` register.
#[derive(Debug, Clone, Copy)]
pub struct DpuRdmaSurfNotch;

impl RegisterMeta for DpuRdmaSurfNotch {
    const DOMAIN: u32 = DOMAIN_DPU_RDMA;
    const OFFSET: u32 = REG_DPU_RDMA_RDMA_SURF_NOTCH;
}

/// `DPU_RDMA_RDMA_SURF_NOTCH.surf_notch_addr`: mask 0xfffffff0, shift 4.
pub const DPU_RDMA_RDMA_SURF_NOTCH_SURF_NOTCH_ADDR_MASK: u32 = 0xfffffff0;

pub const DPU_RDMA_RDMA_SURF_NOTCH_SURF_NOTCH_ADDR_SHIFT: u32 = 4;

impl Register<DpuRdmaSurfNotch> {
    /// Number of pixels from the end of this process's feature map to the end of the underlying shape's feature map.
    pub fn surf_notch_addr(&mut self, surf_notch_addr: Bits<28>) -> (ret: &mut Self)
        ensures
            ret@ == with_field(old(self)@, DPU_RDMA_RDMA_SURF_NOTCH_SURF_NOTCH_ADDR_MASK, encode_field(surf_notch_addr@, DPU_RDMA_RDMA_SURF_NOTCH_SURF_NOTCH_ADDR_SHIFT, DPU_RDMA_RDMA_SURF_NOTCH_SURF_NOTCH_ADDR_MASK)),
            *final(self) == *final(ret),
    {
        let encoded = encode(surf_notch_addr.val(), DPU_RDMA_RDMA_SURF_NOTCH_SURF_NOTCH_ADDR_SHIFT, DPU_RDMA_RDMA_SURF_NOTCH_SURF_NOTCH_ADDR_MASK);
        self.set_field(DPU_RDMA_RDMA_SURF_NOTCH_SURF_NOTCH_ADDR_MASK, encoded)
    }
}

/// `DPU_RDMA_RDMA_PAD_CFG` offset.
pub const REG_DPU_RDMA_RDMA_PAD_CFG: u32 = 0x5064;

/// The `DPU_RDMA_RDMA_PAD_CFG` register.
#[derive(Debug, Clone, Copy)]
pub struct DpuRdmaPadCfg;

impl RegisterMeta for DpuRdmaPadCfg {
    const DOMAIN: u32 = DOMAIN_DPU_RDMA;
    const OFFSET: u32 = REG_DPU_RDMA_RDMA_PAD_CFG;
}

/// `DPU_RDMA_RDMA_PAD_CFG.pad_left`: mask 0x00000007, shift 0.
pub const DPU_RDMA_RDMA_PAD_CFG_PAD_LEFT_MASK: u32 = 0x00000007;

pub const DPU_RDMA_RDMA_PAD_CFG_PAD_LEFT_SHIFT: u32 = 0;

/// `DPU_RDMA_RDMA_PAD_CFG.pad_top`: mask 0x00000070, shift 4.
pub const DPU_RDMA_RDMA_PAD_CFG_PAD_TOP_MASK: u32 = 0x00000070;

pub const DPU_RDMA_RDMA_PAD_CFG_PAD_TOP_SHIFT: u32 = 4;

/// `DPU_RDMA_RDMA_PAD_CFG.pad_value`: mask 0xffff0000, shift 16.
pub const DPU_RDMA_RDMA_PAD_CFG_PAD_VALUE_MASK: u32 = 0xffff0000;

pub const DPU_RDMA_RDMA_PAD_CFG_PAD_VALUE_SHIFT: u32 = 16;

impl Register<DpuRdmaPadCfg> {
    /// Un-pooling left pad amount.
    pub fn pad_left(&mut self, pad_left: Bits<3>) -> (ret: &mut Self)
        ensures
            ret@ == with_field(old(self)@, DPU_RDMA_RDMA_PAD_CFG_PAD_LEFT_MASK, encode_field(pad_left@, DPU_RDMA_RDMA_PAD_CFG_PAD_LEFT_SHIFT, DPU_RDMA_RDMA_PAD_CFG_PAD_LEFT_MASK)),
            *final(self) == *final(ret),
    {
        let encoded = encode(pad_left.val(), DPU_RDMA_RDMA_PAD_CFG_PAD_LEFT_SHIFT, DPU_RDMA_RDMA_PAD_CFG_PAD_LEFT_MASK);
        self.set_field(DPU_RDMA_RDMA_PAD_CFG_PAD_LEFT_MASK, encoded)
    }

    /// Un-pooling top pad amount.
    pub fn pad_top(&mut self, pad_top: Bits<3>) -> (ret: &mut Self)
        ensures
            ret@ == with_field(old(self)@, DPU_RDMA_RDMA_PAD_CFG_PAD_TOP_MASK, encode_field(pad_top@, DPU_RDMA_RDMA_PAD_CFG_PAD_TOP_SHIFT, DPU_RDMA_RDMA_PAD_CFG_PAD_TOP_MASK)),
            *final(self) == *final(ret),
    {
        let encoded = encode(pad_top.val(), DPU_RDMA_RDMA_PAD_CFG_PAD_TOP_SHIFT, DPU_RDMA_RDMA_PAD_CFG_PAD_TOP_MASK);
        self.set_field(DPU_RDMA_RDMA_PAD_CFG_PAD_TOP_MASK, encoded)
    }

    /// Value used to fill padded pixels in the un-pooling data path.
    pub fn pad_value(&mut self, pad_value: Bits<16>) -> (ret: &mut Self)
        ensures
            ret@ == with_field(old(self)@, DPU_RDMA_RDMA_PAD_CFG_PAD_VALUE_MASK, encode_field(pad_value@, DPU_RDMA_RDMA_PAD_CFG_PAD_VALUE_SHIFT, DPU_RDMA_RDMA_PAD_CFG_PAD_VALUE_MASK)),
            *final(self) == *final(ret),
    {
        let encoded = encode(pad_value.val(), DPU_RDMA_RDMA_PAD_CFG_PAD_VALUE_SHIFT, DPU_RDMA_RDMA_PAD_CFG_PAD_VALUE_MASK);
        self.set_field(DPU_RDMA_RDMA_PAD_CFG_PAD_VALUE_MASK, encoded)
    }
}

/// `DPU_RDMA_RDMA_WEIGHT` offset.
pub const REG_DPU_RDMA_RDMA_WEIGHT: u32 = 0x5068;

/// The `DPU_RDMA_RDMA_WEIGHT` register.
#[derive(Debug, Clone, Copy)]
pub struct DpuRdmaWeight;

impl RegisterMeta for DpuRdmaWeight {
    const DOMAIN: u32 = DOMAIN_DPU_RDMA;
    const OFFSET: u32 = REG_DPU_RDMA_RDMA_WEIGHT;
}

/// `DPU_RDMA_RDMA_WEIGHT.m_weight`: mask 0x000000ff, shift 0.
pub const DPU_RDMA_RDMA_WEIGHT_M_WEIGHT_MASK: u32 = 0x000000ff;

pub const DPU_RDMA_RDMA_WEIGHT_M_WEIGHT_SHIFT: u32 = 0;

/// `DPU_RDMA_RDMA_WEIGHT.b_weight`: mask 0x0000ff00, shift 8.
pub const DPU_RDMA_RDMA_WEIGHT_B_WEIGHT_MASK: u32 = 0x0000ff00;

pub const DPU_RDMA_RDMA_WEIGHT_B_WEIGHT_SHIFT: u32 = 8;

/// `DPU_RDMA_RDMA_WEIGHT.n_weight`: mask 0x00ff0000, shift 16.
pub const DPU_RDMA_RDMA_WEIGHT_N_WEIGHT_MASK: u32 = 0x00ff0000;

pub const DPU_RDMA_RDMA_WEIGHT_N_WEIGHT_SHIFT: u32 = 16;

/// `DPU_RDMA_RDMA_WEIGHT.e_weight`: mask 0xff000000, shift 24.
pub const DPU_RDMA_RDMA_WEIGHT_E_WEIGHT_MASK: u32 = 0xff000000;

pub const DPU_RDMA_RDMA_WEIGHT_E_WEIGHT_SHIFT: u32 = 24;

impl Register<DpuRdmaWeight> {
    /// AXI arbiter weight for MRDMA.
    pub fn m_weight(&mut self, m_weight: Bits<8>) -> (ret: &mut Self)
        ensures
            ret@ == with_field(old(self)@, DPU_RDMA_RDMA_WEIGHT_M_WEIGHT_MASK, encode_field(m_weight@, DPU_RDMA_RDMA_WEIGHT_M_WEIGHT_SHIFT, DPU_RDMA_RDMA_WEIGHT_M_WEIGHT_MASK)),
            *final(self) == *final(ret),
    {
        let encoded = encode(m_weight.val(), DPU_RDMA_RDMA_WEIGHT_M_WEIGHT_SHIFT, DPU_RDMA_RDMA_WEIGHT_M_WEIGHT_MASK);
        self.set_field(DPU_RDMA_RDMA_WEIGHT_M_WEIGHT_MASK, encoded)
    }

    /// AXI arbiter weight for BRDMA.
    pub fn b_weight(&mut self, b_weight: Bits<8>) -> (ret: &mut Self)
        ensures
            ret@ == with_field(old(self)@, DPU_RDMA_RDMA_WEIGHT_B_WEIGHT_MASK, encode_field(b_weight@, DPU_RDMA_RDMA_WEIGHT_B_WEIGHT_SHIFT, DPU_RDMA_RDMA_WEIGHT_B_WEIGHT_MASK)),
            *final(self) == *final(ret),
    {
        let encoded = encode(b_weight.val(), DPU_RDMA_RDMA_WEIGHT_B_WEIGHT_SHIFT, DPU_RDMA_RDMA_WEIGHT_B_WEIGHT_MASK);
        self.set_field(DPU_RDMA_RDMA_WEIGHT_B_WEIGHT_MASK, encoded)
    }

    /// AXI arbiter weight for NRDMA.
    pub fn n_weight(&mut self, n_weight: Bits<8>) -> (ret: &mut Self)
        ensures
            ret@ == with_field(old(self)@, DPU_RDMA_RDMA_WEIGHT_N_WEIGHT_MASK, encode_field(n_weight@, DPU_RDMA_RDMA_WEIGHT_N_WEIGHT_SHIFT, DPU_RDMA_RDMA_WEIGHT_N_WEIGHT_MASK)),
            *final(self) == *final(ret),
    {
        let encoded = encode(n_weight.val(), DPU_RDMA_RDMA_WEIGHT_N_WEIGHT_SHIFT, DPU_RDMA_RDMA_WEIGHT_N_WEIGHT_MASK);
        self.set_field(DPU_RDMA_RDMA_WEIGHT_N_WEIGHT_MASK, encoded)
    }

    /// AXI arbiter weight for ERDMA.
    pub fn e_weight(&mut self, e_weight: Bits<8>) -> (ret: &mut Self)
        ensures
            ret@ == with_field(old(self)@, DPU_RDMA_RDMA_WEIGHT_E_WEIGHT_MASK, encode_field(e_weight@, DPU_RDMA_RDMA_WEIGHT_E_WEIGHT_SHIFT, DPU_RDMA_RDMA_WEIGHT_E_WEIGHT_MASK)),
            *final(self) == *final(ret),
    {
        let encoded = encode(e_weight.val(), DPU_RDMA_RDMA_WEIGHT_E_WEIGHT_SHIFT, DPU_RDMA_RDMA_WEIGHT_E_WEIGHT_MASK);
        self.set_field(DPU_RDMA_RDMA_WEIGHT_E_WEIGHT_MASK, encoded)
    }
}

/// `DPU_RDMA_RDMA_EW_SURF_NOTCH` offset.
pub const REG_DPU_RDMA_RDMA_EW_SURF_NOTCH: u32 = 0x506c;

/// The `DPU_RDMA_RDMA_EW_SURF_NOTCH` register.
#[derive(Debug, Clone, Copy)]
pub struct DpuRdmaEwSurfNotch;

impl RegisterMeta for DpuRdmaEwSurfNotch {
    const DOMAIN: u32 = DOMAIN_DPU_RDMA;
    const OFFSET: u32 = REG_DPU_RDMA_RDMA_EW_SURF_NOTCH;
}

/// `DPU_RDMA_RDMA_EW_SURF_NOTCH.ew_surf_notch`: mask 0xfffffff0, shift 4.
pub const DPU_RDMA_RDMA_EW_SURF_NOTCH_EW_SURF_NOTCH_MASK: u32 = 0xfffffff0;

pub const DPU_RDMA_RDMA_EW_SURF_NOTCH_EW_SURF_NOTCH_SHIFT: u32 = 4;

impl Register<DpuRdmaEwSurfNotch> {
    /// Surface notch of the EW (element-wise) cube — end-of-surface bookkeeping analogous to `surf_notch_addr` but specific to the EW/ERDMA path.
    pub fn ew_surf_notch(&mut self, ew_surf_notch: Bits<28>) -> (ret: &mut Self)
        ensures
            ret@ == with_field(old(self)@, DPU_RDMA_RDMA_EW_SURF_NOTCH_EW_SURF_NOTCH_MASK, encode_field(ew_surf_notch@, DPU_RDMA_RDMA_EW_SURF_NOTCH_EW_SURF_NOTCH_SHIFT, DPU_RDMA_RDMA_EW_SURF_NOTCH_EW_SURF_NOTCH_MASK)),
            *final(self) == *final(ret),
    {
        let encoded = encode(ew_surf_notch.val(), DPU_RDMA_RDMA_EW_SURF_NOTCH_EW_SURF_NOTCH_SHIFT, DPU_RDMA_RDMA_EW_SURF_NOTCH_EW_SURF_NOTCH_MASK);
        self.set_field(DPU_RDMA_RDMA_EW_SURF_NOTCH_EW_SURF_NOTCH_MASK, encoded)
    }
}

/// The domain and offset each register of this block names.
pub proof fn lemma_register_identities()
    ensures
        DpuRdmaSStatus::DOMAIN == DOMAIN_DPU_RDMA,
        DpuRdmaSStatus::OFFSET == REG_DPU_RDMA_RDMA_S_STATUS,
        DpuRdmaSPointer::DOMAIN == DOMAIN_DPU_RDMA,
        DpuRdmaSPointer::OFFSET == REG_DPU_RDMA_RDMA_S_POINTER,
        DpuRdmaOperationEnable::DOMAIN == DOMAIN_DPU_RDMA,
        DpuRdmaOperationEnable::OFFSET == REG_DPU_RDMA_RDMA_OPERATION_ENABLE,
        DpuRdmaDataCubeWidth::DOMAIN == DOMAIN_DPU_RDMA,
        DpuRdmaDataCubeWidth::OFFSET == REG_DPU_RDMA_RDMA_DATA_CUBE_WIDTH,
        DpuRdmaDataCubeHeight::DOMAIN == DOMAIN_DPU_RDMA,
        DpuRdmaDataCubeHeight::OFFSET == REG_DPU_RDMA_RDMA_DATA_CUBE_HEIGHT,
        DpuRdmaDataCubeChannel::DOMAIN == DOMAIN_DPU_RDMA,
        DpuRdmaDataCubeChannel::OFFSET == REG_DPU_RDMA_RDMA_DATA_CUBE_CHANNEL,
        DpuRdmaSrcBaseAddr::DOMAIN == DOMAIN_DPU_RDMA,
        DpuRdmaSrcBaseAddr::OFFSET == REG_DPU_RDMA_RDMA_SRC_BASE_ADDR,
        DpuRdmaBrdmaCfg::DOMAIN == DOMAIN_DPU_RDMA,
        DpuRdmaBrdmaCfg::OFFSET == REG_DPU_RDMA_RDMA_BRDMA_CFG,
        DpuRdmaBsBaseAddr::DOMAIN == DOMAIN_DPU_RDMA,
        DpuRdmaBsBaseAddr::OFFSET == REG_DPU_RDMA_RDMA_BS_BASE_ADDR,
        DpuRdmaNrdmaCfg::DOMAIN == DOMAIN_DPU_RDMA,
        DpuRdmaNrdmaCfg::OFFSET == REG_DPU_RDMA_RDMA_NRDMA_CFG,
        DpuRdmaBnBaseAddr::DOMAIN == DOMAIN_DPU_RDMA,
        DpuRdmaBnBaseAddr::OFFSET == REG_DPU_RDMA_RDMA_BN_BASE_ADDR,
        DpuRdmaErdmaCfg::DOMAIN == DOMAIN_DPU_RDMA,
        DpuRdmaErdmaCfg::OFFSET == REG_DPU_RDMA_RDMA_ERDMA_CFG,
        DpuRdmaEwBaseAddr::DOMAIN == DOMAIN_DPU_RDMA,
        DpuRdmaEwBaseAddr::OFFSET == REG_DPU_RDMA_RDMA_EW_BASE_ADDR,
        DpuRdmaEwSurfStride::DOMAIN == DOMAIN_DPU_RDMA,
        DpuRdmaEwSurfStride::OFFSET == REG_DPU_RDMA_RDMA_EW_SURF_STRIDE,
        DpuRdmaFeatureModeCfg::DOMAIN == DOMAIN_DPU_RDMA,
        DpuRdmaFeatureModeCfg::OFFSET == REG_DPU_RDMA_RDMA_FEATURE_MODE_CFG,
        DpuRdmaSrcDmaCfg::DOMAIN == DOMAIN_DPU_RDMA,
        DpuRdmaSrcDmaCfg::OFFSET == REG_DPU_RDMA_RDMA_SRC_DMA_CFG,
        DpuRdmaSurfNotch::DOMAIN == DOMAIN_DPU_RDMA,
        DpuRdmaSurfNotch::OFFSET == REG_DPU_RDMA_RDMA_SURF_NOTCH,
        DpuRdmaPadCfg::DOMAIN == DOMAIN_DPU_RDMA,
        DpuRdmaPadCfg::OFFSET == REG_DPU_RDMA_RDMA_PAD_CFG,
        DpuRdmaWeight::DOMAIN == DOMAIN_DPU_RDMA,
        DpuRdmaWeight::OFFSET == REG_DPU_RDMA_RDMA_WEIGHT,
        DpuRdmaEwSurfNotch::DOMAIN == DOMAIN_DPU_RDMA,
        DpuRdmaEwSurfNotch::OFFSET == REG_DPU_RDMA_RDMA_EW_SURF_NOTCH,
{
}

} // verus!
