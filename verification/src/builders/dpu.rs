//! The DPU (data processing unit) block: register identities and the field
//! setters whose bit layout is pinned.
use crate::builders::{encode, encode_field, with_field, Bits, Register, RegisterMeta, DOMAIN_DPU};
use vstd::prelude::*;

verus! {

/// `DPU_S_STATUS` offset.
pub const REG_DPU_S_STATUS: u32 = 0x4000;

/// The `DPU_S_STATUS` register.
#[derive(Debug, Clone, Copy)]
pub struct DpuSStatus;

impl RegisterMeta for DpuSStatus {
    const DOMAIN: u32 = DOMAIN_DPU;
    const OFFSET: u32 = REG_DPU_S_STATUS;
}

/// `DPU_S_STATUS.status_0`: mask 0x00000003, shift 0.
pub const DPU_S_STATUS_STATUS_0_MASK: u32 = 0x00000003;

pub const DPU_S_STATUS_STATUS_0_SHIFT: u32 = 0;

/// `DPU_S_STATUS.status_1`: mask 0x00030000, shift 16.
pub const DPU_S_STATUS_STATUS_1_MASK: u32 = 0x00030000;

pub const DPU_S_STATUS_STATUS_1_SHIFT: u32 = 16;

impl Register<DpuSStatus> {
    /// Executer 0 ping-pong status (idle / operating / operating cascaded).
    pub fn status_0(&mut self, status_0: Bits<2>) -> (ret: &mut Self)
        ensures
            ret@ == with_field(old(self)@, DPU_S_STATUS_STATUS_0_MASK, encode_field(status_0@, DPU_S_STATUS_STATUS_0_SHIFT, DPU_S_STATUS_STATUS_0_MASK)),
            *final(self) == *final(ret),
    {
        let encoded = encode(status_0.val(), DPU_S_STATUS_STATUS_0_SHIFT, DPU_S_STATUS_STATUS_0_MASK);
        self.set_field(DPU_S_STATUS_STATUS_0_MASK, encoded)
    }

    /// Executer 1 ping-pong status (idle / operating / operating cascaded).
    pub fn status_1(&mut self, status_1: Bits<2>) -> (ret: &mut Self)
        ensures
            ret@ == with_field(old(self)@, DPU_S_STATUS_STATUS_1_MASK, encode_field(status_1@, DPU_S_STATUS_STATUS_1_SHIFT, DPU_S_STATUS_STATUS_1_MASK)),
            *final(self) == *final(ret),
    {
        let encoded = encode(status_1.val(), DPU_S_STATUS_STATUS_1_SHIFT, DPU_S_STATUS_STATUS_1_MASK);
        self.set_field(DPU_S_STATUS_STATUS_1_MASK, encoded)
    }
}

/// `DPU_S_POINTER` offset.
pub const REG_DPU_S_POINTER: u32 = 0x4004;

/// The `DPU_S_POINTER` register.
#[derive(Debug, Clone, Copy)]
pub struct DpuSPointer;

impl RegisterMeta for DpuSPointer {
    const DOMAIN: u32 = DOMAIN_DPU;
    const OFFSET: u32 = REG_DPU_S_POINTER;
}

/// `DPU_S_POINTER.pointer`: mask 0x00000001, shift 0.
pub const DPU_S_POINTER_POINTER_MASK: u32 = 0x00000001;

pub const DPU_S_POINTER_POINTER_SHIFT: u32 = 0;

/// `DPU_S_POINTER.pointer_pp_en`: mask 0x00000002, shift 1.
pub const DPU_S_POINTER_POINTER_PP_EN_MASK: u32 = 0x00000002;

pub const DPU_S_POINTER_POINTER_PP_EN_SHIFT: u32 = 1;

/// `DPU_S_POINTER.executer_pp_en`: mask 0x00000004, shift 2.
pub const DPU_S_POINTER_EXECUTER_PP_EN_MASK: u32 = 0x00000004;

pub const DPU_S_POINTER_EXECUTER_PP_EN_SHIFT: u32 = 2;

/// `DPU_S_POINTER.pointer_pp_mode`: mask 0x00000008, shift 3.
pub const DPU_S_POINTER_POINTER_PP_MODE_MASK: u32 = 0x00000008;

pub const DPU_S_POINTER_POINTER_PP_MODE_SHIFT: u32 = 3;

/// `DPU_S_POINTER.pointer_pp_clear`: mask 0x00000010, shift 4.
pub const DPU_S_POINTER_POINTER_PP_CLEAR_MASK: u32 = 0x00000010;

pub const DPU_S_POINTER_POINTER_PP_CLEAR_SHIFT: u32 = 4;

/// `DPU_S_POINTER.executer_pp_clear`: mask 0x00000020, shift 5.
pub const DPU_S_POINTER_EXECUTER_PP_CLEAR_MASK: u32 = 0x00000020;

pub const DPU_S_POINTER_EXECUTER_PP_CLEAR_SHIFT: u32 = 5;

/// `DPU_S_POINTER.executer`: mask 0x00010000, shift 16.
pub const DPU_S_POINTER_EXECUTER_MASK: u32 = 0x00010000;

pub const DPU_S_POINTER_EXECUTER_SHIFT: u32 = 16;

impl Register<DpuSPointer> {
    /// Selects which of the two shadow register groups is ready to be set/used next.
    pub fn pointer(&mut self, pointer: Bits<1>) -> (ret: &mut Self)
        ensures
            ret@ == with_field(old(self)@, DPU_S_POINTER_POINTER_MASK, encode_field(pointer@, DPU_S_POINTER_POINTER_SHIFT, DPU_S_POINTER_POINTER_MASK)),
            *final(self) == *final(ret),
    {
        let encoded = encode(pointer.val(), DPU_S_POINTER_POINTER_SHIFT, DPU_S_POINTER_POINTER_MASK);
        self.set_field(DPU_S_POINTER_POINTER_MASK, encoded)
    }

    /// Enables ping-pong toggling of the register group pointer.
    pub fn pointer_pp_en(&mut self, pointer_pp_en: Bits<1>) -> (ret: &mut Self)
        ensures
            ret@ == with_field(old(self)@, DPU_S_POINTER_POINTER_PP_EN_MASK, encode_field(pointer_pp_en@, DPU_S_POINTER_POINTER_PP_EN_SHIFT, DPU_S_POINTER_POINTER_PP_EN_MASK)),
            *final(self) == *final(ret),
    {
        let encoded = encode(pointer_pp_en.val(), DPU_S_POINTER_POINTER_PP_EN_SHIFT, DPU_S_POINTER_POINTER_PP_EN_MASK);
        self.set_field(DPU_S_POINTER_POINTER_PP_EN_MASK, encoded)
    }

    /// Enables ping-pong toggling of the executer group.
    pub fn executer_pp_en(&mut self, executer_pp_en: Bits<1>) -> (ret: &mut Self)
        ensures
            ret@ == with_field(old(self)@, DPU_S_POINTER_EXECUTER_PP_EN_MASK, encode_field(executer_pp_en@, DPU_S_POINTER_EXECUTER_PP_EN_SHIFT, DPU_S_POINTER_EXECUTER_PP_EN_MASK)),
            *final(self) == *final(ret),
    {
        let encoded = encode(executer_pp_en.val(), DPU_S_POINTER_EXECUTER_PP_EN_SHIFT, DPU_S_POINTER_EXECUTER_PP_EN_MASK);
        self.set_field(DPU_S_POINTER_EXECUTER_PP_EN_MASK, encoded)
    }

    /// Selects the ping-pong toggle rule for the register group pointer.
    pub fn pointer_pp_mode(&mut self, pointer_pp_mode: Bits<1>) -> (ret: &mut Self)
        ensures
            ret@ == with_field(old(self)@, DPU_S_POINTER_POINTER_PP_MODE_MASK, encode_field(pointer_pp_mode@, DPU_S_POINTER_POINTER_PP_MODE_SHIFT, DPU_S_POINTER_POINTER_PP_MODE_MASK)),
            *final(self) == *final(ret),
    {
        let encoded = encode(pointer_pp_mode.val(), DPU_S_POINTER_POINTER_PP_MODE_SHIFT, DPU_S_POINTER_POINTER_PP_MODE_MASK);
        self.set_field(DPU_S_POINTER_POINTER_PP_MODE_MASK, encoded)
    }

    /// Clears the register group pointer back to 0.
    pub fn pointer_pp_clear(&mut self, pointer_pp_clear: Bits<1>) -> (ret: &mut Self)
        ensures
            ret@ == with_field(old(self)@, DPU_S_POINTER_POINTER_PP_CLEAR_MASK, encode_field(pointer_pp_clear@, DPU_S_POINTER_POINTER_PP_CLEAR_SHIFT, DPU_S_POINTER_POINTER_PP_CLEAR_MASK)),
            *final(self) == *final(ret),
    {
        let encoded = encode(pointer_pp_clear.val(), DPU_S_POINTER_POINTER_PP_CLEAR_SHIFT, DPU_S_POINTER_POINTER_PP_CLEAR_MASK);
        self.set_field(DPU_S_POINTER_POINTER_PP_CLEAR_MASK, encoded)
    }

    /// Clears the executer group pointer back to 0.
    pub fn executer_pp_clear(&mut self, executer_pp_clear: Bits<1>) -> (ret: &mut Self)
        ensures
            ret@ == with_field(old(self)@, DPU_S_POINTER_EXECUTER_PP_CLEAR_MASK, encode_field(executer_pp_clear@, DPU_S_POINTER_EXECUTER_PP_CLEAR_SHIFT, DPU_S_POINTER_EXECUTER_PP_CLEAR_MASK)),
            *final(self) == *final(ret),
    {
        let encoded = encode(executer_pp_clear.val(), DPU_S_POINTER_EXECUTER_PP_CLEAR_SHIFT, DPU_S_POINTER_EXECUTER_PP_CLEAR_MASK);
        self.set_field(DPU_S_POINTER_EXECUTER_PP_CLEAR_MASK, encoded)
    }

    /// Reports/selects which of the two executer register groups is in use.
    pub fn executer(&mut self, executer: Bits<1>) -> (ret: &mut Self)
        ensures
            ret@ == with_field(old(self)@, DPU_S_POINTER_EXECUTER_MASK, encode_field(executer@, DPU_S_POINTER_EXECUTER_SHIFT, DPU_S_POINTER_EXECUTER_MASK)),
            *final(self) == *final(ret),
    {
        let encoded = encode(executer.val(), DPU_S_POINTER_EXECUTER_SHIFT, DPU_S_POINTER_EXECUTER_MASK);
        self.set_field(DPU_S_POINTER_EXECUTER_MASK, encoded)
    }
}

/// `DPU_OPERATION_ENABLE` offset.
pub const REG_DPU_OPERATION_ENABLE: u32 = 0x4008;

/// The `DPU_OPERATION_ENABLE` register.
#[derive(Debug, Clone, Copy)]
pub struct DpuOperationEnable;

impl RegisterMeta for DpuOperationEnable {
    const DOMAIN: u32 = DOMAIN_DPU;
    const OFFSET: u32 = REG_DPU_OPERATION_ENABLE;
}

/// `DPU_OPERATION_ENABLE.op_en`: mask 0x00000001, shift 0.
pub const DPU_OPERATION_ENABLE_OP_EN_MASK: u32 = 0x00000001;

pub const DPU_OPERATION_ENABLE_OP_EN_SHIFT: u32 = 0;

impl Register<DpuOperationEnable> {
    /// Triggers the DPU block to start operating on the currently configured register group.
    pub fn op_en(&mut self, op_en: Bits<1>) -> (ret: &mut Self)
        ensures
            ret@ == with_field(old(self)@, DPU_OPERATION_ENABLE_OP_EN_MASK, encode_field(op_en@, DPU_OPERATION_ENABLE_OP_EN_SHIFT, DPU_OPERATION_ENABLE_OP_EN_MASK)),
            *final(self) == *final(ret),
    {
        let encoded = encode(op_en.val(), DPU_OPERATION_ENABLE_OP_EN_SHIFT, DPU_OPERATION_ENABLE_OP_EN_MASK);
        self.set_field(DPU_OPERATION_ENABLE_OP_EN_MASK, encoded)
    }
}

/// `DPU_FEATURE_MODE_CFG` offset.
pub const REG_DPU_FEATURE_MODE_CFG: u32 = 0x400c;

/// The `DPU_FEATURE_MODE_CFG` register.
#[derive(Debug, Clone, Copy)]
pub struct DpuFeatureModeCfg;

impl RegisterMeta for DpuFeatureModeCfg {
    const DOMAIN: u32 = DOMAIN_DPU;
    const OFFSET: u32 = REG_DPU_FEATURE_MODE_CFG;
}

/// `DPU_DATA_FORMAT` offset.
pub const REG_DPU_DATA_FORMAT: u32 = 0x4010;

/// The `DPU_DATA_FORMAT` register.
#[derive(Debug, Clone, Copy)]
pub struct DpuDataFormat;

impl RegisterMeta for DpuDataFormat {
    const DOMAIN: u32 = DOMAIN_DPU;
    const OFFSET: u32 = REG_DPU_DATA_FORMAT;
}

/// `DPU_OFFSET_PEND` offset.
pub const REG_DPU_OFFSET_PEND: u32 = 0x4014;

/// The `DPU_OFFSET_PEND` register.
#[derive(Debug, Clone, Copy)]
pub struct DpuOffsetPend;

impl RegisterMeta for DpuOffsetPend {
    const DOMAIN: u32 = DOMAIN_DPU;
    const OFFSET: u32 = REG_DPU_OFFSET_PEND;
}

/// `DPU_DST_BASE_ADDR` offset.
pub const REG_DPU_DST_BASE_ADDR: u32 = 0x4020;

/// The `DPU_DST_BASE_ADDR` register.
#[derive(Debug, Clone, Copy)]
pub struct DpuDstBaseAddr;

impl RegisterMeta for DpuDstBaseAddr {
    const DOMAIN: u32 = DOMAIN_DPU;
    const OFFSET: u32 = REG_DPU_DST_BASE_ADDR;
}

/// `DPU_DST_BASE_ADDR.dst_base_addr`: mask 0xffffffff, shift 0.
pub const DPU_DST_BASE_ADDR_DST_BASE_ADDR_MASK: u32 = 0xffffffff;

pub const DPU_DST_BASE_ADDR_DST_BASE_ADDR_SHIFT: u32 = 0;

impl Register<DpuDstBaseAddr> {
    /// Base address DPU writes its output to in external memory.
    pub fn dst_base_addr(&mut self, dst_base_addr: Bits<32>) -> (ret: &mut Self)
        ensures
            ret@ == with_field(old(self)@, DPU_DST_BASE_ADDR_DST_BASE_ADDR_MASK, encode_field(dst_base_addr@, DPU_DST_BASE_ADDR_DST_BASE_ADDR_SHIFT, DPU_DST_BASE_ADDR_DST_BASE_ADDR_MASK)),
            *final(self) == *final(ret),
    {
        let encoded = encode(dst_base_addr.val(), DPU_DST_BASE_ADDR_DST_BASE_ADDR_SHIFT, DPU_DST_BASE_ADDR_DST_BASE_ADDR_MASK);
        self.set_field(DPU_DST_BASE_ADDR_DST_BASE_ADDR_MASK, encoded)
    }
}

/// `DPU_DST_SURF_STRIDE` offset.
pub const REG_DPU_DST_SURF_STRIDE: u32 = 0x4024;

/// The `DPU_DST_SURF_STRIDE` register.
#[derive(Debug, Clone, Copy)]
pub struct DpuDstSurfStride;

impl RegisterMeta for DpuDstSurfStride {
    const DOMAIN: u32 = DOMAIN_DPU;
    const OFFSET: u32 = REG_DPU_DST_SURF_STRIDE;
}

/// `DPU_DST_SURF_STRIDE.dst_surf_stride`: mask 0xfffffff0, shift 4.
pub const DPU_DST_SURF_STRIDE_DST_SURF_STRIDE_MASK: u32 = 0xfffffff0;

pub const DPU_DST_SURF_STRIDE_DST_SURF_STRIDE_SHIFT: u32 = 4;

impl Register<DpuDstSurfStride> {
    /// Output shape surface stride in external memory.
    pub fn dst_surf_stride(&mut self, dst_surf_stride: Bits<28>) -> (ret: &mut Self)
        ensures
            ret@ == with_field(old(self)@, DPU_DST_SURF_STRIDE_DST_SURF_STRIDE_MASK, encode_field(dst_surf_stride@, DPU_DST_SURF_STRIDE_DST_SURF_STRIDE_SHIFT, DPU_DST_SURF_STRIDE_DST_SURF_STRIDE_MASK)),
            *final(self) == *final(ret),
    {
        let encoded = encode(dst_surf_stride.val(), DPU_DST_SURF_STRIDE_DST_SURF_STRIDE_SHIFT, DPU_DST_SURF_STRIDE_DST_SURF_STRIDE_MASK);
        self.set_field(DPU_DST_SURF_STRIDE_DST_SURF_STRIDE_MASK, encoded)
    }
}

/// `DPU_DATA_CUBE_WIDTH` offset.
pub const REG_DPU_DATA_CUBE_WIDTH: u32 = 0x4030;

/// The `DPU_DATA_CUBE_WIDTH` register.
#[derive(Debug, Clone, Copy)]
pub struct DpuDataCubeWidth;

impl RegisterMeta for DpuDataCubeWidth {
    const DOMAIN: u32 = DOMAIN_DPU;
    const OFFSET: u32 = REG_DPU_DATA_CUBE_WIDTH;
}

/// `DPU_DATA_CUBE_HEIGHT` offset.
pub const REG_DPU_DATA_CUBE_HEIGHT: u32 = 0x4034;

/// The `DPU_DATA_CUBE_HEIGHT` register.
#[derive(Debug, Clone, Copy)]
pub struct DpuDataCubeHeight;

impl RegisterMeta for DpuDataCubeHeight {
    const DOMAIN: u32 = DOMAIN_DPU;
    const OFFSET: u32 = REG_DPU_DATA_CUBE_HEIGHT;
}

/// `DPU_DATA_CUBE_NOTCH_ADDR` offset.
pub const REG_DPU_DATA_CUBE_NOTCH_ADDR: u32 = 0x4038;

/// The `DPU_DATA_CUBE_NOTCH_ADDR` register.
#[derive(Debug, Clone, Copy)]
pub struct DpuDataCubeNotchAddr;

impl RegisterMeta for DpuDataCubeNotchAddr {
    const DOMAIN: u32 = DOMAIN_DPU;
    const OFFSET: u32 = REG_DPU_DATA_CUBE_NOTCH_ADDR;
}

/// `DPU_DATA_CUBE_CHANNEL` offset.
pub const REG_DPU_DATA_CUBE_CHANNEL: u32 = 0x403c;

/// The `DPU_DATA_CUBE_CHANNEL` register.
#[derive(Debug, Clone, Copy)]
pub struct DpuDataCubeChannel;

impl RegisterMeta for DpuDataCubeChannel {
    const DOMAIN: u32 = DOMAIN_DPU;
    const OFFSET: u32 = REG_DPU_DATA_CUBE_CHANNEL;
}

/// `DPU_BS_CFG` offset.
pub const REG_DPU_BS_CFG: u32 = 0x4040;

/// The `DPU_BS_CFG` register.
#[derive(Debug, Clone, Copy)]
pub struct DpuBsCfg;

impl RegisterMeta for DpuBsCfg {
    const DOMAIN: u32 = DOMAIN_DPU;
    const OFFSET: u32 = REG_DPU_BS_CFG;
}

/// `DPU_BS_ALU_CFG` offset.
pub const REG_DPU_BS_ALU_CFG: u32 = 0x4044;

/// The `DPU_BS_ALU_CFG` register.
#[derive(Debug, Clone, Copy)]
pub struct DpuBsAluCfg;

impl RegisterMeta for DpuBsAluCfg {
    const DOMAIN: u32 = DOMAIN_DPU;
    const OFFSET: u32 = REG_DPU_BS_ALU_CFG;
}

/// `DPU_BS_ALU_CFG.bs_alu_operand`: mask 0xffffffff, shift 0.
pub const DPU_BS_ALU_CFG_BS_ALU_OPERAND_MASK: u32 = 0xffffffff;

pub const DPU_BS_ALU_CFG_BS_ALU_OPERAND_SHIFT: u32 = 0;

impl Register<DpuBsAluCfg> {
    /// Operand value used by the BS core ALU stage.
    pub fn bs_alu_operand(&mut self, bs_alu_operand: Bits<32>) -> (ret: &mut Self)
        ensures
            ret@ == with_field(old(self)@, DPU_BS_ALU_CFG_BS_ALU_OPERAND_MASK, encode_field(bs_alu_operand@, DPU_BS_ALU_CFG_BS_ALU_OPERAND_SHIFT, DPU_BS_ALU_CFG_BS_ALU_OPERAND_MASK)),
            *final(self) == *final(ret),
    {
        let encoded = encode(bs_alu_operand.val(), DPU_BS_ALU_CFG_BS_ALU_OPERAND_SHIFT, DPU_BS_ALU_CFG_BS_ALU_OPERAND_MASK);
        self.set_field(DPU_BS_ALU_CFG_BS_ALU_OPERAND_MASK, encoded)
    }
}

/// `DPU_BS_MUL_CFG` offset.
pub const REG_DPU_BS_MUL_CFG: u32 = 0x4048;

/// The `DPU_BS_MUL_CFG` register.
#[derive(Debug, Clone, Copy)]
pub struct DpuBsMulCfg;

impl RegisterMeta for DpuBsMulCfg {
    const DOMAIN: u32 = DOMAIN_DPU;
    const OFFSET: u32 = REG_DPU_BS_MUL_CFG;
}

/// `DPU_BS_RELUX_CMP_VALUE` offset.
pub const REG_DPU_BS_RELUX_CMP_VALUE: u32 = 0x404c;

/// The `DPU_BS_RELUX_CMP_VALUE` register.
#[derive(Debug, Clone, Copy)]
pub struct DpuBsReluxCmpValue;

impl RegisterMeta for DpuBsReluxCmpValue {
    const DOMAIN: u32 = DOMAIN_DPU;
    const OFFSET: u32 = REG_DPU_BS_RELUX_CMP_VALUE;
}

/// `DPU_BS_RELUX_CMP_VALUE.bs_relux_cmp_dat`: mask 0xffffffff, shift 0.
pub const DPU_BS_RELUX_CMP_VALUE_BS_RELUX_CMP_DAT_MASK: u32 = 0xffffffff;

pub const DPU_BS_RELUX_CMP_VALUE_BS_RELUX_CMP_DAT_SHIFT: u32 = 0;

impl Register<DpuBsReluxCmpValue> {
    /// Comparison value RELUX clamps against in the BS core.
    pub fn bs_relux_cmp_dat(&mut self, bs_relux_cmp_dat: Bits<32>) -> (ret: &mut Self)
        ensures
            ret@ == with_field(old(self)@, DPU_BS_RELUX_CMP_VALUE_BS_RELUX_CMP_DAT_MASK, encode_field(bs_relux_cmp_dat@, DPU_BS_RELUX_CMP_VALUE_BS_RELUX_CMP_DAT_SHIFT, DPU_BS_RELUX_CMP_VALUE_BS_RELUX_CMP_DAT_MASK)),
            *final(self) == *final(ret),
    {
        let encoded = encode(bs_relux_cmp_dat.val(), DPU_BS_RELUX_CMP_VALUE_BS_RELUX_CMP_DAT_SHIFT, DPU_BS_RELUX_CMP_VALUE_BS_RELUX_CMP_DAT_MASK);
        self.set_field(DPU_BS_RELUX_CMP_VALUE_BS_RELUX_CMP_DAT_MASK, encoded)
    }
}

/// `DPU_BS_OW_CFG` offset.
pub const REG_DPU_BS_OW_CFG: u32 = 0x4050;

/// The `DPU_BS_OW_CFG` register.
#[derive(Debug, Clone, Copy)]
pub struct DpuBsOwCfg;

impl RegisterMeta for DpuBsOwCfg {
    const DOMAIN: u32 = DOMAIN_DPU;
    const OFFSET: u32 = REG_DPU_BS_OW_CFG;
}

/// `DPU_BS_OW_OP` offset.
pub const REG_DPU_BS_OW_OP: u32 = 0x4054;

/// The `DPU_BS_OW_OP` register.
#[derive(Debug, Clone, Copy)]
pub struct DpuBsOwOp;

impl RegisterMeta for DpuBsOwOp {
    const DOMAIN: u32 = DOMAIN_DPU;
    const OFFSET: u32 = REG_DPU_BS_OW_OP;
}

/// `DPU_WDMA_SIZE_0` offset.
pub const REG_DPU_WDMA_SIZE_0: u32 = 0x4058;

/// The `DPU_WDMA_SIZE_0` register.
#[derive(Debug, Clone, Copy)]
pub struct DpuWdmaSize0;

impl RegisterMeta for DpuWdmaSize0 {
    const DOMAIN: u32 = DOMAIN_DPU;
    const OFFSET: u32 = REG_DPU_WDMA_SIZE_0;
}

/// `DPU_WDMA_SIZE_1` offset.
pub const REG_DPU_WDMA_SIZE_1: u32 = 0x405c;

/// The `DPU_WDMA_SIZE_1` register.
#[derive(Debug, Clone, Copy)]
pub struct DpuWdmaSize1;

impl RegisterMeta for DpuWdmaSize1 {
    const DOMAIN: u32 = DOMAIN_DPU;
    const OFFSET: u32 = REG_DPU_WDMA_SIZE_1;
}

/// `DPU_BN_CFG` offset.
pub const REG_DPU_BN_CFG: u32 = 0x4060;

/// The `DPU_BN_CFG` register.
#[derive(Debug, Clone, Copy)]
pub struct DpuBnCfg;

impl RegisterMeta for DpuBnCfg {
    const DOMAIN: u32 = DOMAIN_DPU;
    const OFFSET: u32 = REG_DPU_BN_CFG;
}

/// `DPU_BN_ALU_CFG` offset.
pub const REG_DPU_BN_ALU_CFG: u32 = 0x4064;

/// The `DPU_BN_ALU_CFG` register.
#[derive(Debug, Clone, Copy)]
pub struct DpuBnAluCfg;

impl RegisterMeta for DpuBnAluCfg {
    const DOMAIN: u32 = DOMAIN_DPU;
    const OFFSET: u32 = REG_DPU_BN_ALU_CFG;
}

/// `DPU_BN_ALU_CFG.bn_alu_operand`: mask 0xffffffff, shift 0.
pub const DPU_BN_ALU_CFG_BN_ALU_OPERAND_MASK: u32 = 0xffffffff;

pub const DPU_BN_ALU_CFG_BN_ALU_OPERAND_SHIFT: u32 = 0;

impl Register<DpuBnAluCfg> {
    /// Operand value used by the BN core ALU stage.
    pub fn bn_alu_operand(&mut self, bn_alu_operand: Bits<32>) -> (ret: &mut Self)
        ensures
            ret@ == with_field(old(self)@, DPU_BN_ALU_CFG_BN_ALU_OPERAND_MASK, encode_field(bn_alu_operand@, DPU_BN_ALU_CFG_BN_ALU_OPERAND_SHIFT, DPU_BN_ALU_CFG_BN_ALU_OPERAND_MASK)),
            *final(self) == *final(ret),
    {
        let encoded = encode(bn_alu_operand.val(), DPU_BN_ALU_CFG_BN_ALU_OPERAND_SHIFT, DPU_BN_ALU_CFG_BN_ALU_OPERAND_MASK);
        self.set_field(DPU_BN_ALU_CFG_BN_ALU_OPERAND_MASK, encoded)
    }
}

/// `DPU_BN_MUL_CFG` offset.
pub const REG_DPU_BN_MUL_CFG: u32 = 0x4068;

/// The `DPU_BN_MUL_CFG` register.
#[derive(Debug, Clone, Copy)]
pub struct DpuBnMulCfg;

impl RegisterMeta for DpuBnMulCfg {
    const DOMAIN: u32 = DOMAIN_DPU;
    const OFFSET: u32 = REG_DPU_BN_MUL_CFG;
}

/// `DPU_BN_RELUX_CMP_VALUE` offset.
pub const REG_DPU_BN_RELUX_CMP_VALUE: u32 = 0x406c;

/// The `DPU_BN_RELUX_CMP_VALUE` register.
#[derive(Debug, Clone, Copy)]
pub struct DpuBnReluxCmpValue;

impl RegisterMeta for DpuBnReluxCmpValue {
    const DOMAIN: u32 = DOMAIN_DPU;
    const OFFSET: u32 = REG_DPU_BN_RELUX_CMP_VALUE;
}

/// `DPU_BN_RELUX_CMP_VALUE.bn_relux_cmp_dat`: mask 0xffffffff, shift 0.
pub const DPU_BN_RELUX_CMP_VALUE_BN_RELUX_CMP_DAT_MASK: u32 = 0xffffffff;

pub const DPU_BN_RELUX_CMP_VALUE_BN_RELUX_CMP_DAT_SHIFT: u32 = 0;

impl Register<DpuBnReluxCmpValue> {
    /// Comparison value RELUX clamps against in the BN core.
    pub fn bn_relux_cmp_dat(&mut self, bn_relux_cmp_dat: Bits<32>) -> (ret: &mut Self)
        ensures
            ret@ == with_field(old(self)@, DPU_BN_RELUX_CMP_VALUE_BN_RELUX_CMP_DAT_MASK, encode_field(bn_relux_cmp_dat@, DPU_BN_RELUX_CMP_VALUE_BN_RELUX_CMP_DAT_SHIFT, DPU_BN_RELUX_CMP_VALUE_BN_RELUX_CMP_DAT_MASK)),
            *final(self) == *final(ret),
    {
        let encoded = encode(bn_relux_cmp_dat.val(), DPU_BN_RELUX_CMP_VALUE_BN_RELUX_CMP_DAT_SHIFT, DPU_BN_RELUX_CMP_VALUE_BN_RELUX_CMP_DAT_MASK);
        self.set_field(DPU_BN_RELUX_CMP_VALUE_BN_RELUX_CMP_DAT_MASK, encoded)
    }
}

/// `DPU_EW_CFG` offset.
pub const REG_DPU_EW_CFG: u32 = 0x4070;

/// The `DPU_EW_CFG` register.
#[derive(Debug, Clone, Copy)]
pub struct DpuEwCfg;

impl RegisterMeta for DpuEwCfg {
    const DOMAIN: u32 = DOMAIN_DPU;
    const OFFSET: u32 = REG_DPU_EW_CFG;
}

/// `DPU_EW_CVT_OFFSET_VALUE` offset.
pub const REG_DPU_EW_CVT_OFFSET_VALUE: u32 = 0x4074;

/// The `DPU_EW_CVT_OFFSET_VALUE` register.
#[derive(Debug, Clone, Copy)]
pub struct DpuEwCvtOffsetValue;

impl RegisterMeta for DpuEwCvtOffsetValue {
    const DOMAIN: u32 = DOMAIN_DPU;
    const OFFSET: u32 = REG_DPU_EW_CVT_OFFSET_VALUE;
}

/// `DPU_EW_CVT_OFFSET_VALUE.ew_op_cvt_offset`: mask 0xffffffff, shift 0.
pub const DPU_EW_CVT_OFFSET_VALUE_EW_OP_CVT_OFFSET_MASK: u32 = 0xffffffff;

pub const DPU_EW_CVT_OFFSET_VALUE_EW_OP_CVT_OFFSET_SHIFT: u32 = 0;

impl Register<DpuEwCvtOffsetValue> {
    /// Offset added by the EW core's input converter.
    pub fn ew_op_cvt_offset(&mut self, ew_op_cvt_offset: Bits<32>) -> (ret: &mut Self)
        ensures
            ret@ == with_field(old(self)@, DPU_EW_CVT_OFFSET_VALUE_EW_OP_CVT_OFFSET_MASK, encode_field(ew_op_cvt_offset@, DPU_EW_CVT_OFFSET_VALUE_EW_OP_CVT_OFFSET_SHIFT, DPU_EW_CVT_OFFSET_VALUE_EW_OP_CVT_OFFSET_MASK)),
            *final(self) == *final(ret),
    {
        let encoded = encode(ew_op_cvt_offset.val(), DPU_EW_CVT_OFFSET_VALUE_EW_OP_CVT_OFFSET_SHIFT, DPU_EW_CVT_OFFSET_VALUE_EW_OP_CVT_OFFSET_MASK);
        self.set_field(DPU_EW_CVT_OFFSET_VALUE_EW_OP_CVT_OFFSET_MASK, encoded)
    }
}

/// `DPU_EW_CVT_SCALE_VALUE` offset.
pub const REG_DPU_EW_CVT_SCALE_VALUE: u32 = 0x4078;

/// The `DPU_EW_CVT_SCALE_VALUE` register.
#[derive(Debug, Clone, Copy)]
pub struct DpuEwCvtScaleValue;

impl RegisterMeta for DpuEwCvtScaleValue {
    const DOMAIN: u32 = DOMAIN_DPU;
    const OFFSET: u32 = REG_DPU_EW_CVT_SCALE_VALUE;
}

/// `DPU_EW_RELUX_CMP_VALUE` offset.
pub const REG_DPU_EW_RELUX_CMP_VALUE: u32 = 0x407c;

/// The `DPU_EW_RELUX_CMP_VALUE` register.
#[derive(Debug, Clone, Copy)]
pub struct DpuEwReluxCmpValue;

impl RegisterMeta for DpuEwReluxCmpValue {
    const DOMAIN: u32 = DOMAIN_DPU;
    const OFFSET: u32 = REG_DPU_EW_RELUX_CMP_VALUE;
}

/// `DPU_EW_RELUX_CMP_VALUE.ew_relux_cmp_dat`: mask 0xffffffff, shift 0.
pub const DPU_EW_RELUX_CMP_VALUE_EW_RELUX_CMP_DAT_MASK: u32 = 0xffffffff;

pub const DPU_EW_RELUX_CMP_VALUE_EW_RELUX_CMP_DAT_SHIFT: u32 = 0;

impl Register<DpuEwReluxCmpValue> {
    /// Comparison value RELUX clamps against in the EW core.
    pub fn ew_relux_cmp_dat(&mut self, ew_relux_cmp_dat: Bits<32>) -> (ret: &mut Self)
        ensures
            ret@ == with_field(old(self)@, DPU_EW_RELUX_CMP_VALUE_EW_RELUX_CMP_DAT_MASK, encode_field(ew_relux_cmp_dat@, DPU_EW_RELUX_CMP_VALUE_EW_RELUX_CMP_DAT_SHIFT, DPU_EW_RELUX_CMP_VALUE_EW_RELUX_CMP_DAT_MASK)),
            *final(self) == *final(ret),
    {
        let encoded = encode(ew_relux_cmp_dat.val(), DPU_EW_RELUX_CMP_VALUE_EW_RELUX_CMP_DAT_SHIFT, DPU_EW_RELUX_CMP_VALUE_EW_RELUX_CMP_DAT_MASK);
        self.set_field(DPU_EW_RELUX_CMP_VALUE_EW_RELUX_CMP_DAT_MASK, encoded)
    }
}

/// `DPU_OUT_CVT_OFFSET` offset.
pub const REG_DPU_OUT_CVT_OFFSET: u32 = 0x4080;

/// The `DPU_OUT_CVT_OFFSET` register.
#[derive(Debug, Clone, Copy)]
pub struct DpuOutCvtOffset;

impl RegisterMeta for DpuOutCvtOffset {
    const DOMAIN: u32 = DOMAIN_DPU;
    const OFFSET: u32 = REG_DPU_OUT_CVT_OFFSET;
}

/// `DPU_OUT_CVT_OFFSET.out_cvt_offset`: mask 0xffffffff, shift 0.
pub const DPU_OUT_CVT_OFFSET_OUT_CVT_OFFSET_MASK: u32 = 0xffffffff;

pub const DPU_OUT_CVT_OFFSET_OUT_CVT_OFFSET_SHIFT: u32 = 0;

impl Register<DpuOutCvtOffset> {
    /// Offset applied by DPU's final output converter.
    pub fn out_cvt_offset(&mut self, out_cvt_offset: Bits<32>) -> (ret: &mut Self)
        ensures
            ret@ == with_field(old(self)@, DPU_OUT_CVT_OFFSET_OUT_CVT_OFFSET_MASK, encode_field(out_cvt_offset@, DPU_OUT_CVT_OFFSET_OUT_CVT_OFFSET_SHIFT, DPU_OUT_CVT_OFFSET_OUT_CVT_OFFSET_MASK)),
            *final(self) == *final(ret),
    {
        let encoded = encode(out_cvt_offset.val(), DPU_OUT_CVT_OFFSET_OUT_CVT_OFFSET_SHIFT, DPU_OUT_CVT_OFFSET_OUT_CVT_OFFSET_MASK);
        self.set_field(DPU_OUT_CVT_OFFSET_OUT_CVT_OFFSET_MASK, encoded)
    }
}

/// `DPU_OUT_CVT_SCALE` offset.
pub const REG_DPU_OUT_CVT_SCALE: u32 = 0x4084;

/// The `DPU_OUT_CVT_SCALE` register.
#[derive(Debug, Clone, Copy)]
pub struct DpuOutCvtScale;

impl RegisterMeta for DpuOutCvtScale {
    const DOMAIN: u32 = DOMAIN_DPU;
    const OFFSET: u32 = REG_DPU_OUT_CVT_SCALE;
}

/// `DPU_OUT_CVT_SHIFT` offset.
pub const REG_DPU_OUT_CVT_SHIFT: u32 = 0x4088;

/// The `DPU_OUT_CVT_SHIFT` register.
#[derive(Debug, Clone, Copy)]
pub struct DpuOutCvtShift;

impl RegisterMeta for DpuOutCvtShift {
    const DOMAIN: u32 = DOMAIN_DPU;
    const OFFSET: u32 = REG_DPU_OUT_CVT_SHIFT;
}

/// `DPU_EW_OP_VALUE_0` offset.
pub const REG_DPU_EW_OP_VALUE_0: u32 = 0x4090;

/// The `DPU_EW_OP_VALUE_0` register.
#[derive(Debug, Clone, Copy)]
pub struct DpuEwOpValue0;

impl RegisterMeta for DpuEwOpValue0 {
    const DOMAIN: u32 = DOMAIN_DPU;
    const OFFSET: u32 = REG_DPU_EW_OP_VALUE_0;
}

/// `DPU_EW_OP_VALUE_0.ew_operand`: mask 0xffffffff, shift 0.
pub const DPU_EW_OP_VALUE_0_EW_OPERAND_MASK: u32 = 0xffffffff;

pub const DPU_EW_OP_VALUE_0_EW_OPERAND_SHIFT: u32 = 0;

impl Register<DpuEwOpValue0> {
    /// General-purpose operand register fed to the EW core's ALU/MUL stage. This
    pub fn ew_operand(&mut self, ew_operand: Bits<32>) -> (ret: &mut Self)
        ensures
            ret@ == with_field(old(self)@, DPU_EW_OP_VALUE_0_EW_OPERAND_MASK, encode_field(ew_operand@, DPU_EW_OP_VALUE_0_EW_OPERAND_SHIFT, DPU_EW_OP_VALUE_0_EW_OPERAND_MASK)),
            *final(self) == *final(ret),
    {
        let encoded = encode(ew_operand.val(), DPU_EW_OP_VALUE_0_EW_OPERAND_SHIFT, DPU_EW_OP_VALUE_0_EW_OPERAND_MASK);
        self.set_field(DPU_EW_OP_VALUE_0_EW_OPERAND_MASK, encoded)
    }
}

/// `DPU_EW_OP_VALUE_1` offset.
pub const REG_DPU_EW_OP_VALUE_1: u32 = 0x4094;

/// The `DPU_EW_OP_VALUE_1` register.
#[derive(Debug, Clone, Copy)]
pub struct DpuEwOpValue1;

impl RegisterMeta for DpuEwOpValue1 {
    const DOMAIN: u32 = DOMAIN_DPU;
    const OFFSET: u32 = REG_DPU_EW_OP_VALUE_1;
}

/// `DPU_EW_OP_VALUE_1.ew_operand`: mask 0xffffffff, shift 0.
pub const DPU_EW_OP_VALUE_1_EW_OPERAND_MASK: u32 = 0xffffffff;

pub const DPU_EW_OP_VALUE_1_EW_OPERAND_SHIFT: u32 = 0;

impl Register<DpuEwOpValue1> {
    /// General-purpose operand register fed to the EW core's ALU/MUL stage. This
    pub fn ew_operand(&mut self, ew_operand: Bits<32>) -> (ret: &mut Self)
        ensures
            ret@ == with_field(old(self)@, DPU_EW_OP_VALUE_1_EW_OPERAND_MASK, encode_field(ew_operand@, DPU_EW_OP_VALUE_1_EW_OPERAND_SHIFT, DPU_EW_OP_VALUE_1_EW_OPERAND_MASK)),
            *final(self) == *final(ret),
    {
        let encoded = encode(ew_operand.val(), DPU_EW_OP_VALUE_1_EW_OPERAND_SHIFT, DPU_EW_OP_VALUE_1_EW_OPERAND_MASK);
        self.set_field(DPU_EW_OP_VALUE_1_EW_OPERAND_MASK, encoded)
    }
}

/// `DPU_EW_OP_VALUE_2` offset.
pub const REG_DPU_EW_OP_VALUE_2: u32 = 0x4098;

/// The `DPU_EW_OP_VALUE_2` register.
#[derive(Debug, Clone, Copy)]
pub struct DpuEwOpValue2;

impl RegisterMeta for DpuEwOpValue2 {
    const DOMAIN: u32 = DOMAIN_DPU;
    const OFFSET: u32 = REG_DPU_EW_OP_VALUE_2;
}

/// `DPU_EW_OP_VALUE_2.ew_operand`: mask 0xffffffff, shift 0.
pub const DPU_EW_OP_VALUE_2_EW_OPERAND_MASK: u32 = 0xffffffff;

pub const DPU_EW_OP_VALUE_2_EW_OPERAND_SHIFT: u32 = 0;

impl Register<DpuEwOpValue2> {
    /// General-purpose operand register fed to the EW core's ALU/MUL stage. This
    pub fn ew_operand(&mut self, ew_operand: Bits<32>) -> (ret: &mut Self)
        ensures
            ret@ == with_field(old(self)@, DPU_EW_OP_VALUE_2_EW_OPERAND_MASK, encode_field(ew_operand@, DPU_EW_OP_VALUE_2_EW_OPERAND_SHIFT, DPU_EW_OP_VALUE_2_EW_OPERAND_MASK)),
            *final(self) == *final(ret),
    {
        let encoded = encode(ew_operand.val(), DPU_EW_OP_VALUE_2_EW_OPERAND_SHIFT, DPU_EW_OP_VALUE_2_EW_OPERAND_MASK);
        self.set_field(DPU_EW_OP_VALUE_2_EW_OPERAND_MASK, encoded)
    }
}

/// `DPU_EW_OP_VALUE_3` offset.
pub const REG_DPU_EW_OP_VALUE_3: u32 = 0x409c;

/// The `DPU_EW_OP_VALUE_3` register.
#[derive(Debug, Clone, Copy)]
pub struct DpuEwOpValue3;

impl RegisterMeta for DpuEwOpValue3 {
    const DOMAIN: u32 = DOMAIN_DPU;
    const OFFSET: u32 = REG_DPU_EW_OP_VALUE_3;
}

/// `DPU_EW_OP_VALUE_3.ew_operand`: mask 0xffffffff, shift 0.
pub const DPU_EW_OP_VALUE_3_EW_OPERAND_MASK: u32 = 0xffffffff;

pub const DPU_EW_OP_VALUE_3_EW_OPERAND_SHIFT: u32 = 0;

impl Register<DpuEwOpValue3> {
    /// General-purpose operand register fed to the EW core's ALU/MUL stage. This
    pub fn ew_operand(&mut self, ew_operand: Bits<32>) -> (ret: &mut Self)
        ensures
            ret@ == with_field(old(self)@, DPU_EW_OP_VALUE_3_EW_OPERAND_MASK, encode_field(ew_operand@, DPU_EW_OP_VALUE_3_EW_OPERAND_SHIFT, DPU_EW_OP_VALUE_3_EW_OPERAND_MASK)),
            *final(self) == *final(ret),
    {
        let encoded = encode(ew_operand.val(), DPU_EW_OP_VALUE_3_EW_OPERAND_SHIFT, DPU_EW_OP_VALUE_3_EW_OPERAND_MASK);
        self.set_field(DPU_EW_OP_VALUE_3_EW_OPERAND_MASK, encoded)
    }
}

/// `DPU_EW_OP_VALUE_4` offset.
pub const REG_DPU_EW_OP_VALUE_4: u32 = 0x40a0;

/// The `DPU_EW_OP_VALUE_4` register.
#[derive(Debug, Clone, Copy)]
pub struct DpuEwOpValue4;

impl RegisterMeta for DpuEwOpValue4 {
    const DOMAIN: u32 = DOMAIN_DPU;
    const OFFSET: u32 = REG_DPU_EW_OP_VALUE_4;
}

/// `DPU_EW_OP_VALUE_4.ew_operand`: mask 0xffffffff, shift 0.
pub const DPU_EW_OP_VALUE_4_EW_OPERAND_MASK: u32 = 0xffffffff;

pub const DPU_EW_OP_VALUE_4_EW_OPERAND_SHIFT: u32 = 0;

impl Register<DpuEwOpValue4> {
    /// General-purpose operand register fed to the EW core's ALU/MUL stage. This
    pub fn ew_operand(&mut self, ew_operand: Bits<32>) -> (ret: &mut Self)
        ensures
            ret@ == with_field(old(self)@, DPU_EW_OP_VALUE_4_EW_OPERAND_MASK, encode_field(ew_operand@, DPU_EW_OP_VALUE_4_EW_OPERAND_SHIFT, DPU_EW_OP_VALUE_4_EW_OPERAND_MASK)),
            *final(self) == *final(ret),
    {
        let encoded = encode(ew_operand.val(), DPU_EW_OP_VALUE_4_EW_OPERAND_SHIFT, DPU_EW_OP_VALUE_4_EW_OPERAND_MASK);
        self.set_field(DPU_EW_OP_VALUE_4_EW_OPERAND_MASK, encoded)
    }
}

/// `DPU_EW_OP_VALUE_5` offset.
pub const REG_DPU_EW_OP_VALUE_5: u32 = 0x40a4;

/// The `DPU_EW_OP_VALUE_5` register.
#[derive(Debug, Clone, Copy)]
pub struct DpuEwOpValue5;

impl RegisterMeta for DpuEwOpValue5 {
    const DOMAIN: u32 = DOMAIN_DPU;
    const OFFSET: u32 = REG_DPU_EW_OP_VALUE_5;
}

/// `DPU_EW_OP_VALUE_5.ew_operand`: mask 0xffffffff, shift 0.
pub const DPU_EW_OP_VALUE_5_EW_OPERAND_MASK: u32 = 0xffffffff;

pub const DPU_EW_OP_VALUE_5_EW_OPERAND_SHIFT: u32 = 0;

impl Register<DpuEwOpValue5> {
    /// General-purpose operand register fed to the EW core's ALU/MUL stage. This
    pub fn ew_operand(&mut self, ew_operand: Bits<32>) -> (ret: &mut Self)
        ensures
            ret@ == with_field(old(self)@, DPU_EW_OP_VALUE_5_EW_OPERAND_MASK, encode_field(ew_operand@, DPU_EW_OP_VALUE_5_EW_OPERAND_SHIFT, DPU_EW_OP_VALUE_5_EW_OPERAND_MASK)),
            *final(self) == *final(ret),
    {
        let encoded = encode(ew_operand.val(), DPU_EW_OP_VALUE_5_EW_OPERAND_SHIFT, DPU_EW_OP_VALUE_5_EW_OPERAND_MASK);
        self.set_field(DPU_EW_OP_VALUE_5_EW_OPERAND_MASK, encoded)
    }
}

/// `DPU_EW_OP_VALUE_6` offset.
pub const REG_DPU_EW_OP_VALUE_6: u32 = 0x40a8;

/// The `DPU_EW_OP_VALUE_6` register.
#[derive(Debug, Clone, Copy)]
pub struct DpuEwOpValue6;

impl RegisterMeta for DpuEwOpValue6 {
    const DOMAIN: u32 = DOMAIN_DPU;
    const OFFSET: u32 = REG_DPU_EW_OP_VALUE_6;
}

/// `DPU_EW_OP_VALUE_6.ew_operand`: mask 0xffffffff, shift 0.
pub const DPU_EW_OP_VALUE_6_EW_OPERAND_MASK: u32 = 0xffffffff;

pub const DPU_EW_OP_VALUE_6_EW_OPERAND_SHIFT: u32 = 0;

impl Register<DpuEwOpValue6> {
    /// General-purpose operand register fed to the EW core's ALU/MUL stage. This
    pub fn ew_operand(&mut self, ew_operand: Bits<32>) -> (ret: &mut Self)
        ensures
            ret@ == with_field(old(self)@, DPU_EW_OP_VALUE_6_EW_OPERAND_MASK, encode_field(ew_operand@, DPU_EW_OP_VALUE_6_EW_OPERAND_SHIFT, DPU_EW_OP_VALUE_6_EW_OPERAND_MASK)),
            *final(self) == *final(ret),
    {
        let encoded = encode(ew_operand.val(), DPU_EW_OP_VALUE_6_EW_OPERAND_SHIFT, DPU_EW_OP_VALUE_6_EW_OPERAND_MASK);
        self.set_field(DPU_EW_OP_VALUE_6_EW_OPERAND_MASK, encoded)
    }
}

/// `DPU_EW_OP_VALUE_7` offset.
pub const REG_DPU_EW_OP_VALUE_7: u32 = 0x40ac;

/// The `DPU_EW_OP_VALUE_7` register.
#[derive(Debug, Clone, Copy)]
pub struct DpuEwOpValue7;

impl RegisterMeta for DpuEwOpValue7 {
    const DOMAIN: u32 = DOMAIN_DPU;
    const OFFSET: u32 = REG_DPU_EW_OP_VALUE_7;
}

/// `DPU_EW_OP_VALUE_7.ew_operand`: mask 0xffffffff, shift 0.
pub const DPU_EW_OP_VALUE_7_EW_OPERAND_MASK: u32 = 0xffffffff;

pub const DPU_EW_OP_VALUE_7_EW_OPERAND_SHIFT: u32 = 0;

impl Register<DpuEwOpValue7> {
    /// General-purpose operand register fed to the EW core's ALU/MUL stage. This
    pub fn ew_operand(&mut self, ew_operand: Bits<32>) -> (ret: &mut Self)
        ensures
            ret@ == with_field(old(self)@, DPU_EW_OP_VALUE_7_EW_OPERAND_MASK, encode_field(ew_operand@, DPU_EW_OP_VALUE_7_EW_OPERAND_SHIFT, DPU_EW_OP_VALUE_7_EW_OPERAND_MASK)),
            *final(self) == *final(ret),
    {
        let encoded = encode(ew_operand.val(), DPU_EW_OP_VALUE_7_EW_OPERAND_SHIFT, DPU_EW_OP_VALUE_7_EW_OPERAND_MASK);
        self.set_field(DPU_EW_OP_VALUE_7_EW_OPERAND_MASK, encoded)
    }
}

/// `DPU_SURFACE_ADD` offset.
pub const REG_DPU_SURFACE_ADD: u32 = 0x40c0;

/// The `DPU_SURFACE_ADD` register.
#[derive(Debug, Clone, Copy)]
pub struct DpuSurfaceAdd;

impl RegisterMeta for DpuSurfaceAdd {
    const DOMAIN: u32 = DOMAIN_DPU;
    const OFFSET: u32 = REG_DPU_SURFACE_ADD;
}

/// `DPU_SURFACE_ADD.surf_add`: mask 0xfffffff0, shift 4.
pub const DPU_SURFACE_ADD_SURF_ADD_MASK: u32 = 0xfffffff0;

pub const DPU_SURFACE_ADD_SURF_ADD_SHIFT: u32 = 4;

impl Register<DpuSurfaceAdd> {
    /// Number of surfaces in a row for DPU's output addressing.
    pub fn surf_add(&mut self, surf_add: Bits<28>) -> (ret: &mut Self)
        ensures
            ret@ == with_field(old(self)@, DPU_SURFACE_ADD_SURF_ADD_MASK, encode_field(surf_add@, DPU_SURFACE_ADD_SURF_ADD_SHIFT, DPU_SURFACE_ADD_SURF_ADD_MASK)),
            *final(self) == *final(ret),
    {
        let encoded = encode(surf_add.val(), DPU_SURFACE_ADD_SURF_ADD_SHIFT, DPU_SURFACE_ADD_SURF_ADD_MASK);
        self.set_field(DPU_SURFACE_ADD_SURF_ADD_MASK, encoded)
    }
}

/// `DPU_RESERVED40C4` offset.
pub const REG_DPU_RESERVED40C4: u32 = 0x40c4;

/// The `DPU_RESERVED40C4` register.
#[derive(Debug, Clone, Copy)]
pub struct DpuReserved40c4;

impl RegisterMeta for DpuReserved40c4 {
    const DOMAIN: u32 = DOMAIN_DPU;
    const OFFSET: u32 = REG_DPU_RESERVED40C4;
}

/// `DPU_LUT_ACCESS_CFG` offset.
pub const REG_DPU_LUT_ACCESS_CFG: u32 = 0x4100;

/// The `DPU_LUT_ACCESS_CFG` register.
#[derive(Debug, Clone, Copy)]
pub struct DpuLutAccessCfg;

impl RegisterMeta for DpuLutAccessCfg {
    const DOMAIN: u32 = DOMAIN_DPU;
    const OFFSET: u32 = REG_DPU_LUT_ACCESS_CFG;
}

/// `DPU_LUT_ACCESS_DATA` offset.
pub const REG_DPU_LUT_ACCESS_DATA: u32 = 0x4104;

/// The `DPU_LUT_ACCESS_DATA` register.
#[derive(Debug, Clone, Copy)]
pub struct DpuLutAccessData;

impl RegisterMeta for DpuLutAccessData {
    const DOMAIN: u32 = DOMAIN_DPU;
    const OFFSET: u32 = REG_DPU_LUT_ACCESS_DATA;
}

/// `DPU_LUT_CFG` offset.
pub const REG_DPU_LUT_CFG: u32 = 0x4108;

/// The `DPU_LUT_CFG` register.
#[derive(Debug, Clone, Copy)]
pub struct DpuLutCfg;

impl RegisterMeta for DpuLutCfg {
    const DOMAIN: u32 = DOMAIN_DPU;
    const OFFSET: u32 = REG_DPU_LUT_CFG;
}

/// `DPU_LUT_INFO` offset.
pub const REG_DPU_LUT_INFO: u32 = 0x410c;

/// The `DPU_LUT_INFO` register.
#[derive(Debug, Clone, Copy)]
pub struct DpuLutInfo;

impl RegisterMeta for DpuLutInfo {
    const DOMAIN: u32 = DOMAIN_DPU;
    const OFFSET: u32 = REG_DPU_LUT_INFO;
}

/// `DPU_LUT_LE_START` offset.
pub const REG_DPU_LUT_LE_START: u32 = 0x4110;

/// The `DPU_LUT_LE_START` register.
#[derive(Debug, Clone, Copy)]
pub struct DpuLutLeStart;

impl RegisterMeta for DpuLutLeStart {
    const DOMAIN: u32 = DOMAIN_DPU;
    const OFFSET: u32 = REG_DPU_LUT_LE_START;
}

/// `DPU_LUT_LE_START.lut_le_start`: mask 0xffffffff, shift 0.
pub const DPU_LUT_LE_START_LUT_LE_START_MASK: u32 = 0xffffffff;

pub const DPU_LUT_LE_START_LUT_LE_START_SHIFT: u32 = 0;

impl Register<DpuLutLeStart> {
    /// Start point of the LE piecewise LUT's domain.
    pub fn lut_le_start(&mut self, lut_le_start: Bits<32>) -> (ret: &mut Self)
        ensures
            ret@ == with_field(old(self)@, DPU_LUT_LE_START_LUT_LE_START_MASK, encode_field(lut_le_start@, DPU_LUT_LE_START_LUT_LE_START_SHIFT, DPU_LUT_LE_START_LUT_LE_START_MASK)),
            *final(self) == *final(ret),
    {
        let encoded = encode(lut_le_start.val(), DPU_LUT_LE_START_LUT_LE_START_SHIFT, DPU_LUT_LE_START_LUT_LE_START_MASK);
        self.set_field(DPU_LUT_LE_START_LUT_LE_START_MASK, encoded)
    }
}

/// `DPU_LUT_LE_END` offset.
pub const REG_DPU_LUT_LE_END: u32 = 0x4114;

/// The `DPU_LUT_LE_END` register.
#[derive(Debug, Clone, Copy)]
pub struct DpuLutLeEnd;

impl RegisterMeta for DpuLutLeEnd {
    const DOMAIN: u32 = DOMAIN_DPU;
    const OFFSET: u32 = REG_DPU_LUT_LE_END;
}

/// `DPU_LUT_LE_END.lut_le_end`: mask 0xffffffff, shift 0.
pub const DPU_LUT_LE_END_LUT_LE_END_MASK: u32 = 0xffffffff;

pub const DPU_LUT_LE_END_LUT_LE_END_SHIFT: u32 = 0;

impl Register<DpuLutLeEnd> {
    /// End point of the LE piecewise LUT's domain.
    pub fn lut_le_end(&mut self, lut_le_end: Bits<32>) -> (ret: &mut Self)
        ensures
            ret@ == with_field(old(self)@, DPU_LUT_LE_END_LUT_LE_END_MASK, encode_field(lut_le_end@, DPU_LUT_LE_END_LUT_LE_END_SHIFT, DPU_LUT_LE_END_LUT_LE_END_MASK)),
            *final(self) == *final(ret),
    {
        let encoded = encode(lut_le_end.val(), DPU_LUT_LE_END_LUT_LE_END_SHIFT, DPU_LUT_LE_END_LUT_LE_END_MASK);
        self.set_field(DPU_LUT_LE_END_LUT_LE_END_MASK, encoded)
    }
}

/// `DPU_LUT_LO_START` offset.
pub const REG_DPU_LUT_LO_START: u32 = 0x4118;

/// The `DPU_LUT_LO_START` register.
#[derive(Debug, Clone, Copy)]
pub struct DpuLutLoStart;

impl RegisterMeta for DpuLutLoStart {
    const DOMAIN: u32 = DOMAIN_DPU;
    const OFFSET: u32 = REG_DPU_LUT_LO_START;
}

/// `DPU_LUT_LO_START.lut_lo_start`: mask 0xffffffff, shift 0.
pub const DPU_LUT_LO_START_LUT_LO_START_MASK: u32 = 0xffffffff;

pub const DPU_LUT_LO_START_LUT_LO_START_SHIFT: u32 = 0;

impl Register<DpuLutLoStart> {
    /// Start point of the LO piecewise LUT's domain.
    pub fn lut_lo_start(&mut self, lut_lo_start: Bits<32>) -> (ret: &mut Self)
        ensures
            ret@ == with_field(old(self)@, DPU_LUT_LO_START_LUT_LO_START_MASK, encode_field(lut_lo_start@, DPU_LUT_LO_START_LUT_LO_START_SHIFT, DPU_LUT_LO_START_LUT_LO_START_MASK)),
            *final(self) == *final(ret),
    {
        let encoded = encode(lut_lo_start.val(), DPU_LUT_LO_START_LUT_LO_START_SHIFT, DPU_LUT_LO_START_LUT_LO_START_MASK);
        self.set_field(DPU_LUT_LO_START_LUT_LO_START_MASK, encoded)
    }
}

/// `DPU_LUT_LO_END` offset.
pub const REG_DPU_LUT_LO_END: u32 = 0x411c;

/// The `DPU_LUT_LO_END` register.
#[derive(Debug, Clone, Copy)]
pub struct DpuLutLoEnd;

impl RegisterMeta for DpuLutLoEnd {
    const DOMAIN: u32 = DOMAIN_DPU;
    const OFFSET: u32 = REG_DPU_LUT_LO_END;
}

/// `DPU_LUT_LO_END.lut_lo_end`: mask 0xffffffff, shift 0.
pub const DPU_LUT_LO_END_LUT_LO_END_MASK: u32 = 0xffffffff;

pub const DPU_LUT_LO_END_LUT_LO_END_SHIFT: u32 = 0;

impl Register<DpuLutLoEnd> {
    /// End point of the LO piecewise LUT's domain.
    pub fn lut_lo_end(&mut self, lut_lo_end: Bits<32>) -> (ret: &mut Self)
        ensures
            ret@ == with_field(old(self)@, DPU_LUT_LO_END_LUT_LO_END_MASK, encode_field(lut_lo_end@, DPU_LUT_LO_END_LUT_LO_END_SHIFT, DPU_LUT_LO_END_LUT_LO_END_MASK)),
            *final(self) == *final(ret),
    {
        let encoded = encode(lut_lo_end.val(), DPU_LUT_LO_END_LUT_LO_END_SHIFT, DPU_LUT_LO_END_LUT_LO_END_MASK);
        self.set_field(DPU_LUT_LO_END_LUT_LO_END_MASK, encoded)
    }
}

/// `DPU_LUT_LE_SLOPE_SCALE` offset.
pub const REG_DPU_LUT_LE_SLOPE_SCALE: u32 = 0x4120;

/// The `DPU_LUT_LE_SLOPE_SCALE` register.
#[derive(Debug, Clone, Copy)]
pub struct DpuLutLeSlopeScale;

impl RegisterMeta for DpuLutLeSlopeScale {
    const DOMAIN: u32 = DOMAIN_DPU;
    const OFFSET: u32 = REG_DPU_LUT_LE_SLOPE_SCALE;
}

/// `DPU_LUT_LE_SLOPE_SHIFT` offset.
pub const REG_DPU_LUT_LE_SLOPE_SHIFT: u32 = 0x4124;

/// The `DPU_LUT_LE_SLOPE_SHIFT` register.
#[derive(Debug, Clone, Copy)]
pub struct DpuLutLeSlopeShift;

impl RegisterMeta for DpuLutLeSlopeShift {
    const DOMAIN: u32 = DOMAIN_DPU;
    const OFFSET: u32 = REG_DPU_LUT_LE_SLOPE_SHIFT;
}

/// `DPU_LUT_LO_SLOPE_SCALE` offset.
pub const REG_DPU_LUT_LO_SLOPE_SCALE: u32 = 0x4128;

/// The `DPU_LUT_LO_SLOPE_SCALE` register.
#[derive(Debug, Clone, Copy)]
pub struct DpuLutLoSlopeScale;

impl RegisterMeta for DpuLutLoSlopeScale {
    const DOMAIN: u32 = DOMAIN_DPU;
    const OFFSET: u32 = REG_DPU_LUT_LO_SLOPE_SCALE;
}

/// `DPU_LUT_LO_SLOPE_SHIFT` offset.
pub const REG_DPU_LUT_LO_SLOPE_SHIFT: u32 = 0x412c;

/// The `DPU_LUT_LO_SLOPE_SHIFT` register.
#[derive(Debug, Clone, Copy)]
pub struct DpuLutLoSlopeShift;

impl RegisterMeta for DpuLutLoSlopeShift {
    const DOMAIN: u32 = DOMAIN_DPU;
    const OFFSET: u32 = REG_DPU_LUT_LO_SLOPE_SHIFT;
}

/// The domain and offset each register of this block names.
pub proof fn lemma_register_identities()
    ensures
        DpuSStatus::DOMAIN == DOMAIN_DPU,
        DpuSStatus::OFFSET == REG_DPU_S_STATUS,
        DpuSPointer::DOMAIN == DOMAIN_DPU,
        DpuSPointer::OFFSET == REG_DPU_S_POINTER,
        DpuOperationEnable::DOMAIN == DOMAIN_DPU,
        DpuOperationEnable::OFFSET == REG_DPU_OPERATION_ENABLE,
        DpuFeatureModeCfg::DOMAIN == DOMAIN_DPU,
        DpuFeatureModeCfg::OFFSET == REG_DPU_FEATURE_MODE_CFG,
        DpuDataFormat::DOMAIN == DOMAIN_DPU,
        DpuDataFormat::OFFSET == REG_DPU_DATA_FORMAT,
        DpuOffsetPend::DOMAIN == DOMAIN_DPU,
        DpuOffsetPend::OFFSET == REG_DPU_OFFSET_PEND,
        DpuDstBaseAddr::DOMAIN == DOMAIN_DPU,
        DpuDstBaseAddr::OFFSET == REG_DPU_DST_BASE_ADDR,
        DpuDstSurfStride::DOMAIN == DOMAIN_DPU,
        DpuDstSurfStride::OFFSET == REG_DPU_DST_SURF_STRIDE,
        DpuDataCubeWidth::DOMAIN == DOMAIN_DPU,
        DpuDataCubeWidth::OFFSET == REG_DPU_DATA_CUBE_WIDTH,
        DpuDataCubeHeight::DOMAIN == DOMAIN_DPU,
        DpuDataCubeHeight::OFFSET == REG_DPU_DATA_CUBE_HEIGHT,
        DpuDataCubeNotchAddr::DOMAIN == DOMAIN_DPU,
        DpuDataCubeNotchAddr::OFFSET == REG_DPU_DATA_CUBE_NOTCH_ADDR,
        DpuDataCubeChannel::DOMAIN == DOMAIN_DPU,
        DpuDataCubeChannel::OFFSET == REG_DPU_DATA_CUBE_CHANNEL,
        DpuBsCfg::DOMAIN == DOMAIN_DPU,
        DpuBsCfg::OFFSET == REG_DPU_BS_CFG,
        DpuBsAluCfg::DOMAIN == DOMAIN_DPU,
        DpuBsAluCfg::OFFSET == REG_DPU_BS_ALU_CFG,
        DpuBsMulCfg::DOMAIN == DOMAIN_DPU,
        DpuBsMulCfg::OFFSET == REG_DPU_BS_MUL_CFG,
        DpuBsReluxCmpValue::DOMAIN == DOMAIN_DPU,
        DpuBsReluxCmpValue::OFFSET == REG_DPU_BS_RELUX_CMP_VALUE,
        DpuBsOwCfg::DOMAIN == DOMAIN_DPU,
        DpuBsOwCfg::OFFSET == REG_DPU_BS_OW_CFG,
        DpuBsOwOp::DOMAIN == DOMAIN_DPU,
        DpuBsOwOp::OFFSET == REG_DPU_BS_OW_OP,
        DpuWdmaSize0::DOMAIN == DOMAIN_DPU,
        DpuWdmaSize0::OFFSET == REG_DPU_WDMA_SIZE_0,
        DpuWdmaSize1::DOMAIN == DOMAIN_DPU,
        DpuWdmaSize1::OFFSET == REG_DPU_WDMA_SIZE_1,
        DpuBnCfg::DOMAIN == DOMAIN_DPU,
        DpuBnCfg::OFFSET == REG_DPU_BN_CFG,
        DpuBnAluCfg::DOMAIN == DOMAIN_DPU,
        DpuBnAluCfg::OFFSET == REG_DPU_BN_ALU_CFG,
        DpuBnMulCfg::DOMAIN == DOMAIN_DPU,
        DpuBnMulCfg::OFFSET == REG_DPU_BN_MUL_CFG,
        DpuBnReluxCmpValue::DOMAIN == DOMAIN_DPU,
        DpuBnReluxCmpValue::OFFSET == REG_DPU_BN_RELUX_CMP_VALUE,
        DpuEwCfg::DOMAIN == DOMAIN_DPU,
        DpuEwCfg::OFFSET == REG_DPU_EW_CFG,
        DpuEwCvtOffsetValue::DOMAIN == DOMAIN_DPU,
        DpuEwCvtOffsetValue::OFFSET == REG_DPU_EW_CVT_OFFSET_VALUE,
        DpuEwCvtScaleValue::DOMAIN == DOMAIN_DPU,
        DpuEwCvtScaleValue::OFFSET == REG_DPU_EW_CVT_SCALE_VALUE,
        DpuEwReluxCmpValue::DOMAIN == DOMAIN_DPU,
        DpuEwReluxCmpValue::OFFSET == REG_DPU_EW_RELUX_CMP_VALUE,
        DpuOutCvtOffset::DOMAIN == DOMAIN_DPU,
        DpuOutCvtOffset::OFFSET == REG_DPU_OUT_CVT_OFFSET,
        DpuOutCvtScale::DOMAIN == DOMAIN_DPU,
        DpuOutCvtScale::OFFSET == REG_DPU_OUT_CVT_SCALE,
        DpuOutCvtShift::DOMAIN == DOMAIN_DPU,
        DpuOutCvtShift::OFFSET == REG_DPU_OUT_CVT_SHIFT,
        DpuEwOpValue0::DOMAIN == DOMAIN_DPU,
        DpuEwOpValue0::OFFSET == REG_DPU_EW_OP_VALUE_0,
        DpuEwOpValue1::DOMAIN == DOMAIN_DPU,
        DpuEwOpValue1::OFFSET == REG_DPU_EW_OP_VALUE_1,
        DpuEwOpValue2::DOMAIN == DOMAIN_DPU,
        DpuEwOpValue2::OFFSET == REG_DPU_EW_OP_VALUE_2,
        DpuEwOpValue3::DOMAIN == DOMAIN_DPU,
        DpuEwOpValue3::OFFSET == REG_DPU_EW_OP_VALUE_3,
        DpuEwOpValue4::DOMAIN == DOMAIN_DPU,
        DpuEwOpValue4::OFFSET == REG_DPU_EW_OP_VALUE_4,
        DpuEwOpValue5::DOMAIN == DOMAIN_DPU,
        DpuEwOpValue5::OFFSET == REG_DPU_EW_OP_VALUE_5,
        DpuEwOpValue6::DOMAIN == DOMAIN_DPU,
        DpuEwOpValue6::OFFSET == REG_DPU_EW_OP_VALUE_6,
        DpuEwOpValue7::DOMAIN == DOMAIN_DPU,
        DpuEwOpValue7::OFFSET == REG_DPU_EW_OP_VALUE_7,
        DpuSurfaceAdd::DOMAIN == DOMAIN_DPU,
        DpuSurfaceAdd::OFFSET == REG_DPU_SURFACE_ADD,
        DpuReserved40c4::DOMAIN == DOMAIN_DPU,
        DpuReserved40c4::OFFSET == REG_DPU_RESERVED40C4,
        DpuLutAccessCfg::DOMAIN == DOMAIN_DPU,
        DpuLutAccessCfg::OFFSET == REG_DPU_LUT_ACCESS_CFG,
        DpuLutAccessData::DOMAIN == DOMAIN_DPU,
        DpuLutAccessData::OFFSET == REG_DPU_LUT_ACCESS_DATA,
        DpuLutCfg::DOMAIN == DOMAIN_DPU,
        DpuLutCfg::OFFSET == REG_DPU_LUT_CFG,
        DpuLutInfo::DOMAIN == DOMAIN_DPU,
        DpuLutInfo::OFFSET == REG_DPU_LUT_INFO,
        DpuLutLeStart::DOMAIN == DOMAIN_DPU,
        DpuLutLeStart::OFFSET == REG_DPU_LUT_LE_START,
        DpuLutLeEnd::DOMAIN == DOMAIN_DPU,
        DpuLutLeEnd::OFFSET == REG_DPU_LUT_LE_END,
        DpuLutLoStart::DOMAIN == DOMAIN_DPU,
        DpuLutLoStart::OFFSET == REG_DPU_LUT_LO_START,
        DpuLutLoEnd::DOMAIN == DOMAIN_DPU,
        DpuLutLoEnd::OFFSET == REG_DPU_LUT_LO_END,
        DpuLutLeSlopeScale::DOMAIN == DOMAIN_DPU,
        DpuLutLeSlopeScale::OFFSET == REG_DPU_LUT_LE_SLOPE_SCALE,
        DpuLutLeSlopeShift::DOMAIN == DOMAIN_DPU,
        DpuLutLeSlopeShift::OFFSET == REG_DPU_LUT_LE_SLOPE_SHIFT,
        DpuLutLoSlopeScale::DOMAIN == DOMAIN_DPU,
        DpuLutLoSlopeScale::OFFSET == REG_DPU_LUT_LO_SLOPE_SCALE,
        DpuLutLoSlopeShift::DOMAIN == DOMAIN_DPU,
        DpuLutLoSlopeShift::OFFSET == REG_DPU_LUT_LO_SLOPE_SHIFT,
{
}

} // verus!
