//! The CNA (convolution and accumulation input) block: register identities
//! and the field setters whose bit layout is pinned.
use crate::builders::{encode, encode_field, with_field, Bits, Register, RegisterMeta, DOMAIN_CNA};
use vstd::prelude::*;

verus! {

/// `CNA_S_POINTER` offset.
pub const REG_CNA_S_POINTER: u32 = 0x1004;

/// The `CNA_S_POINTER` register.
#[derive(Debug, Clone, Copy)]
pub struct CnaSPointer;

impl RegisterMeta for CnaSPointer {
    const DOMAIN: u32 = DOMAIN_CNA;
    const OFFSET: u32 = REG_CNA_S_POINTER;
}

/// `CNA_S_POINTER.pointer`: mask 0x00000001, shift 0.
pub const CNA_S_POINTER_POINTER_MASK: u32 = 0x00000001;

pub const CNA_S_POINTER_POINTER_SHIFT: u32 = 0;

/// `CNA_S_POINTER.pointer_pp_en`: mask 0x00000002, shift 1.
pub const CNA_S_POINTER_POINTER_PP_EN_MASK: u32 = 0x00000002;

pub const CNA_S_POINTER_POINTER_PP_EN_SHIFT: u32 = 1;

/// `CNA_S_POINTER.executor_pp_en`: mask 0x00000004, shift 2.
pub const CNA_S_POINTER_EXECUTOR_PP_EN_MASK: u32 = 0x00000004;

pub const CNA_S_POINTER_EXECUTOR_PP_EN_SHIFT: u32 = 2;

/// `CNA_S_POINTER.pointer_pp_mode`: mask 0x00000008, shift 3.
pub const CNA_S_POINTER_POINTER_PP_MODE_MASK: u32 = 0x00000008;

pub const CNA_S_POINTER_POINTER_PP_MODE_SHIFT: u32 = 3;

/// `CNA_S_POINTER.pointer_pp_clear`: mask 0x00000010, shift 4.
pub const CNA_S_POINTER_POINTER_PP_CLEAR_MASK: u32 = 0x00000010;

pub const CNA_S_POINTER_POINTER_PP_CLEAR_SHIFT: u32 = 4;

/// `CNA_S_POINTER.executer_pp_clear`: mask 0x00000020, shift 5.
pub const CNA_S_POINTER_EXECUTER_PP_CLEAR_MASK: u32 = 0x00000020;

pub const CNA_S_POINTER_EXECUTER_PP_CLEAR_SHIFT: u32 = 5;

/// `CNA_S_POINTER.executer`: mask 0x00010000, shift 16.
pub const CNA_S_POINTER_EXECUTER_MASK: u32 = 0x00010000;

pub const CNA_S_POINTER_EXECUTER_SHIFT: u32 = 16;

impl Register<CnaSPointer> {
    /// Selects which of the two shadow register groups is ready to be applied.
    pub fn pointer(&mut self, pointer: Bits<1>) -> (ret: &mut Self)
        ensures
            ret@ == with_field(old(self)@, CNA_S_POINTER_POINTER_MASK, encode_field(pointer@, CNA_S_POINTER_POINTER_SHIFT, CNA_S_POINTER_POINTER_MASK)),
            *final(self) == *final(ret),
    {
        let encoded = encode(pointer.val(), CNA_S_POINTER_POINTER_SHIFT, CNA_S_POINTER_POINTER_MASK);
        self.set_field(CNA_S_POINTER_POINTER_MASK, encoded)
    }

    /// Enables ping-pong toggling of the register group pointer.
    pub fn pointer_pp_en(&mut self, pp_en: Bits<1>) -> (ret: &mut Self)
        ensures
            ret@ == with_field(old(self)@, CNA_S_POINTER_POINTER_PP_EN_MASK, encode_field(pp_en@, CNA_S_POINTER_POINTER_PP_EN_SHIFT, CNA_S_POINTER_POINTER_PP_EN_MASK)),
            *final(self) == *final(ret),
    {
        let encoded = encode(pp_en.val(), CNA_S_POINTER_POINTER_PP_EN_SHIFT, CNA_S_POINTER_POINTER_PP_EN_MASK);
        self.set_field(CNA_S_POINTER_POINTER_PP_EN_MASK, encoded)
    }

    /// Enables ping-pong toggling of the executer group.
    pub fn executor_pp_en(&mut self, pp_en: Bits<1>) -> (ret: &mut Self)
        ensures
            ret@ == with_field(old(self)@, CNA_S_POINTER_EXECUTOR_PP_EN_MASK, encode_field(pp_en@, CNA_S_POINTER_EXECUTOR_PP_EN_SHIFT, CNA_S_POINTER_EXECUTOR_PP_EN_MASK)),
            *final(self) == *final(ret),
    {
        let encoded = encode(pp_en.val(), CNA_S_POINTER_EXECUTOR_PP_EN_SHIFT, CNA_S_POINTER_EXECUTOR_PP_EN_MASK);
        self.set_field(CNA_S_POINTER_EXECUTOR_PP_EN_MASK, encoded)
    }

    /// Selects the ping-pong toggle rule for the register group pointer.
    pub fn pointer_pp_mode(&mut self, pp_mode: Bits<1>) -> (ret: &mut Self)
        ensures
            ret@ == with_field(old(self)@, CNA_S_POINTER_POINTER_PP_MODE_MASK, encode_field(pp_mode@, CNA_S_POINTER_POINTER_PP_MODE_SHIFT, CNA_S_POINTER_POINTER_PP_MODE_MASK)),
            *final(self) == *final(ret),
    {
        let encoded = encode(pp_mode.val(), CNA_S_POINTER_POINTER_PP_MODE_SHIFT, CNA_S_POINTER_POINTER_PP_MODE_MASK);
        self.set_field(CNA_S_POINTER_POINTER_PP_MODE_MASK, encoded)
    }

    /// Clears the register group pointer back to 0.
    pub fn pointer_pp_clear(&mut self, pp_clear: Bits<1>) -> (ret: &mut Self)
        ensures
            ret@ == with_field(old(self)@, CNA_S_POINTER_POINTER_PP_CLEAR_MASK, encode_field(pp_clear@, CNA_S_POINTER_POINTER_PP_CLEAR_SHIFT, CNA_S_POINTER_POINTER_PP_CLEAR_MASK)),
            *final(self) == *final(ret),
    {
        let encoded = encode(pp_clear.val(), CNA_S_POINTER_POINTER_PP_CLEAR_SHIFT, CNA_S_POINTER_POINTER_PP_CLEAR_MASK);
        self.set_field(CNA_S_POINTER_POINTER_PP_CLEAR_MASK, encoded)
    }

    /// Clears the executer group pointer back to 0.
    pub fn executer_pp_clear(&mut self, pp_clear: Bits<1>) -> (ret: &mut Self)
        ensures
            ret@ == with_field(old(self)@, CNA_S_POINTER_EXECUTER_PP_CLEAR_MASK, encode_field(pp_clear@, CNA_S_POINTER_EXECUTER_PP_CLEAR_SHIFT, CNA_S_POINTER_EXECUTER_PP_CLEAR_MASK)),
            *final(self) == *final(ret),
    {
        let encoded = encode(pp_clear.val(), CNA_S_POINTER_EXECUTER_PP_CLEAR_SHIFT, CNA_S_POINTER_EXECUTER_PP_CLEAR_MASK);
        self.set_field(CNA_S_POINTER_EXECUTER_PP_CLEAR_MASK, encoded)
    }

    /// Selects which executer register group is currently used.
    pub fn executer(&mut self, executer: Bits<1>) -> (ret: &mut Self)
        ensures
            ret@ == with_field(old(self)@, CNA_S_POINTER_EXECUTER_MASK, encode_field(executer@, CNA_S_POINTER_EXECUTER_SHIFT, CNA_S_POINTER_EXECUTER_MASK)),
            *final(self) == *final(ret),
    {
        let encoded = encode(executer.val(), CNA_S_POINTER_EXECUTER_SHIFT, CNA_S_POINTER_EXECUTER_MASK);
        self.set_field(CNA_S_POINTER_EXECUTER_MASK, encoded)
    }
}

/// `CNA_OPERATION_ENABLE` offset.
pub const REG_CNA_OPERATION_ENABLE: u32 = 0x1008;

/// The `CNA_OPERATION_ENABLE` register.
#[derive(Debug, Clone, Copy)]
pub struct CnaOperationEnable;

impl RegisterMeta for CnaOperationEnable {
    const DOMAIN: u32 = DOMAIN_CNA;
    const OFFSET: u32 = REG_CNA_OPERATION_ENABLE;
}

/// `CNA_OPERATION_ENABLE.op_en`: mask 0x00000001, shift 0.
pub const CNA_OPERATION_ENABLE_OP_EN_MASK: u32 = 0x00000001;

pub const CNA_OPERATION_ENABLE_OP_EN_SHIFT: u32 = 0;

impl Register<CnaOperationEnable> {
    /// Triggers the CNA block to begin operating.
    pub fn op_en(&mut self, op_en: Bits<1>) -> (ret: &mut Self)
        ensures
            ret@ == with_field(old(self)@, CNA_OPERATION_ENABLE_OP_EN_MASK, encode_field(op_en@, CNA_OPERATION_ENABLE_OP_EN_SHIFT, CNA_OPERATION_ENABLE_OP_EN_MASK)),
            *final(self) == *final(ret),
    {
        let encoded = encode(op_en.val(), CNA_OPERATION_ENABLE_OP_EN_SHIFT, CNA_OPERATION_ENABLE_OP_EN_MASK);
        self.set_field(CNA_OPERATION_ENABLE_OP_EN_MASK, encoded)
    }
}

/// `CNA_CONV_CON1` offset.
pub const REG_CNA_CONV_CON1: u32 = 0x100c;

/// The `CNA_CONV_CON1` register.
#[derive(Debug, Clone, Copy)]
pub struct CnaConvCon1;

impl RegisterMeta for CnaConvCon1 {
    const DOMAIN: u32 = DOMAIN_CNA;
    const OFFSET: u32 = REG_CNA_CONV_CON1;
}

/// `CNA_CONV_CON1.conv_mode`: mask 0x0000000f, shift 0.
pub const CNA_CONV_CON1_CONV_MODE_MASK: u32 = 0x0000000f;

pub const CNA_CONV_CON1_CONV_MODE_SHIFT: u32 = 0;

impl Register<CnaConvCon1> {
    /// Selects the convolution mode.
    pub fn conv_mode(&mut self, conv_mode: Bits<4>) -> (ret: &mut Self)
        ensures
            ret@ == with_field(old(self)@, CNA_CONV_CON1_CONV_MODE_MASK, encode_field(conv_mode@, CNA_CONV_CON1_CONV_MODE_SHIFT, CNA_CONV_CON1_CONV_MODE_MASK)),
            *final(self) == *final(ret),
    {
        let encoded = encode(conv_mode.val(), CNA_CONV_CON1_CONV_MODE_SHIFT, CNA_CONV_CON1_CONV_MODE_MASK);
        self.set_field(CNA_CONV_CON1_CONV_MODE_MASK, encoded)
    }
}

/// `CNA_CONV_CON2` offset.
pub const REG_CNA_CONV_CON2: u32 = 0x1010;

/// The `CNA_CONV_CON2` register.
#[derive(Debug, Clone, Copy)]
pub struct CnaConvCon2;

impl RegisterMeta for CnaConvCon2 {
    const DOMAIN: u32 = DOMAIN_CNA;
    const OFFSET: u32 = REG_CNA_CONV_CON2;
}

/// `CNA_CONV_CON2.feature_grains`: mask 0x00003ff0, shift 4.
pub const CNA_CONV_CON2_FEATURE_GRAINS_MASK: u32 = 0x00003ff0;

pub const CNA_CONV_CON2_FEATURE_GRAINS_SHIFT: u32 = 4;

impl Register<CnaConvCon2> {
    /// Number of feature data rows that must be buffered before convolution
    pub fn feature_grains(&mut self, feature_grain: Bits<10>) -> (ret: &mut Self)
        ensures
            ret@ == with_field(old(self)@, CNA_CONV_CON2_FEATURE_GRAINS_MASK, encode_field(feature_grain@, CNA_CONV_CON2_FEATURE_GRAINS_SHIFT, CNA_CONV_CON2_FEATURE_GRAINS_MASK)),
            *final(self) == *final(ret),
    {
        let encoded = encode(feature_grain.val(), CNA_CONV_CON2_FEATURE_GRAINS_SHIFT, CNA_CONV_CON2_FEATURE_GRAINS_MASK);
        self.set_field(CNA_CONV_CON2_FEATURE_GRAINS_MASK, encoded)
    }
}

/// `CNA_CONV_CON3` offset.
pub const REG_CNA_CONV_CON3: u32 = 0x1014;

/// The `CNA_CONV_CON3` register.
#[derive(Debug, Clone, Copy)]
pub struct CnaConvCon3;

impl RegisterMeta for CnaConvCon3 {
    const DOMAIN: u32 = DOMAIN_CNA;
    const OFFSET: u32 = REG_CNA_CONV_CON3;
}

/// `CNA_DATA_SIZE0` offset.
pub const REG_CNA_DATA_SIZE0: u32 = 0x1020;

/// The `CNA_DATA_SIZE0` register.
#[derive(Debug, Clone, Copy)]
pub struct CnaDataSize0;

impl RegisterMeta for CnaDataSize0 {
    const DOMAIN: u32 = DOMAIN_CNA;
    const OFFSET: u32 = REG_CNA_DATA_SIZE0;
}

/// `CNA_DATA_SIZE1` offset.
pub const REG_CNA_DATA_SIZE1: u32 = 0x1024;

/// The `CNA_DATA_SIZE1` register.
#[derive(Debug, Clone, Copy)]
pub struct CnaDataSize1;

impl RegisterMeta for CnaDataSize1 {
    const DOMAIN: u32 = DOMAIN_CNA;
    const OFFSET: u32 = REG_CNA_DATA_SIZE1;
}

/// `CNA_DATA_SIZE2` offset.
pub const REG_CNA_DATA_SIZE2: u32 = 0x1028;

/// The `CNA_DATA_SIZE2` register.
#[derive(Debug, Clone, Copy)]
pub struct CnaDataSize2;

impl RegisterMeta for CnaDataSize2 {
    const DOMAIN: u32 = DOMAIN_CNA;
    const OFFSET: u32 = REG_CNA_DATA_SIZE2;
}

/// `CNA_DATA_SIZE3` offset.
pub const REG_CNA_DATA_SIZE3: u32 = 0x102c;

/// The `CNA_DATA_SIZE3` register.
#[derive(Debug, Clone, Copy)]
pub struct CnaDataSize3;

impl RegisterMeta for CnaDataSize3 {
    const DOMAIN: u32 = DOMAIN_CNA;
    const OFFSET: u32 = REG_CNA_DATA_SIZE3;
}

/// `CNA_WEIGHT_SIZE0` offset.
pub const REG_CNA_WEIGHT_SIZE0: u32 = 0x1030;

/// The `CNA_WEIGHT_SIZE0` register.
#[derive(Debug, Clone, Copy)]
pub struct CnaWeightSize0;

impl RegisterMeta for CnaWeightSize0 {
    const DOMAIN: u32 = DOMAIN_CNA;
    const OFFSET: u32 = REG_CNA_WEIGHT_SIZE0;
}

/// `CNA_WEIGHT_SIZE0.weight_bytes`: mask 0xffffffff, shift 0.
pub const CNA_WEIGHT_SIZE0_WEIGHT_BYTES_MASK: u32 = 0xffffffff;

pub const CNA_WEIGHT_SIZE0_WEIGHT_BYTES_SHIFT: u32 = 0;

impl Register<CnaWeightSize0> {
    /// Total weight bytes for this convolution.
    pub fn weight_bytes(&mut self, weight_bytes: Bits<32>) -> (ret: &mut Self)
        ensures
            ret@ == with_field(old(self)@, CNA_WEIGHT_SIZE0_WEIGHT_BYTES_MASK, encode_field(weight_bytes@, CNA_WEIGHT_SIZE0_WEIGHT_BYTES_SHIFT, CNA_WEIGHT_SIZE0_WEIGHT_BYTES_MASK)),
            *final(self) == *final(ret),
    {
        let encoded = encode(weight_bytes.val(), CNA_WEIGHT_SIZE0_WEIGHT_BYTES_SHIFT, CNA_WEIGHT_SIZE0_WEIGHT_BYTES_MASK);
        self.set_field(CNA_WEIGHT_SIZE0_WEIGHT_BYTES_MASK, encoded)
    }
}

/// `CNA_WEIGHT_SIZE1` offset.
pub const REG_CNA_WEIGHT_SIZE1: u32 = 0x1034;

/// The `CNA_WEIGHT_SIZE1` register.
#[derive(Debug, Clone, Copy)]
pub struct CnaWeightSize1;

impl RegisterMeta for CnaWeightSize1 {
    const DOMAIN: u32 = DOMAIN_CNA;
    const OFFSET: u32 = REG_CNA_WEIGHT_SIZE1;
}

/// `CNA_WEIGHT_SIZE2` offset.
pub const REG_CNA_WEIGHT_SIZE2: u32 = 0x1038;

/// The `CNA_WEIGHT_SIZE2` register.
#[derive(Debug, Clone, Copy)]
pub struct CnaWeightSize2;

impl RegisterMeta for CnaWeightSize2 {
    const DOMAIN: u32 = DOMAIN_CNA;
    const OFFSET: u32 = REG_CNA_WEIGHT_SIZE2;
}

/// `CNA_CBUF_CON0` offset.
pub const REG_CNA_CBUF_CON0: u32 = 0x1040;

/// The `CNA_CBUF_CON0` register.
#[derive(Debug, Clone, Copy)]
pub struct CnaCbufCon0;

impl RegisterMeta for CnaCbufCon0 {
    const DOMAIN: u32 = DOMAIN_CNA;
    const OFFSET: u32 = REG_CNA_CBUF_CON0;
}

/// `CNA_CBUF_CON1` offset.
pub const REG_CNA_CBUF_CON1: u32 = 0x1044;

/// The `CNA_CBUF_CON1` register.
#[derive(Debug, Clone, Copy)]
pub struct CnaCbufCon1;

impl RegisterMeta for CnaCbufCon1 {
    const DOMAIN: u32 = DOMAIN_CNA;
    const OFFSET: u32 = REG_CNA_CBUF_CON1;
}

/// `CNA_CBUF_CON1.data_entries`: mask 0x00003fff, shift 0.
pub const CNA_CBUF_CON1_DATA_ENTRIES_MASK: u32 = 0x00003fff;

pub const CNA_CBUF_CON1_DATA_ENTRIES_SHIFT: u32 = 0;

impl Register<CnaCbufCon1> {
    /// Number of CBUF bank-spaces needed to store one feature map row.
    pub fn data_entries(&mut self, data_entries: Bits<13>) -> (ret: &mut Self)
        ensures
            ret@ == with_field(old(self)@, CNA_CBUF_CON1_DATA_ENTRIES_MASK, encode_field(data_entries@, CNA_CBUF_CON1_DATA_ENTRIES_SHIFT, CNA_CBUF_CON1_DATA_ENTRIES_MASK)),
            *final(self) == *final(ret),
    {
        let encoded = encode(data_entries.val(), CNA_CBUF_CON1_DATA_ENTRIES_SHIFT, CNA_CBUF_CON1_DATA_ENTRIES_MASK);
        self.set_field(CNA_CBUF_CON1_DATA_ENTRIES_MASK, encoded)
    }
}

/// `CNA_CVT_CON0` offset.
pub const REG_CNA_CVT_CON0: u32 = 0x104c;

/// The `CNA_CVT_CON0` register.
#[derive(Debug, Clone, Copy)]
pub struct CnaCvtCon0;

impl RegisterMeta for CnaCvtCon0 {
    const DOMAIN: u32 = DOMAIN_CNA;
    const OFFSET: u32 = REG_CNA_CVT_CON0;
}

/// `CNA_CVT_CON1` offset.
pub const REG_CNA_CVT_CON1: u32 = 0x1050;

/// The `CNA_CVT_CON1` register.
#[derive(Debug, Clone, Copy)]
pub struct CnaCvtCon1;

impl RegisterMeta for CnaCvtCon1 {
    const DOMAIN: u32 = DOMAIN_CNA;
    const OFFSET: u32 = REG_CNA_CVT_CON1;
}

/// `CNA_CVT_CON2` offset.
pub const REG_CNA_CVT_CON2: u32 = 0x1054;

/// The `CNA_CVT_CON2` register.
#[derive(Debug, Clone, Copy)]
pub struct CnaCvtCon2;

impl RegisterMeta for CnaCvtCon2 {
    const DOMAIN: u32 = DOMAIN_CNA;
    const OFFSET: u32 = REG_CNA_CVT_CON2;
}

/// `CNA_CVT_CON3` offset.
pub const REG_CNA_CVT_CON3: u32 = 0x1058;

/// The `CNA_CVT_CON3` register.
#[derive(Debug, Clone, Copy)]
pub struct CnaCvtCon3;

impl RegisterMeta for CnaCvtCon3 {
    const DOMAIN: u32 = DOMAIN_CNA;
    const OFFSET: u32 = REG_CNA_CVT_CON3;
}

/// `CNA_CVT_CON4` offset.
pub const REG_CNA_CVT_CON4: u32 = 0x105c;

/// The `CNA_CVT_CON4` register.
#[derive(Debug, Clone, Copy)]
pub struct CnaCvtCon4;

impl RegisterMeta for CnaCvtCon4 {
    const DOMAIN: u32 = DOMAIN_CNA;
    const OFFSET: u32 = REG_CNA_CVT_CON4;
}

/// `CNA_FC_CON0` offset.
pub const REG_CNA_FC_CON0: u32 = 0x1060;

/// The `CNA_FC_CON0` register.
#[derive(Debug, Clone, Copy)]
pub struct CnaFcCon0;

impl RegisterMeta for CnaFcCon0 {
    const DOMAIN: u32 = DOMAIN_CNA;
    const OFFSET: u32 = REG_CNA_FC_CON0;
}

/// `CNA_FC_CON1` offset.
pub const REG_CNA_FC_CON1: u32 = 0x1064;

/// The `CNA_FC_CON1` register.
#[derive(Debug, Clone, Copy)]
pub struct CnaFcCon1;

impl RegisterMeta for CnaFcCon1 {
    const DOMAIN: u32 = DOMAIN_CNA;
    const OFFSET: u32 = REG_CNA_FC_CON1;
}

/// `CNA_PAD_CON0` offset.
pub const REG_CNA_PAD_CON0: u32 = 0x1068;

/// The `CNA_PAD_CON0` register.
#[derive(Debug, Clone, Copy)]
pub struct CnaPadCon0;

impl RegisterMeta for CnaPadCon0 {
    const DOMAIN: u32 = DOMAIN_CNA;
    const OFFSET: u32 = REG_CNA_PAD_CON0;
}

/// `CNA_FEATURE_DATA_ADDR` offset.
pub const REG_CNA_FEATURE_DATA_ADDR: u32 = 0x1070;

/// The `CNA_FEATURE_DATA_ADDR` register.
#[derive(Debug, Clone, Copy)]
pub struct CnaFeatureDataAddr;

impl RegisterMeta for CnaFeatureDataAddr {
    const DOMAIN: u32 = DOMAIN_CNA;
    const OFFSET: u32 = REG_CNA_FEATURE_DATA_ADDR;
}

/// `CNA_FEATURE_DATA_ADDR.feature_base_addr`: mask 0xffffffff, shift 0.
pub const CNA_FEATURE_DATA_ADDR_FEATURE_BASE_ADDR_MASK: u32 = 0xffffffff;

pub const CNA_FEATURE_DATA_ADDR_FEATURE_BASE_ADDR_SHIFT: u32 = 0;

impl Register<CnaFeatureDataAddr> {
    /// Base address of the input feature data in system memory.
    pub fn feature_base_addr(&mut self, feature_base_addr: Bits<32>) -> (ret: &mut Self)
        ensures
            ret@ == with_field(old(self)@, CNA_FEATURE_DATA_ADDR_FEATURE_BASE_ADDR_MASK, encode_field(feature_base_addr@, CNA_FEATURE_DATA_ADDR_FEATURE_BASE_ADDR_SHIFT, CNA_FEATURE_DATA_ADDR_FEATURE_BASE_ADDR_MASK)),
            *final(self) == *final(ret),
    {
        let encoded = encode(feature_base_addr.val(), CNA_FEATURE_DATA_ADDR_FEATURE_BASE_ADDR_SHIFT, CNA_FEATURE_DATA_ADDR_FEATURE_BASE_ADDR_MASK);
        self.set_field(CNA_FEATURE_DATA_ADDR_FEATURE_BASE_ADDR_MASK, encoded)
    }
}

/// `CNA_FC_CON2` offset.
pub const REG_CNA_FC_CON2: u32 = 0x1074;

/// The `CNA_FC_CON2` register.
#[derive(Debug, Clone, Copy)]
pub struct CnaFcCon2;

impl RegisterMeta for CnaFcCon2 {
    const DOMAIN: u32 = DOMAIN_CNA;
    const OFFSET: u32 = REG_CNA_FC_CON2;
}

/// `CNA_DMA_CON0` offset.
pub const REG_CNA_DMA_CON0: u32 = 0x1078;

/// The `CNA_DMA_CON0` register.
#[derive(Debug, Clone, Copy)]
pub struct CnaDmaCon0;

impl RegisterMeta for CnaDmaCon0 {
    const DOMAIN: u32 = DOMAIN_CNA;
    const OFFSET: u32 = REG_CNA_DMA_CON0;
}

/// `CNA_DMA_CON1` offset.
pub const REG_CNA_DMA_CON1: u32 = 0x107c;

/// The `CNA_DMA_CON1` register.
#[derive(Debug, Clone, Copy)]
pub struct CnaDmaCon1;

impl RegisterMeta for CnaDmaCon1 {
    const DOMAIN: u32 = DOMAIN_CNA;
    const OFFSET: u32 = REG_CNA_DMA_CON1;
}

/// `CNA_DMA_CON2` offset.
pub const REG_CNA_DMA_CON2: u32 = 0x1080;

/// The `CNA_DMA_CON2` register.
#[derive(Debug, Clone, Copy)]
pub struct CnaDmaCon2;

impl RegisterMeta for CnaDmaCon2 {
    const DOMAIN: u32 = DOMAIN_CNA;
    const OFFSET: u32 = REG_CNA_DMA_CON2;
}

/// `CNA_FC_DATA_SIZE0` offset.
pub const REG_CNA_FC_DATA_SIZE0: u32 = 0x1084;

/// The `CNA_FC_DATA_SIZE0` register.
#[derive(Debug, Clone, Copy)]
pub struct CnaFcDataSize0;

impl RegisterMeta for CnaFcDataSize0 {
    const DOMAIN: u32 = DOMAIN_CNA;
    const OFFSET: u32 = REG_CNA_FC_DATA_SIZE0;
}

/// `CNA_FC_DATA_SIZE1` offset.
pub const REG_CNA_FC_DATA_SIZE1: u32 = 0x1088;

/// The `CNA_FC_DATA_SIZE1` register.
#[derive(Debug, Clone, Copy)]
pub struct CnaFcDataSize1;

impl RegisterMeta for CnaFcDataSize1 {
    const DOMAIN: u32 = DOMAIN_CNA;
    const OFFSET: u32 = REG_CNA_FC_DATA_SIZE1;
}

/// `CNA_CLK_GATE` offset.
pub const REG_CNA_CLK_GATE: u32 = 0x1090;

/// The `CNA_CLK_GATE` register.
#[derive(Debug, Clone, Copy)]
pub struct CnaClkGate;

impl RegisterMeta for CnaClkGate {
    const DOMAIN: u32 = DOMAIN_CNA;
    const OFFSET: u32 = REG_CNA_CLK_GATE;
}

/// `CNA_DCOMP_CTRL` offset.
pub const REG_CNA_DCOMP_CTRL: u32 = 0x1100;

/// The `CNA_DCOMP_CTRL` register.
#[derive(Debug, Clone, Copy)]
pub struct CnaDcompCtrl;

impl RegisterMeta for CnaDcompCtrl {
    const DOMAIN: u32 = DOMAIN_CNA;
    const OFFSET: u32 = REG_CNA_DCOMP_CTRL;
}

/// `CNA_DCOMP_REGNUM` offset.
pub const REG_CNA_DCOMP_REGNUM: u32 = 0x1104;

/// The `CNA_DCOMP_REGNUM` register.
#[derive(Debug, Clone, Copy)]
pub struct CnaDcompRegnum;

impl RegisterMeta for CnaDcompRegnum {
    const DOMAIN: u32 = DOMAIN_CNA;
    const OFFSET: u32 = REG_CNA_DCOMP_REGNUM;
}

/// `CNA_DCOMP_REGNUM.dcomp_regnum`: mask 0xffffffff, shift 0.
pub const CNA_DCOMP_REGNUM_DCOMP_REGNUM_MASK: u32 = 0xffffffff;

pub const CNA_DCOMP_REGNUM_DCOMP_REGNUM_SHIFT: u32 = 0;

impl Register<CnaDcompRegnum> {
    /// Weight decompress register count.
    pub fn dcomp_regnum(&mut self, dcomp_regnum: Bits<32>) -> (ret: &mut Self)
        ensures
            ret@ == with_field(old(self)@, CNA_DCOMP_REGNUM_DCOMP_REGNUM_MASK, encode_field(dcomp_regnum@, CNA_DCOMP_REGNUM_DCOMP_REGNUM_SHIFT, CNA_DCOMP_REGNUM_DCOMP_REGNUM_MASK)),
            *final(self) == *final(ret),
    {
        let encoded = encode(dcomp_regnum.val(), CNA_DCOMP_REGNUM_DCOMP_REGNUM_SHIFT, CNA_DCOMP_REGNUM_DCOMP_REGNUM_MASK);
        self.set_field(CNA_DCOMP_REGNUM_DCOMP_REGNUM_MASK, encoded)
    }
}

/// `CNA_DCOMP_ADDR0` offset.
pub const REG_CNA_DCOMP_ADDR0: u32 = 0x1110;

/// The `CNA_DCOMP_ADDR0` register.
#[derive(Debug, Clone, Copy)]
pub struct CnaDcompAddr0;

impl RegisterMeta for CnaDcompAddr0 {
    const DOMAIN: u32 = DOMAIN_CNA;
    const OFFSET: u32 = REG_CNA_DCOMP_ADDR0;
}

/// `CNA_DCOMP_ADDR0.decompress_addr0`: mask 0xffffffff, shift 0.
pub const CNA_DCOMP_ADDR0_DECOMPRESS_ADDR0_MASK: u32 = 0xffffffff;

pub const CNA_DCOMP_ADDR0_DECOMPRESS_ADDR0_SHIFT: u32 = 0;

impl Register<CnaDcompAddr0> {
    /// Base address of the weight for decompression.
    pub fn decompress_addr0(&mut self, decompress_addr0: Bits<32>) -> (ret: &mut Self)
        ensures
            ret@ == with_field(old(self)@, CNA_DCOMP_ADDR0_DECOMPRESS_ADDR0_MASK, encode_field(decompress_addr0@, CNA_DCOMP_ADDR0_DECOMPRESS_ADDR0_SHIFT, CNA_DCOMP_ADDR0_DECOMPRESS_ADDR0_MASK)),
            *final(self) == *final(ret),
    {
        let encoded = encode(decompress_addr0.val(), CNA_DCOMP_ADDR0_DECOMPRESS_ADDR0_SHIFT, CNA_DCOMP_ADDR0_DECOMPRESS_ADDR0_MASK);
        self.set_field(CNA_DCOMP_ADDR0_DECOMPRESS_ADDR0_MASK, encoded)
    }
}

/// `CNA_DCOMP_AMOUNT0` offset.
pub const REG_CNA_DCOMP_AMOUNT0: u32 = 0x1140;

/// The `CNA_DCOMP_AMOUNT0` register.
#[derive(Debug, Clone, Copy)]
pub struct CnaDcompAmount0;

impl RegisterMeta for CnaDcompAmount0 {
    const DOMAIN: u32 = DOMAIN_CNA;
    const OFFSET: u32 = REG_CNA_DCOMP_AMOUNT0;
}

/// `CNA_DCOMP_AMOUNT0.dcomp_amount`: mask 0xffffffff, shift 0.
pub const CNA_DCOMP_AMOUNT0_DCOMP_AMOUNT_MASK: u32 = 0xffffffff;

pub const CNA_DCOMP_AMOUNT0_DCOMP_AMOUNT_SHIFT: u32 = 0;

impl Register<CnaDcompAmount0> {
    /// Amount (size) of the weight data to decompress for this
    pub fn dcomp_amount(&mut self, dcomp_amount: Bits<32>) -> (ret: &mut Self)
        ensures
            ret@ == with_field(old(self)@, CNA_DCOMP_AMOUNT0_DCOMP_AMOUNT_MASK, encode_field(dcomp_amount@, CNA_DCOMP_AMOUNT0_DCOMP_AMOUNT_SHIFT, CNA_DCOMP_AMOUNT0_DCOMP_AMOUNT_MASK)),
            *final(self) == *final(ret),
    {
        let encoded = encode(dcomp_amount.val(), CNA_DCOMP_AMOUNT0_DCOMP_AMOUNT_SHIFT, CNA_DCOMP_AMOUNT0_DCOMP_AMOUNT_MASK);
        self.set_field(CNA_DCOMP_AMOUNT0_DCOMP_AMOUNT_MASK, encoded)
    }
}

/// `CNA_DCOMP_AMOUNT1` offset.
pub const REG_CNA_DCOMP_AMOUNT1: u32 = 0x1144;

/// The `CNA_DCOMP_AMOUNT1` register.
#[derive(Debug, Clone, Copy)]
pub struct CnaDcompAmount1;

impl RegisterMeta for CnaDcompAmount1 {
    const DOMAIN: u32 = DOMAIN_CNA;
    const OFFSET: u32 = REG_CNA_DCOMP_AMOUNT1;
}

/// `CNA_DCOMP_AMOUNT1.dcomp_amount`: mask 0xffffffff, shift 0.
pub const CNA_DCOMP_AMOUNT1_DCOMP_AMOUNT_MASK: u32 = 0xffffffff;

pub const CNA_DCOMP_AMOUNT1_DCOMP_AMOUNT_SHIFT: u32 = 0;

impl Register<CnaDcompAmount1> {
    /// Amount (size) of the weight data to decompress for this
    pub fn dcomp_amount(&mut self, dcomp_amount: Bits<32>) -> (ret: &mut Self)
        ensures
            ret@ == with_field(old(self)@, CNA_DCOMP_AMOUNT1_DCOMP_AMOUNT_MASK, encode_field(dcomp_amount@, CNA_DCOMP_AMOUNT1_DCOMP_AMOUNT_SHIFT, CNA_DCOMP_AMOUNT1_DCOMP_AMOUNT_MASK)),
            *final(self) == *final(ret),
    {
        let encoded = encode(dcomp_amount.val(), CNA_DCOMP_AMOUNT1_DCOMP_AMOUNT_SHIFT, CNA_DCOMP_AMOUNT1_DCOMP_AMOUNT_MASK);
        self.set_field(CNA_DCOMP_AMOUNT1_DCOMP_AMOUNT_MASK, encoded)
    }
}

/// `CNA_DCOMP_AMOUNT2` offset.
pub const REG_CNA_DCOMP_AMOUNT2: u32 = 0x1148;

/// The `CNA_DCOMP_AMOUNT2` register.
#[derive(Debug, Clone, Copy)]
pub struct CnaDcompAmount2;

impl RegisterMeta for CnaDcompAmount2 {
    const DOMAIN: u32 = DOMAIN_CNA;
    const OFFSET: u32 = REG_CNA_DCOMP_AMOUNT2;
}

/// `CNA_DCOMP_AMOUNT2.dcomp_amount`: mask 0xffffffff, shift 0.
pub const CNA_DCOMP_AMOUNT2_DCOMP_AMOUNT_MASK: u32 = 0xffffffff;

pub const CNA_DCOMP_AMOUNT2_DCOMP_AMOUNT_SHIFT: u32 = 0;

impl Register<CnaDcompAmount2> {
    /// Amount (size) of the weight data to decompress for this
    pub fn dcomp_amount(&mut self, dcomp_amount: Bits<32>) -> (ret: &mut Self)
        ensures
            ret@ == with_field(old(self)@, CNA_DCOMP_AMOUNT2_DCOMP_AMOUNT_MASK, encode_field(dcomp_amount@, CNA_DCOMP_AMOUNT2_DCOMP_AMOUNT_SHIFT, CNA_DCOMP_AMOUNT2_DCOMP_AMOUNT_MASK)),
            *final(self) == *final(ret),
    {
        let encoded = encode(dcomp_amount.val(), CNA_DCOMP_AMOUNT2_DCOMP_AMOUNT_SHIFT, CNA_DCOMP_AMOUNT2_DCOMP_AMOUNT_MASK);
        self.set_field(CNA_DCOMP_AMOUNT2_DCOMP_AMOUNT_MASK, encoded)
    }
}

/// `CNA_DCOMP_AMOUNT3` offset.
pub const REG_CNA_DCOMP_AMOUNT3: u32 = 0x114c;

/// The `CNA_DCOMP_AMOUNT3` register.
#[derive(Debug, Clone, Copy)]
pub struct CnaDcompAmount3;

impl RegisterMeta for CnaDcompAmount3 {
    const DOMAIN: u32 = DOMAIN_CNA;
    const OFFSET: u32 = REG_CNA_DCOMP_AMOUNT3;
}

/// `CNA_DCOMP_AMOUNT3.dcomp_amount`: mask 0xffffffff, shift 0.
pub const CNA_DCOMP_AMOUNT3_DCOMP_AMOUNT_MASK: u32 = 0xffffffff;

pub const CNA_DCOMP_AMOUNT3_DCOMP_AMOUNT_SHIFT: u32 = 0;

impl Register<CnaDcompAmount3> {
    /// Amount (size) of the weight data to decompress for this
    pub fn dcomp_amount(&mut self, dcomp_amount: Bits<32>) -> (ret: &mut Self)
        ensures
            ret@ == with_field(old(self)@, CNA_DCOMP_AMOUNT3_DCOMP_AMOUNT_MASK, encode_field(dcomp_amount@, CNA_DCOMP_AMOUNT3_DCOMP_AMOUNT_SHIFT, CNA_DCOMP_AMOUNT3_DCOMP_AMOUNT_MASK)),
            *final(self) == *final(ret),
    {
        let encoded = encode(dcomp_amount.val(), CNA_DCOMP_AMOUNT3_DCOMP_AMOUNT_SHIFT, CNA_DCOMP_AMOUNT3_DCOMP_AMOUNT_MASK);
        self.set_field(CNA_DCOMP_AMOUNT3_DCOMP_AMOUNT_MASK, encoded)
    }
}

/// `CNA_DCOMP_AMOUNT4` offset.
pub const REG_CNA_DCOMP_AMOUNT4: u32 = 0x1150;

/// The `CNA_DCOMP_AMOUNT4` register.
#[derive(Debug, Clone, Copy)]
pub struct CnaDcompAmount4;

impl RegisterMeta for CnaDcompAmount4 {
    const DOMAIN: u32 = DOMAIN_CNA;
    const OFFSET: u32 = REG_CNA_DCOMP_AMOUNT4;
}

/// `CNA_DCOMP_AMOUNT4.dcomp_amount`: mask 0xffffffff, shift 0.
pub const CNA_DCOMP_AMOUNT4_DCOMP_AMOUNT_MASK: u32 = 0xffffffff;

pub const CNA_DCOMP_AMOUNT4_DCOMP_AMOUNT_SHIFT: u32 = 0;

impl Register<CnaDcompAmount4> {
    /// Amount (size) of the weight data to decompress for this
    pub fn dcomp_amount(&mut self, dcomp_amount: Bits<32>) -> (ret: &mut Self)
        ensures
            ret@ == with_field(old(self)@, CNA_DCOMP_AMOUNT4_DCOMP_AMOUNT_MASK, encode_field(dcomp_amount@, CNA_DCOMP_AMOUNT4_DCOMP_AMOUNT_SHIFT, CNA_DCOMP_AMOUNT4_DCOMP_AMOUNT_MASK)),
            *final(self) == *final(ret),
    {
        let encoded = encode(dcomp_amount.val(), CNA_DCOMP_AMOUNT4_DCOMP_AMOUNT_SHIFT, CNA_DCOMP_AMOUNT4_DCOMP_AMOUNT_MASK);
        self.set_field(CNA_DCOMP_AMOUNT4_DCOMP_AMOUNT_MASK, encoded)
    }
}

/// `CNA_DCOMP_AMOUNT5` offset.
pub const REG_CNA_DCOMP_AMOUNT5: u32 = 0x1154;

/// The `CNA_DCOMP_AMOUNT5` register.
#[derive(Debug, Clone, Copy)]
pub struct CnaDcompAmount5;

impl RegisterMeta for CnaDcompAmount5 {
    const DOMAIN: u32 = DOMAIN_CNA;
    const OFFSET: u32 = REG_CNA_DCOMP_AMOUNT5;
}

/// `CNA_DCOMP_AMOUNT5.dcomp_amount`: mask 0xffffffff, shift 0.
pub const CNA_DCOMP_AMOUNT5_DCOMP_AMOUNT_MASK: u32 = 0xffffffff;

pub const CNA_DCOMP_AMOUNT5_DCOMP_AMOUNT_SHIFT: u32 = 0;

impl Register<CnaDcompAmount5> {
    /// Amount (size) of the weight data to decompress for this
    pub fn dcomp_amount(&mut self, dcomp_amount: Bits<32>) -> (ret: &mut Self)
        ensures
            ret@ == with_field(old(self)@, CNA_DCOMP_AMOUNT5_DCOMP_AMOUNT_MASK, encode_field(dcomp_amount@, CNA_DCOMP_AMOUNT5_DCOMP_AMOUNT_SHIFT, CNA_DCOMP_AMOUNT5_DCOMP_AMOUNT_MASK)),
            *final(self) == *final(ret),
    {
        let encoded = encode(dcomp_amount.val(), CNA_DCOMP_AMOUNT5_DCOMP_AMOUNT_SHIFT, CNA_DCOMP_AMOUNT5_DCOMP_AMOUNT_MASK);
        self.set_field(CNA_DCOMP_AMOUNT5_DCOMP_AMOUNT_MASK, encoded)
    }
}

/// `CNA_DCOMP_AMOUNT6` offset.
pub const REG_CNA_DCOMP_AMOUNT6: u32 = 0x1158;

/// The `CNA_DCOMP_AMOUNT6` register.
#[derive(Debug, Clone, Copy)]
pub struct CnaDcompAmount6;

impl RegisterMeta for CnaDcompAmount6 {
    const DOMAIN: u32 = DOMAIN_CNA;
    const OFFSET: u32 = REG_CNA_DCOMP_AMOUNT6;
}

/// `CNA_DCOMP_AMOUNT6.dcomp_amount`: mask 0xffffffff, shift 0.
pub const CNA_DCOMP_AMOUNT6_DCOMP_AMOUNT_MASK: u32 = 0xffffffff;

pub const CNA_DCOMP_AMOUNT6_DCOMP_AMOUNT_SHIFT: u32 = 0;

impl Register<CnaDcompAmount6> {
    /// Amount (size) of the weight data to decompress for this
    pub fn dcomp_amount(&mut self, dcomp_amount: Bits<32>) -> (ret: &mut Self)
        ensures
            ret@ == with_field(old(self)@, CNA_DCOMP_AMOUNT6_DCOMP_AMOUNT_MASK, encode_field(dcomp_amount@, CNA_DCOMP_AMOUNT6_DCOMP_AMOUNT_SHIFT, CNA_DCOMP_AMOUNT6_DCOMP_AMOUNT_MASK)),
            *final(self) == *final(ret),
    {
        let encoded = encode(dcomp_amount.val(), CNA_DCOMP_AMOUNT6_DCOMP_AMOUNT_SHIFT, CNA_DCOMP_AMOUNT6_DCOMP_AMOUNT_MASK);
        self.set_field(CNA_DCOMP_AMOUNT6_DCOMP_AMOUNT_MASK, encoded)
    }
}

/// `CNA_DCOMP_AMOUNT7` offset.
pub const REG_CNA_DCOMP_AMOUNT7: u32 = 0x115c;

/// The `CNA_DCOMP_AMOUNT7` register.
#[derive(Debug, Clone, Copy)]
pub struct CnaDcompAmount7;

impl RegisterMeta for CnaDcompAmount7 {
    const DOMAIN: u32 = DOMAIN_CNA;
    const OFFSET: u32 = REG_CNA_DCOMP_AMOUNT7;
}

/// `CNA_DCOMP_AMOUNT7.dcomp_amount`: mask 0xffffffff, shift 0.
pub const CNA_DCOMP_AMOUNT7_DCOMP_AMOUNT_MASK: u32 = 0xffffffff;

pub const CNA_DCOMP_AMOUNT7_DCOMP_AMOUNT_SHIFT: u32 = 0;

impl Register<CnaDcompAmount7> {
    /// Amount (size) of the weight data to decompress for this
    pub fn dcomp_amount(&mut self, dcomp_amount: Bits<32>) -> (ret: &mut Self)
        ensures
            ret@ == with_field(old(self)@, CNA_DCOMP_AMOUNT7_DCOMP_AMOUNT_MASK, encode_field(dcomp_amount@, CNA_DCOMP_AMOUNT7_DCOMP_AMOUNT_SHIFT, CNA_DCOMP_AMOUNT7_DCOMP_AMOUNT_MASK)),
            *final(self) == *final(ret),
    {
        let encoded = encode(dcomp_amount.val(), CNA_DCOMP_AMOUNT7_DCOMP_AMOUNT_SHIFT, CNA_DCOMP_AMOUNT7_DCOMP_AMOUNT_MASK);
        self.set_field(CNA_DCOMP_AMOUNT7_DCOMP_AMOUNT_MASK, encoded)
    }
}

/// `CNA_DCOMP_AMOUNT8` offset.
pub const REG_CNA_DCOMP_AMOUNT8: u32 = 0x1160;

/// The `CNA_DCOMP_AMOUNT8` register.
#[derive(Debug, Clone, Copy)]
pub struct CnaDcompAmount8;

impl RegisterMeta for CnaDcompAmount8 {
    const DOMAIN: u32 = DOMAIN_CNA;
    const OFFSET: u32 = REG_CNA_DCOMP_AMOUNT8;
}

/// `CNA_DCOMP_AMOUNT8.dcomp_amount`: mask 0xffffffff, shift 0.
pub const CNA_DCOMP_AMOUNT8_DCOMP_AMOUNT_MASK: u32 = 0xffffffff;

pub const CNA_DCOMP_AMOUNT8_DCOMP_AMOUNT_SHIFT: u32 = 0;

impl Register<CnaDcompAmount8> {
    /// Amount (size) of the weight data to decompress for this
    pub fn dcomp_amount(&mut self, dcomp_amount: Bits<32>) -> (ret: &mut Self)
        ensures
            ret@ == with_field(old(self)@, CNA_DCOMP_AMOUNT8_DCOMP_AMOUNT_MASK, encode_field(dcomp_amount@, CNA_DCOMP_AMOUNT8_DCOMP_AMOUNT_SHIFT, CNA_DCOMP_AMOUNT8_DCOMP_AMOUNT_MASK)),
            *final(self) == *final(ret),
    {
        let encoded = encode(dcomp_amount.val(), CNA_DCOMP_AMOUNT8_DCOMP_AMOUNT_SHIFT, CNA_DCOMP_AMOUNT8_DCOMP_AMOUNT_MASK);
        self.set_field(CNA_DCOMP_AMOUNT8_DCOMP_AMOUNT_MASK, encoded)
    }
}

/// `CNA_DCOMP_AMOUNT9` offset.
pub const REG_CNA_DCOMP_AMOUNT9: u32 = 0x1164;

/// The `CNA_DCOMP_AMOUNT9` register.
#[derive(Debug, Clone, Copy)]
pub struct CnaDcompAmount9;

impl RegisterMeta for CnaDcompAmount9 {
    const DOMAIN: u32 = DOMAIN_CNA;
    const OFFSET: u32 = REG_CNA_DCOMP_AMOUNT9;
}

/// `CNA_DCOMP_AMOUNT9.dcomp_amount`: mask 0xffffffff, shift 0.
pub const CNA_DCOMP_AMOUNT9_DCOMP_AMOUNT_MASK: u32 = 0xffffffff;

pub const CNA_DCOMP_AMOUNT9_DCOMP_AMOUNT_SHIFT: u32 = 0;

impl Register<CnaDcompAmount9> {
    /// Amount (size) of the weight data to decompress for this
    pub fn dcomp_amount(&mut self, dcomp_amount: Bits<32>) -> (ret: &mut Self)
        ensures
            ret@ == with_field(old(self)@, CNA_DCOMP_AMOUNT9_DCOMP_AMOUNT_MASK, encode_field(dcomp_amount@, CNA_DCOMP_AMOUNT9_DCOMP_AMOUNT_SHIFT, CNA_DCOMP_AMOUNT9_DCOMP_AMOUNT_MASK)),
            *final(self) == *final(ret),
    {
        let encoded = encode(dcomp_amount.val(), CNA_DCOMP_AMOUNT9_DCOMP_AMOUNT_SHIFT, CNA_DCOMP_AMOUNT9_DCOMP_AMOUNT_MASK);
        self.set_field(CNA_DCOMP_AMOUNT9_DCOMP_AMOUNT_MASK, encoded)
    }
}

/// `CNA_DCOMP_AMOUNT10` offset.
pub const REG_CNA_DCOMP_AMOUNT10: u32 = 0x1168;

/// The `CNA_DCOMP_AMOUNT10` register.
#[derive(Debug, Clone, Copy)]
pub struct CnaDcompAmount10;

impl RegisterMeta for CnaDcompAmount10 {
    const DOMAIN: u32 = DOMAIN_CNA;
    const OFFSET: u32 = REG_CNA_DCOMP_AMOUNT10;
}

/// `CNA_DCOMP_AMOUNT10.dcomp_amount`: mask 0xffffffff, shift 0.
pub const CNA_DCOMP_AMOUNT10_DCOMP_AMOUNT_MASK: u32 = 0xffffffff;

pub const CNA_DCOMP_AMOUNT10_DCOMP_AMOUNT_SHIFT: u32 = 0;

impl Register<CnaDcompAmount10> {
    /// Amount (size) of the weight data to decompress for this
    pub fn dcomp_amount(&mut self, dcomp_amount: Bits<32>) -> (ret: &mut Self)
        ensures
            ret@ == with_field(old(self)@, CNA_DCOMP_AMOUNT10_DCOMP_AMOUNT_MASK, encode_field(dcomp_amount@, CNA_DCOMP_AMOUNT10_DCOMP_AMOUNT_SHIFT, CNA_DCOMP_AMOUNT10_DCOMP_AMOUNT_MASK)),
            *final(self) == *final(ret),
    {
        let encoded = encode(dcomp_amount.val(), CNA_DCOMP_AMOUNT10_DCOMP_AMOUNT_SHIFT, CNA_DCOMP_AMOUNT10_DCOMP_AMOUNT_MASK);
        self.set_field(CNA_DCOMP_AMOUNT10_DCOMP_AMOUNT_MASK, encoded)
    }
}

/// `CNA_DCOMP_AMOUNT11` offset.
pub const REG_CNA_DCOMP_AMOUNT11: u32 = 0x116c;

/// The `CNA_DCOMP_AMOUNT11` register.
#[derive(Debug, Clone, Copy)]
pub struct CnaDcompAmount11;

impl RegisterMeta for CnaDcompAmount11 {
    const DOMAIN: u32 = DOMAIN_CNA;
    const OFFSET: u32 = REG_CNA_DCOMP_AMOUNT11;
}

/// `CNA_DCOMP_AMOUNT11.dcomp_amount`: mask 0xffffffff, shift 0.
pub const CNA_DCOMP_AMOUNT11_DCOMP_AMOUNT_MASK: u32 = 0xffffffff;

pub const CNA_DCOMP_AMOUNT11_DCOMP_AMOUNT_SHIFT: u32 = 0;

impl Register<CnaDcompAmount11> {
    /// Amount (size) of the weight data to decompress for this
    pub fn dcomp_amount(&mut self, dcomp_amount: Bits<32>) -> (ret: &mut Self)
        ensures
            ret@ == with_field(old(self)@, CNA_DCOMP_AMOUNT11_DCOMP_AMOUNT_MASK, encode_field(dcomp_amount@, CNA_DCOMP_AMOUNT11_DCOMP_AMOUNT_SHIFT, CNA_DCOMP_AMOUNT11_DCOMP_AMOUNT_MASK)),
            *final(self) == *final(ret),
    {
        let encoded = encode(dcomp_amount.val(), CNA_DCOMP_AMOUNT11_DCOMP_AMOUNT_SHIFT, CNA_DCOMP_AMOUNT11_DCOMP_AMOUNT_MASK);
        self.set_field(CNA_DCOMP_AMOUNT11_DCOMP_AMOUNT_MASK, encoded)
    }
}

/// `CNA_DCOMP_AMOUNT12` offset.
pub const REG_CNA_DCOMP_AMOUNT12: u32 = 0x1170;

/// The `CNA_DCOMP_AMOUNT12` register.
#[derive(Debug, Clone, Copy)]
pub struct CnaDcompAmount12;

impl RegisterMeta for CnaDcompAmount12 {
    const DOMAIN: u32 = DOMAIN_CNA;
    const OFFSET: u32 = REG_CNA_DCOMP_AMOUNT12;
}

/// `CNA_DCOMP_AMOUNT12.dcomp_amount`: mask 0xffffffff, shift 0.
pub const CNA_DCOMP_AMOUNT12_DCOMP_AMOUNT_MASK: u32 = 0xffffffff;

pub const CNA_DCOMP_AMOUNT12_DCOMP_AMOUNT_SHIFT: u32 = 0;

impl Register<CnaDcompAmount12> {
    /// Amount (size) of the weight data to decompress for this
    pub fn dcomp_amount(&mut self, dcomp_amount: Bits<32>) -> (ret: &mut Self)
        ensures
            ret@ == with_field(old(self)@, CNA_DCOMP_AMOUNT12_DCOMP_AMOUNT_MASK, encode_field(dcomp_amount@, CNA_DCOMP_AMOUNT12_DCOMP_AMOUNT_SHIFT, CNA_DCOMP_AMOUNT12_DCOMP_AMOUNT_MASK)),
            *final(self) == *final(ret),
    {
        let encoded = encode(dcomp_amount.val(), CNA_DCOMP_AMOUNT12_DCOMP_AMOUNT_SHIFT, CNA_DCOMP_AMOUNT12_DCOMP_AMOUNT_MASK);
        self.set_field(CNA_DCOMP_AMOUNT12_DCOMP_AMOUNT_MASK, encoded)
    }
}

/// `CNA_DCOMP_AMOUNT13` offset.
pub const REG_CNA_DCOMP_AMOUNT13: u32 = 0x1174;

/// The `CNA_DCOMP_AMOUNT13` register.
#[derive(Debug, Clone, Copy)]
pub struct CnaDcompAmount13;

impl RegisterMeta for CnaDcompAmount13 {
    const DOMAIN: u32 = DOMAIN_CNA;
    const OFFSET: u32 = REG_CNA_DCOMP_AMOUNT13;
}

/// `CNA_DCOMP_AMOUNT13.dcomp_amount`: mask 0xffffffff, shift 0.
pub const CNA_DCOMP_AMOUNT13_DCOMP_AMOUNT_MASK: u32 = 0xffffffff;

pub const CNA_DCOMP_AMOUNT13_DCOMP_AMOUNT_SHIFT: u32 = 0;

impl Register<CnaDcompAmount13> {
    /// Amount (size) of the weight data to decompress for this
    pub fn dcomp_amount(&mut self, dcomp_amount: Bits<32>) -> (ret: &mut Self)
        ensures
            ret@ == with_field(old(self)@, CNA_DCOMP_AMOUNT13_DCOMP_AMOUNT_MASK, encode_field(dcomp_amount@, CNA_DCOMP_AMOUNT13_DCOMP_AMOUNT_SHIFT, CNA_DCOMP_AMOUNT13_DCOMP_AMOUNT_MASK)),
            *final(self) == *final(ret),
    {
        let encoded = encode(dcomp_amount.val(), CNA_DCOMP_AMOUNT13_DCOMP_AMOUNT_SHIFT, CNA_DCOMP_AMOUNT13_DCOMP_AMOUNT_MASK);
        self.set_field(CNA_DCOMP_AMOUNT13_DCOMP_AMOUNT_MASK, encoded)
    }
}

/// `CNA_DCOMP_AMOUNT14` offset.
pub const REG_CNA_DCOMP_AMOUNT14: u32 = 0x1178;

/// The `CNA_DCOMP_AMOUNT14` register.
#[derive(Debug, Clone, Copy)]
pub struct CnaDcompAmount14;

impl RegisterMeta for CnaDcompAmount14 {
    const DOMAIN: u32 = DOMAIN_CNA;
    const OFFSET: u32 = REG_CNA_DCOMP_AMOUNT14;
}

/// `CNA_DCOMP_AMOUNT14.dcomp_amount`: mask 0xffffffff, shift 0.
pub const CNA_DCOMP_AMOUNT14_DCOMP_AMOUNT_MASK: u32 = 0xffffffff;

pub const CNA_DCOMP_AMOUNT14_DCOMP_AMOUNT_SHIFT: u32 = 0;

impl Register<CnaDcompAmount14> {
    /// Amount (size) of the weight data to decompress for this
    pub fn dcomp_amount(&mut self, dcomp_amount: Bits<32>) -> (ret: &mut Self)
        ensures
            ret@ == with_field(old(self)@, CNA_DCOMP_AMOUNT14_DCOMP_AMOUNT_MASK, encode_field(dcomp_amount@, CNA_DCOMP_AMOUNT14_DCOMP_AMOUNT_SHIFT, CNA_DCOMP_AMOUNT14_DCOMP_AMOUNT_MASK)),
            *final(self) == *final(ret),
    {
        let encoded = encode(dcomp_amount.val(), CNA_DCOMP_AMOUNT14_DCOMP_AMOUNT_SHIFT, CNA_DCOMP_AMOUNT14_DCOMP_AMOUNT_MASK);
        self.set_field(CNA_DCOMP_AMOUNT14_DCOMP_AMOUNT_MASK, encoded)
    }
}

/// `CNA_DCOMP_AMOUNT15` offset.
pub const REG_CNA_DCOMP_AMOUNT15: u32 = 0x117c;

/// The `CNA_DCOMP_AMOUNT15` register.
#[derive(Debug, Clone, Copy)]
pub struct CnaDcompAmount15;

impl RegisterMeta for CnaDcompAmount15 {
    const DOMAIN: u32 = DOMAIN_CNA;
    const OFFSET: u32 = REG_CNA_DCOMP_AMOUNT15;
}

/// `CNA_DCOMP_AMOUNT15.dcomp_amount`: mask 0xffffffff, shift 0.
pub const CNA_DCOMP_AMOUNT15_DCOMP_AMOUNT_MASK: u32 = 0xffffffff;

pub const CNA_DCOMP_AMOUNT15_DCOMP_AMOUNT_SHIFT: u32 = 0;

impl Register<CnaDcompAmount15> {
    /// Amount (size) of the weight data to decompress for this
    pub fn dcomp_amount(&mut self, dcomp_amount: Bits<32>) -> (ret: &mut Self)
        ensures
            ret@ == with_field(old(self)@, CNA_DCOMP_AMOUNT15_DCOMP_AMOUNT_MASK, encode_field(dcomp_amount@, CNA_DCOMP_AMOUNT15_DCOMP_AMOUNT_SHIFT, CNA_DCOMP_AMOUNT15_DCOMP_AMOUNT_MASK)),
            *final(self) == *final(ret),
    {
        let encoded = encode(dcomp_amount.val(), CNA_DCOMP_AMOUNT15_DCOMP_AMOUNT_SHIFT, CNA_DCOMP_AMOUNT15_DCOMP_AMOUNT_MASK);
        self.set_field(CNA_DCOMP_AMOUNT15_DCOMP_AMOUNT_MASK, encoded)
    }
}

/// `CNA_CVT_CON5` offset.
pub const REG_CNA_CVT_CON5: u32 = 0x1180;

/// The `CNA_CVT_CON5` register.
#[derive(Debug, Clone, Copy)]
pub struct CnaCvtCon5;

impl RegisterMeta for CnaCvtCon5 {
    const DOMAIN: u32 = DOMAIN_CNA;
    const OFFSET: u32 = REG_CNA_CVT_CON5;
}

/// `CNA_CVT_CON5.per_channel_cvt_en`: mask 0xffffffff, shift 0.
pub const CNA_CVT_CON5_PER_CHANNEL_CVT_EN_MASK: u32 = 0xffffffff;

pub const CNA_CVT_CON5_PER_CHANNEL_CVT_EN_SHIFT: u32 = 0;

impl Register<CnaCvtCon5> {
    /// Per-channel enable mask for the input convert (CVT) function.
    pub fn per_channel_cvt_en(&mut self, per_channel_cvt_en: Bits<32>) -> (ret: &mut Self)
        ensures
            ret@ == with_field(old(self)@, CNA_CVT_CON5_PER_CHANNEL_CVT_EN_MASK, encode_field(per_channel_cvt_en@, CNA_CVT_CON5_PER_CHANNEL_CVT_EN_SHIFT, CNA_CVT_CON5_PER_CHANNEL_CVT_EN_MASK)),
            *final(self) == *final(ret),
    {
        let encoded = encode(per_channel_cvt_en.val(), CNA_CVT_CON5_PER_CHANNEL_CVT_EN_SHIFT, CNA_CVT_CON5_PER_CHANNEL_CVT_EN_MASK);
        self.set_field(CNA_CVT_CON5_PER_CHANNEL_CVT_EN_MASK, encoded)
    }
}

/// `CNA_PAD_CON1` offset.
pub const REG_CNA_PAD_CON1: u32 = 0x1184;

/// The `CNA_PAD_CON1` register.
#[derive(Debug, Clone, Copy)]
pub struct CnaPadCon1;

impl RegisterMeta for CnaPadCon1 {
    const DOMAIN: u32 = DOMAIN_CNA;
    const OFFSET: u32 = REG_CNA_PAD_CON1;
}

/// `CNA_PAD_CON1.pad_value`: mask 0xffffffff, shift 0.
pub const CNA_PAD_CON1_PAD_VALUE_MASK: u32 = 0xffffffff;

pub const CNA_PAD_CON1_PAD_VALUE_SHIFT: u32 = 0;

impl Register<CnaPadCon1> {
    /// The value used to fill padded feature-map cells.
    pub fn pad_value(&mut self, pad_value: Bits<32>) -> (ret: &mut Self)
        ensures
            ret@ == with_field(old(self)@, CNA_PAD_CON1_PAD_VALUE_MASK, encode_field(pad_value@, CNA_PAD_CON1_PAD_VALUE_SHIFT, CNA_PAD_CON1_PAD_VALUE_MASK)),
            *final(self) == *final(ret),
    {
        let encoded = encode(pad_value.val(), CNA_PAD_CON1_PAD_VALUE_SHIFT, CNA_PAD_CON1_PAD_VALUE_MASK);
        self.set_field(CNA_PAD_CON1_PAD_VALUE_MASK, encoded)
    }
}

/// The domain and offset each register of this block names.
pub proof fn lemma_register_identities()
    ensures
        CnaSPointer::DOMAIN == DOMAIN_CNA,
        CnaSPointer::OFFSET == REG_CNA_S_POINTER,
        CnaOperationEnable::DOMAIN == DOMAIN_CNA,
        CnaOperationEnable::OFFSET == REG_CNA_OPERATION_ENABLE,
        CnaConvCon1::DOMAIN == DOMAIN_CNA,
        CnaConvCon1::OFFSET == REG_CNA_CONV_CON1,
        CnaConvCon2::DOMAIN == DOMAIN_CNA,
        CnaConvCon2::OFFSET == REG_CNA_CONV_CON2,
        CnaConvCon3::DOMAIN == DOMAIN_CNA,
        CnaConvCon3::OFFSET == REG_CNA_CONV_CON3,
        CnaDataSize0::DOMAIN == DOMAIN_CNA,
        CnaDataSize0::OFFSET == REG_CNA_DATA_SIZE0,
        CnaDataSize1::DOMAIN == DOMAIN_CNA,
        CnaDataSize1::OFFSET == REG_CNA_DATA_SIZE1,
        CnaDataSize2::DOMAIN == DOMAIN_CNA,
        CnaDataSize2::OFFSET == REG_CNA_DATA_SIZE2,
        CnaDataSize3::DOMAIN == DOMAIN_CNA,
        CnaDataSize3::OFFSET == REG_CNA_DATA_SIZE3,
        CnaWeightSize0::DOMAIN == DOMAIN_CNA,
        CnaWeightSize0::OFFSET == REG_CNA_WEIGHT_SIZE0,
        CnaWeightSize1::DOMAIN == DOMAIN_CNA,
        CnaWeightSize1::OFFSET == REG_CNA_WEIGHT_SIZE1,
        CnaWeightSize2::DOMAIN == DOMAIN_CNA,
        CnaWeightSize2::OFFSET == REG_CNA_WEIGHT_SIZE2,
        CnaCbufCon0::DOMAIN == DOMAIN_CNA,
        CnaCbufCon0::OFFSET == REG_CNA_CBUF_CON0,
        CnaCbufCon1::DOMAIN == DOMAIN_CNA,
        CnaCbufCon1::OFFSET == REG_CNA_CBUF_CON1,
        CnaCvtCon0::DOMAIN == DOMAIN_CNA,
        CnaCvtCon0::OFFSET == REG_CNA_CVT_CON0,
        CnaCvtCon1::DOMAIN == DOMAIN_CNA,
        CnaCvtCon1::OFFSET == REG_CNA_CVT_CON1,
        CnaCvtCon2::DOMAIN == DOMAIN_CNA,
        CnaCvtCon2::OFFSET == REG_CNA_CVT_CON2,
        CnaCvtCon3::DOMAIN == DOMAIN_CNA,
        CnaCvtCon3::OFFSET == REG_CNA_CVT_CON3,
        CnaCvtCon4::DOMAIN == DOMAIN_CNA,
        CnaCvtCon4::OFFSET == REG_CNA_CVT_CON4,
        CnaFcCon0::DOMAIN == DOMAIN_CNA,
        CnaFcCon0::OFFSET == REG_CNA_FC_CON0,
        CnaFcCon1::DOMAIN == DOMAIN_CNA,
        CnaFcCon1::OFFSET == REG_CNA_FC_CON1,
        CnaPadCon0::DOMAIN == DOMAIN_CNA,
        CnaPadCon0::OFFSET == REG_CNA_PAD_CON0,
        CnaFeatureDataAddr::DOMAIN == DOMAIN_CNA,
        CnaFeatureDataAddr::OFFSET == REG_CNA_FEATURE_DATA_ADDR,
        CnaFcCon2::DOMAIN == DOMAIN_CNA,
        CnaFcCon2::OFFSET == REG_CNA_FC_CON2,
        CnaDmaCon0::DOMAIN == DOMAIN_CNA,
        CnaDmaCon0::OFFSET == REG_CNA_DMA_CON0,
        CnaDmaCon1::DOMAIN == DOMAIN_CNA,
        CnaDmaCon1::OFFSET == REG_CNA_DMA_CON1,
        CnaDmaCon2::DOMAIN == DOMAIN_CNA,
        CnaDmaCon2::OFFSET == REG_CNA_DMA_CON2,
        CnaFcDataSize0::DOMAIN == DOMAIN_CNA,
        CnaFcDataSize0::OFFSET == REG_CNA_FC_DATA_SIZE0,
        CnaFcDataSize1::DOMAIN == DOMAIN_CNA,
        CnaFcDataSize1::OFFSET == REG_CNA_FC_DATA_SIZE1,
        CnaClkGate::DOMAIN == DOMAIN_CNA,
        CnaClkGate::OFFSET == REG_CNA_CLK_GATE,
        CnaDcompCtrl::DOMAIN == DOMAIN_CNA,
        CnaDcompCtrl::OFFSET == REG_CNA_DCOMP_CTRL,
        CnaDcompRegnum::DOMAIN == DOMAIN_CNA,
        CnaDcompRegnum::OFFSET == REG_CNA_DCOMP_REGNUM,
        CnaDcompAddr0::DOMAIN == DOMAIN_CNA,
        CnaDcompAddr0::OFFSET == REG_CNA_DCOMP_ADDR0,
        CnaDcompAmount0::DOMAIN == DOMAIN_CNA,
        CnaDcompAmount0::OFFSET == REG_CNA_DCOMP_AMOUNT0,
        CnaDcompAmount1::DOMAIN == DOMAIN_CNA,
        CnaDcompAmount1::OFFSET == REG_CNA_DCOMP_AMOUNT1,
        CnaDcompAmount2::DOMAIN == DOMAIN_CNA,
        CnaDcompAmount2::OFFSET == REG_CNA_DCOMP_AMOUNT2,
        CnaDcompAmount3::DOMAIN == DOMAIN_CNA,
        CnaDcompAmount3::OFFSET == REG_CNA_DCOMP_AMOUNT3,
        CnaDcompAmount4::DOMAIN == DOMAIN_CNA,
        CnaDcompAmount4::OFFSET == REG_CNA_DCOMP_AMOUNT4,
        CnaDcompAmount5::DOMAIN == DOMAIN_CNA,
        CnaDcompAmount5::OFFSET == REG_CNA_DCOMP_AMOUNT5,
        CnaDcompAmount6::DOMAIN == DOMAIN_CNA,
        CnaDcompAmount6::OFFSET == REG_CNA_DCOMP_AMOUNT6,
        CnaDcompAmount7::DOMAIN == DOMAIN_CNA,
        CnaDcompAmount7::OFFSET == REG_CNA_DCOMP_AMOUNT7,
        CnaDcompAmount8::DOMAIN == DOMAIN_CNA,
        CnaDcompAmount8::OFFSET == REG_CNA_DCOMP_AMOUNT8,
        CnaDcompAmount9::DOMAIN == DOMAIN_CNA,
        CnaDcompAmount9::OFFSET == REG_CNA_DCOMP_AMOUNT9,
        CnaDcompAmount10::DOMAIN == DOMAIN_CNA,
        CnaDcompAmount10::OFFSET == REG_CNA_DCOMP_AMOUNT10,
        CnaDcompAmount11::DOMAIN == DOMAIN_CNA,
        CnaDcompAmount11::OFFSET == REG_CNA_DCOMP_AMOUNT11,
        CnaDcompAmount12::DOMAIN == DOMAIN_CNA,
        CnaDcompAmount12::OFFSET == REG_CNA_DCOMP_AMOUNT12,
        CnaDcompAmount13::DOMAIN == DOMAIN_CNA,
        CnaDcompAmount13::OFFSET == REG_CNA_DCOMP_AMOUNT13,
        CnaDcompAmount14::DOMAIN == DOMAIN_CNA,
        CnaDcompAmount14::OFFSET == REG_CNA_DCOMP_AMOUNT14,
        CnaDcompAmount15::DOMAIN == DOMAIN_CNA,
        CnaDcompAmount15::OFFSET == REG_CNA_DCOMP_AMOUNT15,
        CnaCvtCon5::DOMAIN == DOMAIN_CNA,
        CnaCvtCon5::OFFSET == REG_CNA_CVT_CON5,
        CnaPadCon1::DOMAIN == DOMAIN_CNA,
        CnaPadCon1::OFFSET == REG_CNA_PAD_CON1,
{
}

} // verus!
