//! Named values shared by several register-field builders.
//!
//! The setters still take [`Bits`], so a caller can use an undocumented
//! encoding when needed; these enums cover the stable, repeatedly used
//! encodings and convert to the matching field width.
use crate::builders::Bits;
use vstd::arithmetic::power2::lemma2_to64;
use vstd::prelude::*;

verus! {

/// Numeric precision encodings shared by CNA, CORE, DPU and DPU_RDMA.
///
/// Only encodings with the same meaning in all four blocks are included;
/// other values (FP32 in DPU, for instance) go through the `Bits<3>` setters.
#[derive(Debug, Clone, Copy, PartialEq, Eq, Structural)]
pub enum DataPrecision {
    Int8,
    Int16,
    Fp16,
    Bf16,
    Int4,
    /// 10-bit mantissa with fp32 range in a 4-byte container; CNA and CORE only
    /// (the DPU output stage has no tf32 code).
    Tf32,
}

/// The wire encoding of each [`DataPrecision`].
pub open spec fn data_precision_code(precision: DataPrecision) -> u32 {
    match precision {
        DataPrecision::Int8 => 0,
        DataPrecision::Int16 => 1,
        DataPrecision::Fp16 => 2,
        DataPrecision::Bf16 => 3,
        DataPrecision::Int4 => 6,
        DataPrecision::Tf32 => 7,
    }
}

impl From<DataPrecision> for Bits<3> {
    fn from(precision: DataPrecision) -> (r: Self)
        ensures
            r@ == data_precision_code(precision),
    {
        let code: u32 = match precision {
            DataPrecision::Int8 => 0,
            DataPrecision::Int16 => 1,
            DataPrecision::Fp16 => 2,
            DataPrecision::Bf16 => 3,
            DataPrecision::Int4 => 6,
            DataPrecision::Tf32 => 7,
        };
        proof {
            lemma2_to64();
        }
        Self::new(code)
    }
}

impl vstd::std_specs::convert::FromSpecImpl<DataPrecision> for Bits<3> {
    open spec fn obeys_from_spec() -> bool {
        true
    }

    open spec fn from_spec(precision: DataPrecision) -> Self {
        Bits::<3>::spec_new(data_precision_code(precision))
    }
}

/// Precision encodings the DPU output stage accepts.
///
/// Separate from [`DataPrecision`]: at the output stage 4 is int32 and 5 is
/// fp32, and there is no tf32 code.
#[derive(Debug, Clone, Copy, PartialEq, Eq, Structural)]
pub enum OutputPrecision {
    Int8,
    Int16,
    Fp16,
    Bf16,
    Int32,
    Fp32,
    Int4,
}

/// The wire encoding of each [`OutputPrecision`].
pub open spec fn output_precision_code(precision: OutputPrecision) -> u32 {
    match precision {
        OutputPrecision::Int8 => 0,
        OutputPrecision::Int16 => 1,
        OutputPrecision::Fp16 => 2,
        OutputPrecision::Bf16 => 3,
        OutputPrecision::Int32 => 4,
        OutputPrecision::Fp32 => 5,
        OutputPrecision::Int4 => 6,
    }
}

impl From<OutputPrecision> for Bits<3> {
    fn from(precision: OutputPrecision) -> (r: Self)
        ensures
            r@ == output_precision_code(precision),
    {
        let code: u32 = match precision {
            OutputPrecision::Int8 => 0,
            OutputPrecision::Int16 => 1,
            OutputPrecision::Fp16 => 2,
            OutputPrecision::Bf16 => 3,
            OutputPrecision::Int32 => 4,
            OutputPrecision::Fp32 => 5,
            OutputPrecision::Int4 => 6,
        };
        proof {
            lemma2_to64();
        }
        Self::new(code)
    }
}

impl vstd::std_specs::convert::FromSpecImpl<OutputPrecision> for Bits<3> {
    open spec fn obeys_from_spec() -> bool {
        true
    }

    open spec fn from_spec(precision: OutputPrecision) -> Self {
        Bits::<3>::spec_new(output_precision_code(precision))
    }
}

/// AXI burst-length encodings shared by CNA, DPU and DPU_RDMA.
#[derive(Debug, Clone, Copy, PartialEq, Eq, Structural)]
pub enum BurstLength {
    Four,
    Eight,
    Sixteen,
}

/// The wire encoding of each [`BurstLength`].
pub open spec fn burst_length_code(length: BurstLength) -> u32 {
    match length {
        BurstLength::Four => 3,
        BurstLength::Eight => 7,
        BurstLength::Sixteen => 15,
    }
}

impl From<BurstLength> for Bits<4> {
    fn from(length: BurstLength) -> (r: Self)
        ensures
            r@ == burst_length_code(length),
    {
        let code: u32 = match length {
            BurstLength::Four => 3,
            BurstLength::Eight => 7,
            BurstLength::Sixteen => 15,
        };
        proof {
            lemma2_to64();
        }
        Self::new(code)
    }
}

impl vstd::std_specs::convert::FromSpecImpl<BurstLength> for Bits<4> {
    open spec fn obeys_from_spec() -> bool {
        true
    }

    open spec fn from_spec(length: BurstLength) -> Self {
        Bits::<4>::spec_new(burst_length_code(length))
    }
}

/// CNA non-aligned ARGB input mode.
#[derive(Debug, Clone, Copy, PartialEq, Eq, Structural)]
pub enum ArgbInputMode {
    OneChannel,
    TwoChannels,
    ThreeChannels,
    FourChannels,
}

/// The wire encoding of each [`ArgbInputMode`].
pub open spec fn argb_input_mode_code(mode: ArgbInputMode) -> u32 {
    match mode {
        ArgbInputMode::OneChannel => 8,
        ArgbInputMode::TwoChannels => 9,
        ArgbInputMode::ThreeChannels => 10,
        ArgbInputMode::FourChannels => 11,
    }
}

impl From<ArgbInputMode> for Bits<4> {
    fn from(mode: ArgbInputMode) -> (r: Self)
        ensures
            r@ == argb_input_mode_code(mode),
    {
        let code: u32 = match mode {
            ArgbInputMode::OneChannel => 8,
            ArgbInputMode::TwoChannels => 9,
            ArgbInputMode::ThreeChannels => 10,
            ArgbInputMode::FourChannels => 11,
        };
        proof {
            lemma2_to64();
        }
        Self::new(code)
    }
}

impl vstd::std_specs::convert::FromSpecImpl<ArgbInputMode> for Bits<4> {
    open spec fn obeys_from_spec() -> bool {
        true
    }

    open spec fn from_spec(mode: ArgbInputMode) -> Self {
        Bits::<4>::spec_new(argb_input_mode_code(mode))
    }
}

/// Destinations selected by the DPU feature-mode `output_mode` field.
#[derive(Debug, Clone, Copy, PartialEq, Eq, Structural)]
pub enum DpuOutputMode {
    Disabled,
    Ppu,
    ExternalMemory,
    PpuAndExternalMemory,
}

/// The wire encoding of each [`DpuOutputMode`].
pub open spec fn dpu_output_mode_code(mode: DpuOutputMode) -> u32 {
    match mode {
        DpuOutputMode::Disabled => 0,
        DpuOutputMode::Ppu => 1,
        DpuOutputMode::ExternalMemory => 2,
        DpuOutputMode::PpuAndExternalMemory => 3,
    }
}

impl From<DpuOutputMode> for Bits<2> {
    fn from(mode: DpuOutputMode) -> (r: Self)
        ensures
            r@ == dpu_output_mode_code(mode),
    {
        let code: u32 = match mode {
            DpuOutputMode::Disabled => 0,
            DpuOutputMode::Ppu => 1,
            DpuOutputMode::ExternalMemory => 2,
            DpuOutputMode::PpuAndExternalMemory => 3,
        };
        proof {
            lemma2_to64();
        }
        Self::new(code)
    }
}

impl vstd::std_specs::convert::FromSpecImpl<DpuOutputMode> for Bits<2> {
    open spec fn obeys_from_spec() -> bool {
        true
    }

    open spec fn from_spec(mode: DpuOutputMode) -> Self {
        Bits::<2>::spec_new(dpu_output_mode_code(mode))
    }
}

} // verus!
