//! Element-wise (EW) tensor ops on the DPU's EW/ERDMA block: the task
//! shapes and the buffers they read and write.
use vstd::prelude::*;

verus! {

/// Element precision of an EW add/subtract task.
#[derive(Clone, Copy, Debug, PartialEq, Eq, Structural)]
pub enum EwPrecision {
    Fp16,
    Int8,
}

/// DMA addresses of a standalone EW add/subtract task.
pub struct EwAddBuffers {
    /// The primary operand, fetched through DPU_RDMA's main path; the
    /// producing conv's output when chained after one.
    pub intermediate_addr: u32,
    /// The second tensor, fetched through ERDMA.
    pub w_addr: u32,
    pub output_addr: u32,
}

/// DMA addresses for a conv-then-EW-add/subtract pipeline.
/// `intermediate_addr` is the inter-task buffer the CPU never touches.
pub struct ConvThenAddBuffers {
    pub input_addr: u32,
    pub weights_addr: u32,
    pub bias_addr: u32,
    pub intermediate_addr: u32,
    pub w_addr: u32,
    pub output_addr: u32,
}

/// A single-tensor EW-ALU operation.
#[derive(Clone, Copy, Debug, PartialEq, Eq, Structural)]
pub enum EwUnaryAlgo {
    /// Scalar plus constant ([`EwUnaryShape::operand`]).
    Add,
    Abs,
    Neg,
    Floor,
    Ceil,
}

impl View for EwUnaryAlgo {
    type V = u32;

    /// The `EW_CFG.ew_alu_algo` opcode (bits 19:16).
    open spec fn view(&self) -> u32 {
        match self {
            EwUnaryAlgo::Add => 2,
            EwUnaryAlgo::Abs => 5,
            EwUnaryAlgo::Neg => 6,
            EwUnaryAlgo::Floor => 7,
            EwUnaryAlgo::Ceil => 8,
        }
    }
}

/// Logical shape of the standalone unary EW-ALU task: one fp16 input tensor
/// and one output tensor of the same shape.
#[derive(Clone, Copy, Debug)]
pub struct EwUnaryShape {
    pub width: u32,
    pub height: u32,
    /// Real (unpadded) channel count.
    pub channels: u32,
    pub algo: EwUnaryAlgo,
    /// Scalar operand of [`EwUnaryAlgo::Add`] as raw fp32 bits; 0 for every
    /// other operation.
    pub operand: u32,
}

pub struct EwUnaryBuffers {
    pub input_addr: u32,
    pub output_addr: u32,
}

/// Logical shape of the standalone `square(x) = x*x` task (fp16).
#[derive(Clone, Copy, Debug)]
pub struct EwSquareShape {
    pub width: u32,
    pub height: u32,
    /// Real (unpadded) channel count.
    pub channels: u32,
}

pub struct EwSquareBuffers {
    pub input_addr: u32,
    pub output_addr: u32,
}

} // verus!
