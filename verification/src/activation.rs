//! Activations: the fused [`Activation`] modes and the integer operand
//! rules of the standalone DPU LUT task.
//!
//! `Relu`/`Relux` fuse into the producing op's own DPU pass; sigmoid, tanh
//! and exp run as a separate DPU LUT task reading the producer's output
//! back from memory.
use vstd::prelude::*;

verus! {

/// Fused post-processing applied to a conv/FC/pooling op's own accumulator
/// before write-back, as `relu(bias_add(x))` in the DPU's BS stage.
#[derive(Clone, Copy, Debug, PartialEq, Eq, Structural)]
pub enum Activation {
    /// No post-processing: the accumulator is written as it is.
    Identity,
    Relu,
    /// Clamps to `cmp` in addition to the zero floor (`DPU_BS_RELUX_CMP_VALUE`).
    Relux { cmp: u32 },
}

/// DMA addresses of a standalone LUT task.
pub struct LutBuffers {
    pub input_addr: u32,
    pub output_addr: u32,
}

/// DMA addresses for a conv-then-LUT-activation pipeline.
/// `intermediate_addr` is the inter-task buffer the conv writes and the LUT
/// task reads back; the CPU never touches it.
pub struct ConvThenLutBuffers {
    pub input_addr: u32,
    pub weights_addr: u32,
    pub bias_addr: u32,
    pub intermediate_addr: u32,
    pub output_addr: u32,
}

/// `BN_ALU_OPERAND` of the LUT task: `-real_zero_point * bn_mul_operand`,
/// as a 32-bit two's-complement word.
pub open spec fn lut_bn_alu_word(real_zero_point: i32, bn_mul_operand: u32) -> int {
    ((0 - real_zero_point) * bn_mul_operand) % 0x1_0000_0000
}

/// `BN_ALU_OPERAND` for the LUT task: the low 32 bits of
/// `-real_zero_point * bn_mul_operand`. Exact for every captured zero point
/// but the sigmoid captures at 42, and always exact at zero.
pub fn lut_bn_alu(real_zero_point: i32, bn_mul_operand: u32) -> (r: u32)
    ensures
        r as int == lut_bn_alu_word(real_zero_point, bn_mul_operand),
{
    let magnitude: u64 = if real_zero_point < 0 {
        (-(real_zero_point as i64)) as u64
    } else {
        real_zero_point as u64
    };
    assert(magnitude * bn_mul_operand <= 0x8000_0000u64 * 0xffff_ffffu64) by (nonlinear_arith)
        requires
            magnitude <= 0x8000_0000u64,
    ;
    let product: u64 = magnitude * (bn_mul_operand as u64);
    let low: u64 = product % 0x1_0000_0000;
    let r: u64 = if real_zero_point > 0 {
        (0x1_0000_0000 - low) % 0x1_0000_0000
    } else {
        low
    };
    proof {
        let n: int = 0x1_0000_0000;
        let p: int = product as int;
        if real_zero_point > 0 {
            assert((0 - real_zero_point) * bn_mul_operand == -p) by (nonlinear_arith)
                requires
                    p == magnitude * bn_mul_operand,
                    magnitude == real_zero_point,
            ;
            assert((n - p % n) % n == (-p) % n) by (nonlinear_arith)
                requires
                    p >= 0,
                    n == 0x1_0000_0000,
            ;
        } else {
            assert((0 - real_zero_point) * bn_mul_operand == p) by (nonlinear_arith)
                requires
                    p == magnitude * bn_mul_operand,
                    magnitude == 0 - real_zero_point,
            ;
        }
    }
    r as u32
}

/// Whether [`lut_bn_alu`] is exact for the decoded input zero point: the
/// captured zero points -128, -2 and 127, and zero by construction.
pub fn lut_bn_alu_supports_zero_point(real_zero_point: i32) -> (r: bool)
    ensures
        r <==> (real_zero_point == -128 || real_zero_point == -2 || real_zero_point == 0
            || real_zero_point == 127),
{
    real_zero_point == -128 || real_zero_point == -2 || real_zero_point == 0
        || real_zero_point == 127
}

} // verus!
