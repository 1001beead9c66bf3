//! Register programs for the Rockchip RK3588 NPU ("Rocket"): typed builders
//! for the block registers, the 64-bit regcmd words the PC fetches, the
//! relocation of convolution programs onto real buffers, the BS operand
//! buffer, and the integer rules of the LUT, element-wise and buffer-sync
//! paths.
use vstd::prelude::*;

pub mod activation;
pub mod builders;
pub mod conv;
pub mod device;
pub mod elementwise;

verus! {

} // verus!
