//! Typed register builders and the 64-bit regcmd word they emit.
//!
//! A [`Register`] holds the 32-bit value of one NPU register; the marker
//! type `R` names the register and, through [`RegisterMeta`], its block
//! domain and offset. Field setters clear the field's mask and store the
//! encoded value; [`Register::build`] packs the result into a [`RegCmd`]
//! (`[63:48]` domain, `[47:16]` value, `[15:0]` offset).
use vstd::arithmetic::power2::pow2;
use vstd::prelude::*;

pub mod cna;
pub mod dpu;
pub mod dpu_rdma;
pub mod global;
pub mod pc;
pub mod ppu_rdma;
pub mod values;

verus! {

// Domain IDs for the 64-bit RegCmd packing (bits 48-63): the block's
// target selector with bit 0 set, as every block appears in decoded vendor
// regcmd programs (PC=0x100, CNA=0x200, CORE=0x800, DPU=0x1000,
// DPU_RDMA=0x2000, PPU=0x4000, PPU_RDMA=0x8000).
/// CNA block domain (`0x200 | 1`).
pub const DOMAIN_CNA: u32 = 0x0201;

/// PC block domain (`0x100 | 1`).
pub const DOMAIN_PC: u32 = 0x0101;

/// CORE block domain (`0x800 | 1`).
pub const DOMAIN_CORE: u32 = 0x0801;

/// DPU block domain (`0x1000 | 1`).
pub const DOMAIN_DPU: u32 = 0x1001;

/// DPU_RDMA block domain (`0x2000 | 1`).
pub const DOMAIN_DPU_RDMA: u32 = 0x2001;

/// PPU block domain (`0x4000 | 1`).
pub const DOMAIN_PPU: u32 = 0x4001;

/// PPU_RDMA block domain (`0x8000 | 1`).
pub const DOMAIN_PPU_RDMA: u32 = 0x8001;

/// GLOBAL block domain. The block's own target selector does not fit the
/// 16-bit domain field, so this is the historical encoding, unconfirmed.
pub const DOMAIN_GLOBAL: u32 = 0x81;

/// The 64-bit regcmd word for a write of `val` to register `offset` of
/// block `domain`: `[63:48]` domain, `[47:16]` value, `[15:0]` offset.
pub open spec fn regcmd_word(domain: u32, offset: u32, val: u32) -> u64 {
    ((domain as u64) << 48u64) | ((val as u64) << 16u64) | (offset as u64)
}

/// A register value with the bits of `mask` replaced by those of `encoded`.
pub open spec fn with_field(old: u32, mask: u32, encoded: u32) -> u32 {
    (old & !mask) | (encoded & mask)
}

/// A register value with the bits of `mask` all set (`enable`) or all clear.
pub open spec fn with_flag(old: u32, mask: u32, enable: bool) -> u32 {
    if enable {
        old | mask
    } else {
        old & !mask
    }
}

/// A field value shifted to its position and cut to its mask.
pub open spec fn encode_field(val: u32, shift: u32, mask: u32) -> u32 {
    (val << shift) & mask
}

/// Whether `val` fits a field `n` bits wide (any `u32` fits 32 or more).
pub open spec fn fits_width(val: u32, n: usize) -> bool {
    n >= 32 || (val as int) < pow2(n as nat)
}

/// The domain, value and offset a regcmd word carries.
pub open spec fn regcmd_domain(word: u64) -> u64 {
    word >> 48u64
}

pub open spec fn regcmd_value(word: u64) -> u64 {
    (word >> 16u64) & 0xffff_ffffu64
}

pub open spec fn regcmd_offset(word: u64) -> u64 {
    word & 0xffffu64
}

/// A regcmd word gives back what it packs: the domain's low 16 bits, the
/// value, and the offset, whenever the offset fits its 16 bits.
pub proof fn law_regcmd_word_decodes(domain: u32, offset: u32, val: u32)
    requires
        offset < 0x10000,
    ensures
        regcmd_domain(regcmd_word(domain, offset, val)) == (domain as u64) & 0xffffu64,
        regcmd_value(regcmd_word(domain, offset, val)) == val as u64,
        regcmd_offset(regcmd_word(domain, offset, val)) == offset as u64,
{
    assert(((((domain as u64) << 48u64) | ((val as u64) << 16u64) | (offset as u64)) >> 48u64)
        == (domain as u64) & 0xffffu64) by (bit_vector)
        requires
            offset < 0x10000,
    ;
    assert((((((domain as u64) << 48u64) | ((val as u64) << 16u64) | (offset as u64)) >> 16u64)
        & 0xffff_ffffu64) == val as u64) by (bit_vector)
        requires
            offset < 0x10000,
    ;
    assert(((((domain as u64) << 48u64) | ((val as u64) << 16u64) | (offset as u64)) & 0xffffu64)
        == offset as u64) by (bit_vector)
        requires
            offset < 0x10000,
    ;
}

/// Setting a field changes exactly the bits of its mask: those take the
/// encoded value's bits, every other bit keeps its old value.
pub proof fn law_set_field_touches_only_its_mask(old: u32, mask: u32, encoded: u32)
    ensures
        with_field(old, mask, encoded) & !mask == old & !mask,
        with_field(old, mask, encoded) & mask == encoded & mask,
{
    assert(((old & !mask) | (encoded & mask)) & !mask == old & !mask) by (bit_vector);
    assert(((old & !mask) | (encoded & mask)) & mask == encoded & mask) by (bit_vector);
}

/// Writing the same field twice leaves only the second write.
pub proof fn law_set_field_last_write_wins(old: u32, mask: u32, first: u32, second: u32)
    ensures
        with_field(with_field(old, mask, first), mask, second) == with_field(old, mask, second),
{
    assert(((((old & !mask) | (first & mask)) & !mask) | (second & mask)) == ((old & !mask) | (
    second & mask))) by (bit_vector);
}

/// Fields with disjoint masks can be set in either order.
pub proof fn law_disjoint_fields_commute(old: u32, m1: u32, a: u32, m2: u32, b: u32)
    requires
        m1 & m2 == 0,
    ensures
        with_field(with_field(old, m1, a), m2, b) == with_field(with_field(old, m2, b), m1, a),
{
    assert(((((old & !m1) | (a & m1)) & !m2) | (b & m2)) == ((((old & !m2) | (b & m2)) & !m1) | (a
        & m1))) by (bit_vector)
        requires
            m1 & m2 == 0,
    ;
}

/// A flag is the field of its mask set to all ones or all zeros.
pub proof fn law_set_flag_is_a_field(old: u32, mask: u32, enable: bool)
    ensures
        with_flag(old, mask, enable) == with_field(old, mask, if enable { mask } else { 0 }),
{
    assert(old | mask == (old & !mask) | (mask & mask)) by (bit_vector);
    assert(old & !mask == (old & !mask) | (0u32 & mask)) by (bit_vector);
}

/// A field value that fits its mask reads back from the register unchanged.
pub proof fn law_field_reads_back(old: u32, val: u32, shift: u32, mask: u32)
    requires
        shift < 32,
        (val << shift) >> shift == val,
        (val << shift) & mask == val << shift,
    ensures
        (with_field(old, mask, encode_field(val, shift, mask)) & mask) >> shift == val,
{
    assert(((((old & !mask) | (((val << shift) & mask) & mask)) & mask) >> shift) == val)
        by (bit_vector)
        requires
            shift < 32,
            (val << shift) >> shift == val,
            (val << shift) & mask == val << shift,
    ;
}

/// Names one register: its block domain and its offset within the block.
pub trait RegisterMeta {
    const DOMAIN: u32;
    const OFFSET: u32;
}

/// One 64-bit regcmd word, as the PC fetches it.
pub struct RegCmd(pub u64);

impl RegCmd {
    /// Packs a write of `val` to register `reg_offset` of block `domain`.
    ///
    /// The domain keeps its low 16 bits and an offset of 16 bits or more
    /// overlaps the value; both are what the packing does, not errors.
    pub fn new(domain: u32, reg_offset: u32, val: u32) -> (r: RegCmd)
        ensures
            r.0 == regcmd_word(domain, reg_offset, val),
    {
        RegCmd(((domain as u64) << 48) | ((val as u64) << 16) | (reg_offset as u64))
    }

    /// Wraps an already-encoded word, such as a PC protocol instruction.
    pub fn new_raw(val: u64) -> (r: RegCmd)
        ensures
            r.0 == val,
    {
        RegCmd(val)
    }
}

/// A field value no wider than `N` bits (`N` of 32 or more admits any `u32`).
#[derive(Clone, Copy, Debug)]
pub struct Bits<const N: usize>(u32);

impl<const N: usize> View for Bits<N> {
    type V = u32;

    closed spec fn view(&self) -> u32 {
        self.0
    }
}

impl<const N: usize> Bits<N> {
    #[verifier::type_invariant]
    closed spec fn fits(self) -> bool {
        fits_width(self.0, N)
    }

    /// The value `new(val)` returns.
    pub closed spec fn spec_new(val: u32) -> Self {
        Bits(val)
    }

    /// The field value `val`; it must fit `N` bits.
    pub fn new(val: u32) -> (r: Self)
        requires
            fits_width(val, N),
        ensures
            r@ == val,
            r == Self::spec_new(val),
    {
        Bits(val)
    }

    pub fn val(&self) -> (r: u32)
        ensures
            r == self@,
            fits_width(r, N),
    {
        proof {
            use_type_invariant(self);
        }
        self.0
    }
}

/// The typed builder of register `R`'s 32-bit value.
pub struct Register<R> {
    val: u32,
    _marker: core::marker::PhantomData<R>,
}

impl<R> Clone for Register<R> {
    fn clone(&self) -> (r: Self)
        ensures
            r@ == self@,
    {
        Register { val: self.val, _marker: core::marker::PhantomData }
    }
}

impl<R> Copy for Register<R> {

}

impl<R> View for Register<R> {
    type V = u32;

    closed spec fn view(&self) -> u32 {
        self.val
    }
}

impl<R: RegisterMeta> Default for Register<R> {
    fn default() -> (r: Self)
        ensures
            r@ == 0,
    {
        Self::new()
    }
}

impl<R: RegisterMeta> Register<R> {
    /// A builder starting from the value 0.
    pub fn new() -> (r: Self)
        ensures
            r@ == 0,
    {
        Register { val: 0, _marker: core::marker::PhantomData }
    }

    /// A builder seeded with an already-encoded value, so that one field of
    /// an existing register can be rewritten while every other bit stays.
    pub fn from_val(val: u32) -> (r: Self)
        ensures
            r@ == val,
    {
        Register { val, _marker: core::marker::PhantomData }
    }

    /// The regcmd word writing this value to `R`.
    pub fn build(self) -> (r: RegCmd)
        ensures
            r.0 == regcmd_word(R::DOMAIN, R::OFFSET, self@),
    {
        RegCmd::new(R::DOMAIN, R::OFFSET, self.val)
    }

    /// Sets every bit of `mask` when `enable`, clears them otherwise.
    #[inline]
    pub fn set_flag(&mut self, mask: u32, enable: bool) -> (ret: &mut Self)
        ensures
            ret@ == with_flag(old(self)@, mask, enable),
            *final(self) == *final(ret),
    {
        if enable {
            self.val = self.val | mask;
        } else {
            self.val = self.val & !mask;
        }
        self
    }

    /// Replaces the bits of `mask` by those of `encoded`; the bits of
    /// `encoded` outside `mask` are dropped.
    #[inline]
    pub fn set_field(&mut self, mask: u32, encoded: u32) -> (ret: &mut Self)
        ensures
            ret@ == with_field(old(self)@, mask, encoded),
            *final(self) == *final(ret),
    {
        self.val = (self.val & !mask) | (encoded & mask);
        self
    }
}

/// `val` shifted into a field at `shift` and cut to `mask`.
pub(crate) fn encode(val: u32, shift: u32, mask: u32) -> (r: u32)
    requires
        shift < 32,
    ensures
        r == encode_field(val, shift, mask),
{
    (val << shift) & mask
}

} // verus!
