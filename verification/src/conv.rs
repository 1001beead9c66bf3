//! Binding convolution register programs to memory, and the BS buffer.
//!
//! A convolution program carries tile *offsets* in its four address
//! registers; [`relocate`] and its variants add the real DMA addresses.
//! [`write_bs_buffer`] lays out the per-output-channel bias/scale operands
//! the DPU's BS stage fetches through BRDMA.
use crate::builders::cna::{
    CnaDcompAddr0, CnaFeatureDataAddr, REG_CNA_DCOMP_ADDR0, REG_CNA_FEATURE_DATA_ADDR,
};
use crate::builders::dpu::{DpuDstBaseAddr, REG_DPU_DST_BASE_ADDR};
use crate::builders::dpu_rdma::{DpuRdmaBsBaseAddr, REG_DPU_RDMA_RDMA_BS_BASE_ADDR};
use crate::builders::values::ArgbInputMode;
use crate::builders::{
    law_regcmd_word_decodes, regcmd_domain, regcmd_offset, regcmd_value, regcmd_word, RegCmd,
    RegisterMeta, DOMAIN_CNA, DOMAIN_DPU, DOMAIN_DPU_RDMA,
};
use vstd::prelude::*;

verus! {

/// The four DMA base addresses a conv program reads and writes through.
#[derive(Clone, Copy, Debug, PartialEq, Eq, Structural)]
pub struct Buffers {
    /// Feature data, `CNA_FEATURE_DATA_ADDR`.
    pub input: u32,
    /// Packed weights, `CNA_DCOMP_ADDR0`.
    pub weights: u32,
    /// Bias, and for int8 the per-channel multiplier alongside it,
    /// `DPU_RDMA_RDMA_BS_BASE_ADDR`. See [`write_bs_buffer`].
    pub bias: u32,
    /// Output feature data, `DPU_DST_BASE_ADDR`.
    pub output: u32,
}

/// Where one independently staged accumulator tile's output lands in its
/// scratch buffer: the part of a planned tile that relocation reads.
#[derive(Clone, Copy, Debug, PartialEq, Eq, Structural)]
pub struct AccumulatorOutputTile {
    /// Byte offset of the tile's contiguous output range in the scratch buffer.
    pub scratch_offset: usize,
}

/// The ARGB input mode of a dense feature map of `in_channels` channels;
/// only maps of one to four channels are dense.
pub fn argb_input_mode(in_channels: u32) -> (r: ArgbInputMode)
    requires
        1 <= in_channels <= 4,
    ensures
        r == (if in_channels == 1 {
            ArgbInputMode::OneChannel
        } else if in_channels == 2 {
            ArgbInputMode::TwoChannels
        } else if in_channels == 3 {
            ArgbInputMode::ThreeChannels
        } else {
            ArgbInputMode::FourChannels
        }),
{
    match in_channels {
        1 => ArgbInputMode::OneChannel,
        2 => ArgbInputMode::TwoChannels,
        3 => ArgbInputMode::ThreeChannels,
        _ => ArgbInputMode::FourChannels,
    }
}

/// The register a regcmd word writes: its domain (bits 63:48) and its
/// offset (bits 15:0).
pub open spec fn word_identity(word: u64) -> (u32, u32) {
    ((word >> 48u64) as u32, (word as u32) & 0xffffu32)
}

/// The tile offset a word carries: the low 32 bits of its value field.
pub open spec fn word_tile_offset(word: u64) -> u32 {
    (word >> 16u64) as u32
}

/// Whether `cmd` writes register `R`.
pub open spec fn writes<R: RegisterMeta>(cmd: RegCmd) -> bool {
    word_identity(cmd.0) == (R::DOMAIN, R::OFFSET)
}

/// Exactly one command of `cmds` writes register `R`.
pub open spec fn written_once<R: RegisterMeta>(cmds: Seq<RegCmd>) -> bool {
    exists|i: int|
        #![trigger cmds[i]]
        0 <= i < cmds.len() && writes::<R>(cmds[i]) && forall|j: int|
            0 <= j < cmds.len() && writes::<R>(#[trigger] cmds[j]) ==> j == i
}

/// The address a relocated word of `R` holds: `address`, plus the tile
/// offset the word already carried when `keep_tile_offset`.
pub open spec fn relocated_address(word: u64, address: u32, keep_tile_offset: bool) -> int {
    address + if keep_tile_offset {
        word_tile_offset(word) as int
    } else {
        0
    }
}

/// The word a command becomes when register `R` is bound to `address`.
pub open spec fn relocate_word<R: RegisterMeta>(
    cmd: RegCmd,
    address: u32,
    keep_tile_offset: bool,
) -> u64 {
    if writes::<R>(cmd) {
        regcmd_word(
            R::DOMAIN,
            R::OFFSET,
            relocated_address(cmd.0, address, keep_tile_offset) as u32,
        )
    } else {
        cmd.0
    }
}

/// Binding `R` to `address` in `cmds` stays within 32-bit addresses.
pub open spec fn relocation_fits<R: RegisterMeta>(
    cmds: Seq<RegCmd>,
    address: u32,
    keep_tile_offset: bool,
) -> bool {
    forall|i: int|
        0 <= i < cmds.len() && writes::<R>(#[trigger] cmds[i]) ==> relocated_address(
            cmds[i].0,
            address,
            keep_tile_offset,
        ) <= u32::MAX
}

/// What a program must hold for [`relocate`] (or, with `exact_output`,
/// [`relocate_with_exact_output`]) to bind it to `buffers`: each of the four
/// address registers written exactly once, every address 16-byte aligned,
/// and every relocated address within 32 bits.
pub open spec fn relocatable(cmds: Seq<RegCmd>, buffers: Buffers, exact_output: bool) -> bool {
    &&& written_once::<CnaFeatureDataAddr>(cmds)
    &&& written_once::<CnaDcompAddr0>(cmds)
    &&& written_once::<DpuRdmaBsBaseAddr>(cmds)
    &&& written_once::<DpuDstBaseAddr>(cmds)
    &&& buffers.input & 0xf == 0
    &&& buffers.weights & 0xf == 0
    &&& buffers.bias & 0xf == 0
    &&& buffers.output & 0xf == 0
    &&& relocation_fits::<CnaFeatureDataAddr>(cmds, buffers.input, true)
    &&& relocation_fits::<CnaDcompAddr0>(cmds, buffers.weights, true)
    &&& relocation_fits::<DpuRdmaBsBaseAddr>(cmds, buffers.bias, true)
    &&& relocation_fits::<DpuDstBaseAddr>(cmds, buffers.output, !exact_output)
}

/// The word a command of a relocatable program becomes: each address
/// register gets its buffer's address plus the tile offset it carried (the
/// output register, when `exact_output`, gets the output address alone);
/// every other command is unchanged.
pub open spec fn relocated(cmd: RegCmd, buffers: Buffers, exact_output: bool) -> u64 {
    if writes::<CnaFeatureDataAddr>(cmd) {
        relocate_word::<CnaFeatureDataAddr>(cmd, buffers.input, true)
    } else if writes::<CnaDcompAddr0>(cmd) {
        relocate_word::<CnaDcompAddr0>(cmd, buffers.weights, true)
    } else if writes::<DpuRdmaBsBaseAddr>(cmd) {
        relocate_word::<DpuRdmaBsBaseAddr>(cmd, buffers.bias, true)
    } else if writes::<DpuDstBaseAddr>(cmd) {
        relocate_word::<DpuDstBaseAddr>(cmd, buffers.output, !exact_output)
    } else {
        cmd.0
    }
}

/// The register identity of a word, as [`word_identity`] states it.
fn decode_identity(command: &RegCmd) -> (r: (u32, u32))
    ensures
        r == word_identity(command.0),
{
    let domain: u32 = #[verifier::truncate] ((command.0 >> 48) as u32);
    let low: u32 = #[verifier::truncate] (command.0 as u32);
    (domain, low & 0xffff)
}

/// A word packed for a register whose domain and offset fit 16 bits writes
/// that register.
proof fn lemma_packed_identity(domain: u32, offset: u32, val: u32)
    requires
        domain < 0x10000,
        offset < 0x10000,
    ensures
        word_identity(regcmd_word(domain, offset, val)) == (domain, offset),
{
    let w = regcmd_word(domain, offset, val);
    assert(((((domain as u64) << 48u64) | ((val as u64) << 16u64) | (offset as u64)) >> 48u64)
        as u32 == domain) by (bit_vector)
        requires
            domain < 0x10000,
            offset < 0x10000,
    ;
    assert(((((domain as u64) << 48u64) | ((val as u64) << 16u64) | (offset as u64)) as u32)
        & 0xffffu32 == offset) by (bit_vector)
        requires
            offset < 0x10000,
    ;
}

/// Binds the one write of register `R` to `address`, keeping whatever tile
/// offset the program put there when `keep_tile_offset`.
fn relocate_one<R: RegisterMeta>(commands: &mut [RegCmd], address: u32, keep_tile_offset: bool)
    requires
        address & 0xf == 0,
        written_once::<R>(old(commands)@),
        relocation_fits::<R>(old(commands)@, address, keep_tile_offset),
    ensures
        final(commands)@.len() == old(commands)@.len(),
        forall|i: int|
            0 <= i < old(commands)@.len() ==> (#[trigger] final(commands)@[i]).0
                == relocate_word::<R>(old(commands)@[i], address, keep_tile_offset),
{
    let ghost cmds = commands@;
    let mut index: usize = 0;
    while index < commands.len()
        invariant
            index <= commands@.len(),
            commands@ == cmds,
            written_once::<R>(cmds),
            forall|j: int| 0 <= j < index ==> !writes::<R>(#[trigger] cmds[j]),
        ensures
            index <= commands@.len(),
            forall|j: int| 0 <= j < index ==> !writes::<R>(#[trigger] cmds[j]),
            index < commands@.len() ==> writes::<R>(cmds[index as int]),
        decreases commands@.len() - index,
    {
        let (domain, offset) = decode_identity(&commands[index]);
        if domain == R::DOMAIN && offset == R::OFFSET {
            break;
        }
        index += 1;
    }
    proof {
        if index == commands@.len() {
            let w = choose|i: int|
                #![trigger cmds[i]]
                0 <= i < cmds.len() && writes::<R>(cmds[i]) && forall|j: int|
                    0 <= j < cmds.len() && writes::<R>(#[trigger] cmds[j]) ==> j == i;
            assert(!writes::<R>(cmds[w]));
        }
    }
    let tile_offset: u32 = if keep_tile_offset {
        #[verifier::truncate] ((commands[index].0 >> 16) as u32)
    } else {
        0
    };
    assert(writes::<R>(cmds[index as int]));
    let word = RegCmd::new(R::DOMAIN, R::OFFSET, address + tile_offset);
    commands[index] = word;
    assert forall|i: int| 0 <= i < cmds.len() implies (#[trigger] commands@[i]).0
        == relocate_word::<R>(cmds[i], address, keep_tile_offset) by {
        if i != index as int && writes::<R>(cmds[i]) {
            let w = choose|k: int|
                #![trigger cmds[k]]
                0 <= k < cmds.len() && writes::<R>(cmds[k]) && forall|j: int|
                    0 <= j < cmds.len() && writes::<R>(#[trigger] cmds[j]) ==> j == k;
            assert(i == w);
            assert(index as int == w);
        }
    }
}

/// Binding register `A` leaves every write of another register `B` where
/// and as it was.
proof fn lemma_relocation_keeps_other<A: RegisterMeta, B: RegisterMeta>(
    old: Seq<RegCmd>,
    new: Seq<RegCmd>,
    address: u32,
    keep_tile_offset: bool,
)
    requires
        A::DOMAIN < 0x10000,
        A::OFFSET < 0x10000,
        A::DOMAIN != B::DOMAIN || A::OFFSET != B::OFFSET,
        new.len() == old.len(),
        forall|i: int|
            0 <= i < old.len() ==> (#[trigger] new[i]).0 == relocate_word::<A>(
                old[i],
                address,
                keep_tile_offset,
            ),
    ensures
        forall|i: int|
            0 <= i < old.len() ==> (writes::<B>(#[trigger] new[i]) <==> writes::<B>(old[i])),
        forall|i: int| 0 <= i < old.len() && writes::<B>(#[trigger] old[i]) ==> new[i] == old[i],
        forall|i: int|
            0 <= i < old.len() && writes::<A>(#[trigger] old[i]) ==> writes::<A>(new[i]),
{
    assert forall|i: int| 0 <= i < old.len() implies (writes::<B>(#[trigger] new[i]) <==> writes::<
        B,
    >(old[i])) && (writes::<B>(old[i]) ==> new[i] == old[i]) && (writes::<A>(old[i]) ==> writes::<
        A,
    >(new[i])) by {
        if writes::<A>(old[i]) {
            lemma_packed_identity(
                A::DOMAIN,
                A::OFFSET,
                relocated_address(old[i].0, address, keep_tile_offset) as u32,
            );
        }
    }
}

/// Exactly-once writes of `B` survive a relocation that keeps `B` in place.
proof fn lemma_written_once_kept<B: RegisterMeta>(old: Seq<RegCmd>, new: Seq<RegCmd>)
    requires
        new.len() == old.len(),
        written_once::<B>(old),
        forall|i: int|
            0 <= i < old.len() ==> (writes::<B>(#[trigger] new[i]) <==> writes::<B>(old[i])),
    ensures
        written_once::<B>(new),
{
    let w = choose|i: int|
        #![trigger old[i]]
        0 <= i < old.len() && writes::<B>(old[i]) && forall|j: int|
            0 <= j < old.len() && writes::<B>(#[trigger] old[j]) ==> j == i;
    assert(writes::<B>(new[w]));
    assert forall|j: int| 0 <= j < new.len() && writes::<B>(#[trigger] new[j]) implies j == w by {
        assert(writes::<B>(old[j]));
    }
}

/// Whether `word`'s own domain and offset fields name the register at
/// offset `offset` of block `domain`.
pub open spec fn word_writes(word: u64, domain: u32, offset: u32) -> bool {
    regcmd_domain(word) == domain as u64 && regcmd_offset(word) == offset as u64
}

/// Whether `new` binds the address register `domain`/`offset` that `old`
/// writes: it writes the same register, and its 32-bit value field is
/// `address` plus, when `keep_tile_offset`, the whole value field `old`
/// carried.
pub open spec fn binds_register(
    old: u64,
    new: u64,
    domain: u32,
    offset: u32,
    address: u32,
    keep_tile_offset: bool,
) -> bool {
    &&& word_writes(new, domain, offset)
    &&& regcmd_value(new) as int == address as int + if keep_tile_offset {
        regcmd_value(old) as int
    } else {
        0
    }
}

/// Whether `new` is `old` with its four address registers bound to
/// `buffers`: input, weights and bias each get their buffer address added to
/// the tile offset their word carried; the output gets the same, or only its
/// buffer address when `exact_output`; every other word is unchanged.
pub open spec fn binds_addresses(
    old: Seq<RegCmd>,
    new: Seq<RegCmd>,
    buffers: Buffers,
    exact_output: bool,
) -> bool {
    &&& new.len() == old.len()
    &&& forall|i: int|
        #![trigger new[i]]
        0 <= i < old.len() ==> if word_writes(
            old[i].0,
            DOMAIN_CNA,
            REG_CNA_FEATURE_DATA_ADDR,
        ) {
            binds_register(
                old[i].0,
                new[i].0,
                DOMAIN_CNA,
                REG_CNA_FEATURE_DATA_ADDR,
                buffers.input,
                true,
            )
        } else if word_writes(old[i].0, DOMAIN_CNA, REG_CNA_DCOMP_ADDR0) {
            binds_register(
                old[i].0,
                new[i].0,
                DOMAIN_CNA,
                REG_CNA_DCOMP_ADDR0,
                buffers.weights,
                true,
            )
        } else if word_writes(old[i].0, DOMAIN_DPU_RDMA, REG_DPU_RDMA_RDMA_BS_BASE_ADDR) {
            binds_register(
                old[i].0,
                new[i].0,
                DOMAIN_DPU_RDMA,
                REG_DPU_RDMA_RDMA_BS_BASE_ADDR,
                buffers.bias,
                true,
            )
        } else if word_writes(old[i].0, DOMAIN_DPU, REG_DPU_DST_BASE_ADDR) {
            binds_register(
                old[i].0,
                new[i].0,
                DOMAIN_DPU,
                REG_DPU_DST_BASE_ADDR,
                buffers.output,
                !exact_output,
            )
        } else {
            new[i] == old[i]
        }
}

/// The identity a word's fields give, in the two forms used here.
proof fn lemma_identity_fields(word: u64, domain: u32, offset: u32)
    requires
        domain < 0x10000,
        offset < 0x10000,
    ensures
        (word_identity(word) == (domain, offset)) <==> word_writes(word, domain, offset),
{
    assert(((word >> 48u64) as u32 == domain) <==> (word >> 48u64 == domain as u64))
        by (bit_vector)
        requires
            domain < 0x10000,
    ;
    assert((((word as u32) & 0xffffu32) == offset) <==> (word & 0xffffu64 == offset as u64))
        by (bit_vector)
        requires
            offset < 0x10000,
    ;
}

/// A relocated word of `R` binds `R` as [`binds_register`] states.
proof fn lemma_binds_word<R: RegisterMeta>(cmd: RegCmd, address: u32, keep_tile_offset: bool)
    requires
        R::DOMAIN < 0x10000,
        R::OFFSET < 0x10000,
        writes::<R>(cmd),
        relocated_address(cmd.0, address, keep_tile_offset) <= u32::MAX,
    ensures
        binds_register(
            cmd.0,
            relocate_word::<R>(cmd, address, keep_tile_offset),
            R::DOMAIN,
            R::OFFSET,
            address,
            keep_tile_offset,
        ),
{
    let v = relocated_address(cmd.0, address, keep_tile_offset) as u32;
    law_regcmd_word_decodes(R::DOMAIN, R::OFFSET, v);
    let d = R::DOMAIN;
    assert((d as u64) & 0xffffu64 == d as u64) by (bit_vector)
        requires
            d < 0x10000,
    ;
    let w = cmd.0;
    assert(((w >> 16u64) & 0xffff_ffffu64) == ((w >> 16u64) as u32) as u64) by (bit_vector);
}

/// Relocation binds every address register to its buffer's address plus
/// the whole 32-bit tile offset the register carried (the output register,
/// for an exact-output relocation, to its address alone), and leaves every
/// other word as it was. The sum is arithmetic, whatever the offset's size.
pub proof fn law_relocation_adds_buffer_addresses(
    old: Seq<RegCmd>,
    new: Seq<RegCmd>,
    buffers: Buffers,
    exact_output: bool,
)
    requires
        relocatable(old, buffers, exact_output),
        new.len() == old.len(),
        forall|i: int| 0 <= i < old.len() ==> (#[trigger] new[i]).0 == relocated(old[i], buffers, exact_output),
    ensures
        binds_addresses(old, new, buffers, exact_output),
{
    crate::builders::cna::lemma_register_identities();
    crate::builders::dpu::lemma_register_identities();
    crate::builders::dpu_rdma::lemma_register_identities();
    assert forall|i: int| 0 <= i < old.len() implies if word_writes(
        old[i].0,
        DOMAIN_CNA,
        REG_CNA_FEATURE_DATA_ADDR,
    ) {
        binds_register(old[i].0, (#[trigger] new[i]).0, DOMAIN_CNA, REG_CNA_FEATURE_DATA_ADDR, buffers.input, true)
    } else if word_writes(old[i].0, DOMAIN_CNA, REG_CNA_DCOMP_ADDR0) {
        binds_register(old[i].0, new[i].0, DOMAIN_CNA, REG_CNA_DCOMP_ADDR0, buffers.weights, true)
    } else if word_writes(old[i].0, DOMAIN_DPU_RDMA, REG_DPU_RDMA_RDMA_BS_BASE_ADDR) {
        binds_register(old[i].0, new[i].0, DOMAIN_DPU_RDMA, REG_DPU_RDMA_RDMA_BS_BASE_ADDR, buffers.bias, true)
    } else if word_writes(old[i].0, DOMAIN_DPU, REG_DPU_DST_BASE_ADDR) {
        binds_register(old[i].0, new[i].0, DOMAIN_DPU, REG_DPU_DST_BASE_ADDR, buffers.output, !exact_output)
    } else {
        new[i] == old[i]
    } by {
        let c = old[i];
        lemma_identity_fields(c.0, DOMAIN_CNA, REG_CNA_FEATURE_DATA_ADDR);
        lemma_identity_fields(c.0, DOMAIN_CNA, REG_CNA_DCOMP_ADDR0);
        lemma_identity_fields(c.0, DOMAIN_DPU_RDMA, REG_DPU_RDMA_RDMA_BS_BASE_ADDR);
        lemma_identity_fields(c.0, DOMAIN_DPU, REG_DPU_DST_BASE_ADDR);
        if writes::<CnaFeatureDataAddr>(c) {
            lemma_binds_word::<CnaFeatureDataAddr>(c, buffers.input, true);
        } else if writes::<CnaDcompAddr0>(c) {
            lemma_binds_word::<CnaDcompAddr0>(c, buffers.weights, true);
        } else if writes::<DpuRdmaBsBaseAddr>(c) {
            lemma_binds_word::<DpuRdmaBsBaseAddr>(c, buffers.bias, true);
        } else if writes::<DpuDstBaseAddr>(c) {
            lemma_binds_word::<DpuDstBaseAddr>(c, buffers.output, !exact_output);
        }
    }
}

/// Binds a program's four address registers to real memory, in place: each
/// register gets its buffer's address added to the tile offset the program
/// already carried there, and every other command is left as it was.
///
/// Every address must be 16-byte aligned and each register written exactly
/// once; relocating a program twice would add the addresses twice.
pub fn relocate(commands: &mut [RegCmd], buffers: Buffers)
    requires
        relocatable(old(commands)@, buffers, false),
    ensures
        final(commands)@.len() == old(commands)@.len(),
        forall|i: int|
            0 <= i < old(commands)@.len() ==> (#[trigger] final(commands)@[i]).0 == relocated(
                old(commands)@[i],
                buffers,
                false,
            ),
        binds_addresses(old(commands)@, final(commands)@, buffers, false),
{
    let ghost before = commands@;
    relocate_all(commands, buffers, false);
    proof {
        law_relocation_adds_buffer_addresses(before, commands@, buffers, false);
    }
}

/// Binds a program while replacing its output tile offset with an exact DMA
/// address: input, weights and bias keep the tile offsets the program
/// carries, the output register gets `buffers.output` verbatim.
pub fn relocate_with_exact_output(commands: &mut [RegCmd], buffers: Buffers)
    requires
        relocatable(old(commands)@, buffers, true),
    ensures
        final(commands)@.len() == old(commands)@.len(),
        forall|i: int|
            0 <= i < old(commands)@.len() ==> (#[trigger] final(commands)@[i]).0 == relocated(
                old(commands)@[i],
                buffers,
                true,
            ),
        binds_addresses(old(commands)@, final(commands)@, buffers, true),
{
    let ghost before = commands@;
    relocate_all(commands, buffers, true);
    proof {
        law_relocation_adds_buffer_addresses(before, commands@, buffers, true);
    }
}

/// Binds one staged accumulator program: input, weights and bias keep their
/// tile offsets, and the output is placed at `buffers.output +
/// tile.scratch_offset`, the tile's own contiguous range.
pub fn relocate_staged_accumulator(
    commands: &mut [RegCmd],
    buffers: Buffers,
    tile: &AccumulatorOutputTile,
)
    requires
        buffers.output + tile.scratch_offset <= u32::MAX,
        relocatable(
            old(commands)@,
            Buffers { output: (buffers.output + tile.scratch_offset) as u32, ..buffers },
            true,
        ),
    ensures
        final(commands)@.len() == old(commands)@.len(),
        forall|i: int|
            0 <= i < old(commands)@.len() ==> (#[trigger] final(commands)@[i]).0 == relocated(
                old(commands)@[i],
                Buffers { output: (buffers.output + tile.scratch_offset) as u32, ..buffers },
                true,
            ),
        binds_addresses(
            old(commands)@,
            final(commands)@,
            Buffers { output: (buffers.output + tile.scratch_offset) as u32, ..buffers },
            true,
        ),
{
    let scratch_offset = tile.scratch_offset as u32;
    let local_output = buffers.output + scratch_offset;
    relocate_with_exact_output(
        commands,
        Buffers { input: buffers.input, weights: buffers.weights, bias: buffers.bias, output: local_output },
    );
}

/// The four relocations of [`relocate`] and [`relocate_with_exact_output`].
fn relocate_all(commands: &mut [RegCmd], buffers: Buffers, exact_output: bool)
    requires
        relocatable(old(commands)@, buffers, exact_output),
    ensures
        final(commands)@.len() == old(commands)@.len(),
        forall|i: int|
            0 <= i < old(commands)@.len() ==> (#[trigger] final(commands)@[i]).0 == relocated(
                old(commands)@[i],
                buffers,
                exact_output,
            ),
{
    let ghost s0 = commands@;
    proof {
        crate::builders::cna::lemma_register_identities();
        crate::builders::dpu::lemma_register_identities();
        crate::builders::dpu_rdma::lemma_register_identities();
    }
    relocate_one::<CnaFeatureDataAddr>(commands, buffers.input, true);
    let ghost s1 = commands@;
    proof {
        lemma_relocation_keeps_other::<CnaFeatureDataAddr, CnaDcompAddr0>(s0, s1, buffers.input, true);
        lemma_relocation_keeps_other::<CnaFeatureDataAddr, DpuRdmaBsBaseAddr>(s0, s1, buffers.input, true);
        lemma_relocation_keeps_other::<CnaFeatureDataAddr, DpuDstBaseAddr>(s0, s1, buffers.input, true);
        lemma_written_once_kept::<CnaDcompAddr0>(s0, s1);
        lemma_written_once_kept::<DpuRdmaBsBaseAddr>(s0, s1);
        lemma_written_once_kept::<DpuDstBaseAddr>(s0, s1);
    }
    relocate_one::<CnaDcompAddr0>(commands, buffers.weights, true);
    let ghost s2 = commands@;
    proof {
        lemma_relocation_keeps_other::<CnaDcompAddr0, CnaFeatureDataAddr>(s1, s2, buffers.weights, true);
        lemma_relocation_keeps_other::<CnaDcompAddr0, DpuRdmaBsBaseAddr>(s1, s2, buffers.weights, true);
        lemma_relocation_keeps_other::<CnaDcompAddr0, DpuDstBaseAddr>(s1, s2, buffers.weights, true);
        lemma_written_once_kept::<DpuRdmaBsBaseAddr>(s1, s2);
        lemma_written_once_kept::<DpuDstBaseAddr>(s1, s2);
    }
    relocate_one::<DpuRdmaBsBaseAddr>(commands, buffers.bias, true);
    let ghost s3 = commands@;
    proof {
        lemma_relocation_keeps_other::<DpuRdmaBsBaseAddr, CnaFeatureDataAddr>(s2, s3, buffers.bias, true);
        lemma_relocation_keeps_other::<DpuRdmaBsBaseAddr, CnaDcompAddr0>(s2, s3, buffers.bias, true);
        lemma_relocation_keeps_other::<DpuRdmaBsBaseAddr, DpuDstBaseAddr>(s2, s3, buffers.bias, true);
        lemma_written_once_kept::<DpuDstBaseAddr>(s2, s3);
    }
    relocate_one::<DpuDstBaseAddr>(commands, buffers.output, !exact_output);
    let ghost s4 = commands@;
    proof {
        lemma_relocation_keeps_other::<DpuDstBaseAddr, CnaFeatureDataAddr>(s3, s4, buffers.output, !exact_output);
        lemma_relocation_keeps_other::<DpuDstBaseAddr, CnaDcompAddr0>(s3, s4, buffers.output, !exact_output);
        lemma_relocation_keeps_other::<DpuDstBaseAddr, DpuRdmaBsBaseAddr>(s3, s4, buffers.output, !exact_output);
        assert forall|i: int| 0 <= i < s0.len() implies (#[trigger] s4[i]).0 == relocated(
            s0[i],
            buffers,
            exact_output,
        ) by {
            assert(s4[i].0 == relocate_word::<DpuDstBaseAddr>(s3[i], buffers.output, !exact_output));
            assert(s3[i].0 == relocate_word::<DpuRdmaBsBaseAddr>(s2[i], buffers.bias, true));
            assert(s2[i].0 == relocate_word::<CnaDcompAddr0>(s1[i], buffers.weights, true));
            assert(s1[i].0 == relocate_word::<CnaFeatureDataAddr>(s0[i], buffers.input, true));
        }
    }
}

/// Output channels per BS block; the block's planes repeat every this many
/// channels.
pub const BS_CHANNELS_PER_BLOCK: usize = 8;

/// Bytes per BS block: eight `i32` biases, eight `i16` constants and eight
/// `i16` multipliers.
pub const BS_BLOCK_BYTES: usize = 64;

/// The constant-plane entry of a channel whose weights need no affine
/// correction.
pub const BS_CONSTANT: i16 = 128;

/// The multiplier-plane entry of unit gain.
pub const BS_UNIT_MULTIPLIER: i16 = 16384;

/// One output channel's entry in the BS (bias/scale) buffer.
#[derive(Clone, Copy, Debug, PartialEq, Eq, Structural)]
pub struct BsEntry {
    /// `round(bias / (input_scale * weight_scale[c]))`.
    pub bias: i32,
    /// Addend applied to each raw coefficient of this output channel.
    pub constant: i16,
    /// `round(BS_UNIT_MULTIPLIER * weight_scale[c] / max(weight_scale))`.
    pub multiplier: i16,
}

impl Default for BsEntry {
    /// A zero bias at unit multiplier: what a convolution with uniform
    /// weight scales and no bias needs.
    fn default() -> (r: BsEntry)
        ensures
            r == (BsEntry { bias: 0, constant: BS_CONSTANT, multiplier: BS_UNIT_MULTIPLIER }),
    {
        BsEntry { bias: 0, constant: BS_CONSTANT, multiplier: BS_UNIT_MULTIPLIER }
    }
}

/// Bytes of a BS buffer for `channels` output channels: whole blocks of
/// eight channels, a partial block padded.
pub open spec fn bs_bytes(channels: int) -> int {
    ((channels + 7) / 8) * 64
}

/// Byte `b` (0 = least significant) of `x`.
pub open spec fn le_byte(x: u32, b: int) -> u8 {
    if b == 0 {
        x as u8
    } else if b == 1 {
        (x >> 8u32) as u8
    } else if b == 2 {
        (x >> 16u32) as u8
    } else {
        (x >> 24u32) as u8
    }
}

/// The channel whose entry byte `k` of a BS buffer belongs to, its plane (0
/// bias, 1 constant, 2 multiplier) and the byte's place in that value.
pub open spec fn bs_slot(k: int) -> (int, int, int) {
    let block = k / 64;
    let off = k % 64;
    if off < 32 {
        (block * 8 + off / 4, 0, off % 4)
    } else if off < 48 {
        (block * 8 + (off - 32) / 2, 1, (off - 32) % 2)
    } else {
        (block * 8 + (off - 48) / 2, 2, (off - 48) % 2)
    }
}

/// Byte `k` of the BS buffer of `entries`: within each block of 64 bytes the
/// eight channels' little-endian biases at 0, constants at 32 and
/// multipliers at 48; lanes past the last channel are zero.
pub open spec fn bs_byte(entries: Seq<BsEntry>, k: int) -> u8 {
    let (c, plane, b) = bs_slot(k);
    if c < entries.len() {
        if plane == 0 {
            le_byte(entries[c].bias as u32, b)
        } else if plane == 1 {
            le_byte(entries[c].constant as u16 as u32, b)
        } else {
            le_byte(entries[c].multiplier as u16 as u32, b)
        }
    } else {
        0
    }
}

/// Bytes of a BS buffer for `channels` output channels.
pub fn bs_buffer_bytes(channels: u32) -> (r: usize)
    requires
        bs_bytes(channels as int) <= usize::MAX,
    ensures
        r == bs_bytes(channels as int),
{
    let blocks: usize = (channels as usize) / BS_CHANNELS_PER_BLOCK + if (channels as usize)
        % BS_CHANNELS_PER_BLOCK == 0 {
        0
    } else {
        1
    };
    assert(blocks == (channels + 7) / 8);
    blocks * BS_BLOCK_BYTES
}

/// Byte `b` of `x`, as [`le_byte`] states it.
fn le_byte_of(x: u32, b: usize) -> (r: u8)
    requires
        b < 4,
    ensures
        r == le_byte(x, b as int),
{
    if b == 0 {
        #[verifier::truncate] (x as u8)
    } else if b == 1 {
        #[verifier::truncate] ((x >> 8) as u8)
    } else if b == 2 {
        #[verifier::truncate] ((x >> 16) as u8)
    } else {
        #[verifier::truncate] ((x >> 24) as u8)
    }
}

/// Byte `k` of the BS buffer of `entries`.
fn bs_byte_at(entries: &[BsEntry], k: usize) -> (r: u8)
    ensures
        r == bs_byte(entries@, k as int),
{
    let block = k / BS_BLOCK_BYTES;
    let off = k % BS_BLOCK_BYTES;
    if off < 32 {
        let c = block * BS_CHANNELS_PER_BLOCK + off / 4;
        if c < entries.len() {
            le_byte_of(#[verifier::truncate] (entries[c].bias as u32), off % 4)
        } else {
            0
        }
    } else if off < 48 {
        let c = block * BS_CHANNELS_PER_BLOCK + (off - 32) / 2;
        if c < entries.len() {
            le_byte_of((#[verifier::truncate] (entries[c].constant as u16)) as u32, (off - 32) % 2)
        } else {
            0
        }
    } else {
        let c = block * BS_CHANNELS_PER_BLOCK + (off - 48) / 2;
        if c < entries.len() {
            le_byte_of((#[verifier::truncate] (entries[c].multiplier as u16)) as u32, (off - 48) % 2)
        } else {
            0
        }
    }
}

/// Writes the BS buffer `DPU_RDMA_RDMA_BS_BASE_ADDR` points at: the first
/// `bs_bytes(entries.len())` bytes of `buffer` become the BS layout of
/// `entries` (unused lanes of a partial block zero), the rest stay as they
/// were.
pub fn write_bs_buffer(buffer: &mut [u8], entries: &[BsEntry])
    requires
        entries@.len() <= u32::MAX,
        bs_bytes(entries@.len() as int) <= old(buffer)@.len(),
    ensures
        final(buffer)@.len() == old(buffer)@.len(),
        forall|k: int|
            0 <= k < bs_bytes(entries@.len() as int) ==> #[trigger] final(buffer)@[k] == bs_byte(
                entries@,
                k,
            ),
        forall|k: int|
            bs_bytes(entries@.len() as int) <= k < old(buffer)@.len() ==> #[trigger] final(buffer)@[k]
                == old(buffer)@[k],
        forall|c: int|
            entries@.len() <= c < ((entries@.len() + 7) / 8) * 8 ==> #[trigger] channel_lanes_zero(
                final(buffer)@,
                c,
            ),
{
    let available = buffer.len();
    assert(bs_bytes(entries@.len() as int) <= available);
    let needed = bs_buffer_bytes(entries.len() as u32);
    let ghost start = buffer@;
    let mut k: usize = 0;
    while k < needed
        invariant
            needed == bs_bytes(entries@.len() as int),
            needed <= buffer@.len(),
            k <= needed,
            buffer@.len() == start.len(),
            forall|j: int| 0 <= j < k ==> #[trigger] buffer@[j] == bs_byte(entries@, j),
            forall|j: int| k <= j < start.len() ==> #[trigger] buffer@[j] == start[j],
        decreases needed - k,
    {
        let byte = bs_byte_at(entries, k);
        buffer[k] = byte;
        k += 1;
    }
    proof {
        law_bs_buffer_pads_with_zero(entries@, buffer@);
    }
}

/// The `i32` stored little-endian at `bytes[at..at + 4]`.
pub open spec fn read_le_i32(bytes: Seq<u8>, at: int) -> i32 {
    ((bytes[at] as u32) | ((bytes[at + 1] as u32) << 8u32) | ((bytes[at + 2] as u32) << 16u32) | ((
    bytes[at + 3] as u32) << 24u32)) as i32
}

/// The `i16` stored little-endian at `bytes[at..at + 2]`.
pub open spec fn read_le_i16(bytes: Seq<u8>, at: int) -> i16 {
    ((bytes[at] as u16) | ((bytes[at + 1] as u16) << 8u16)) as i16
}

/// Channel `c`'s entry as a BS buffer holds it: its bias lane in the first
/// plane of its block, its constant and multiplier lanes in the other two.
pub open spec fn read_bs_entry(bytes: Seq<u8>, c: int) -> BsEntry {
    let base = (c / 8) * 64;
    let lane = c % 8;
    BsEntry {
        bias: read_le_i32(bytes, base + lane * 4),
        constant: read_le_i16(bytes, base + 32 + lane * 2),
        multiplier: read_le_i16(bytes, base + 48 + lane * 2),
    }
}

proof fn lemma_slot(c: int, plane: int, b: int)
    requires
        0 <= c,
        0 <= plane < 3,
        0 <= b < if plane == 0 { 4int } else { 2int },
    ensures
        bs_slot(
            (c / 8) * 64 + if plane == 0 {
                (c % 8) * 4
            } else if plane == 1 {
                32 + (c % 8) * 2
            } else {
                48 + (c % 8) * 2
            } + b,
        ) == (c, plane, b),
        (c / 8) * 64 + if plane == 0 {
            (c % 8) * 4
        } else if plane == 1 {
            32 + (c % 8) * 2
        } else {
            48 + (c % 8) * 2
        } + b < bs_bytes(c + 1),
{
    let q = c / 8;
    let l = c % 8;
    let r = if plane == 0 {
        l * 4
    } else if plane == 1 {
        32 + l * 2
    } else {
        48 + l * 2
    } + b;
    assert(0 <= r < 64);
    let k = q * 64 + r;
    vstd::arithmetic::div_mod::lemma_fundamental_div_mod_converse(k, 64, q, r);
    assert(k / 64 == q && k % 64 == r);
    assert(c == q * 8 + l);
    vstd::arithmetic::div_mod::lemma_fundamental_div_mod_converse(c + 1 + 7, 8, q + 1, l);
}

/// A BS buffer gives back each channel's bias, constant and multiplier,
/// read little-endian from that channel's lanes.
pub proof fn law_bs_buffer_reads_back(entries: Seq<BsEntry>, bytes: Seq<u8>, c: int)
    requires
        0 <= c < entries.len(),
        bs_bytes(entries.len() as int) <= bytes.len(),
        forall|k: int| 0 <= k < bs_bytes(entries.len() as int) ==> #[trigger] bytes[k] == bs_byte(entries, k),
    ensures
        read_bs_entry(bytes, c) == entries[c],
{
    let base = (c / 8) * 64;
    let lane = c % 8;
    assert(bs_bytes(c + 1) <= bs_bytes(entries.len() as int)) by {
        vstd::arithmetic::div_mod::lemma_div_is_ordered(c + 1 + 7, entries.len() as int + 7, 8);
    }
    lemma_slot(c, 0, 0);
    lemma_slot(c, 0, 1);
    lemma_slot(c, 0, 2);
    lemma_slot(c, 0, 3);
    lemma_slot(c, 1, 0);
    lemma_slot(c, 1, 1);
    lemma_slot(c, 2, 0);
    lemma_slot(c, 2, 1);
    let e = entries[c];
    let x = e.bias as u32;
    assert(bytes[base + lane * 4] == le_byte(x, 0));
    assert(bytes[base + lane * 4 + 1] == le_byte(x, 1));
    assert(bytes[base + lane * 4 + 2] == le_byte(x, 2));
    assert(bytes[base + lane * 4 + 3] == le_byte(x, 3));
    let bias = e.bias;
    assert((((bias as u32) as u8 as u32) | ((((bias as u32) >> 8u32) as u8 as u32) << 8u32) | (((
    (bias as u32) >> 16u32) as u8 as u32) << 16u32) | ((((bias as u32) >> 24u32) as u8 as u32)
        << 24u32)) as i32 == bias) by (bit_vector);
    let y = e.constant;
    assert(bytes[base + 32 + lane * 2] == le_byte(y as u16 as u32, 0));
    assert(bytes[base + 32 + lane * 2 + 1] == le_byte(y as u16 as u32, 1));
    assert((((y as u16 as u32) as u8 as u16) | ((((y as u16 as u32) >> 8u32) as u8 as u16)
        << 8u16)) as i16 == y) by (bit_vector);
    let z = e.multiplier;
    assert(bytes[base + 48 + lane * 2] == le_byte(z as u16 as u32, 0));
    assert(bytes[base + 48 + lane * 2 + 1] == le_byte(z as u16 as u32, 1));
    assert((((z as u16 as u32) as u8 as u16) | ((((z as u16 as u32) >> 8u32) as u8 as u16)
        << 8u16)) as i16 == z) by (bit_vector);
}

/// Whether the eight bytes of channel `c`'s lanes in `bytes` are all zero:
/// its four bias bytes at `(c / 8) * 64 + (c % 8) * 4`, its two constant
/// bytes 32 further on in the block and its two multiplier bytes 48 on.
pub open spec fn channel_lanes_zero(bytes: Seq<u8>, c: int) -> bool {
    let base = (c / 8) * 64;
    let lane = c % 8;
    &&& bytes[base + lane * 4] == 0
    &&& bytes[base + lane * 4 + 1] == 0
    &&& bytes[base + lane * 4 + 2] == 0
    &&& bytes[base + lane * 4 + 3] == 0
    &&& bytes[base + 32 + lane * 2] == 0
    &&& bytes[base + 32 + lane * 2 + 1] == 0
    &&& bytes[base + 48 + lane * 2] == 0
    &&& bytes[base + 48 + lane * 2 + 1] == 0
}

/// A BS buffer for `channels` output channels pads its last block: every
/// lane of the channels from `channels` up to the next multiple of eight is
/// zero, in all three planes.
pub proof fn law_bs_buffer_pads_with_zero(entries: Seq<BsEntry>, bytes: Seq<u8>)
    requires
        bs_bytes(entries.len() as int) <= bytes.len(),
        forall|k: int| 0 <= k < bs_bytes(entries.len() as int) ==> #[trigger] bytes[k] == bs_byte(entries, k),
    ensures
        forall|c: int|
            entries.len() <= c < ((entries.len() + 7) / 8) * 8 ==> #[trigger] channel_lanes_zero(
                bytes,
                c,
            ),
{
    let n = entries.len() as int;
    let q = (n + 7) / 8;
    assert forall|c: int| n <= c < q * 8 implies #[trigger] channel_lanes_zero(bytes, c) by {
        vstd::arithmetic::div_mod::lemma_fundamental_div_mod_converse(q * 8 + 7, 8, q, 7);
        vstd::arithmetic::div_mod::lemma_div_is_ordered(c + 1 + 7, q * 8 + 7, 8);
        assert(bs_bytes(c + 1) <= bs_bytes(n));
        lemma_slot(c, 0, 0);
        lemma_slot(c, 0, 1);
        lemma_slot(c, 0, 2);
        lemma_slot(c, 0, 3);
        lemma_slot(c, 1, 0);
        lemma_slot(c, 1, 1);
        lemma_slot(c, 2, 0);
        lemma_slot(c, 2, 1);
    }
}

} // verus!
