//! Load-time relocation of a RISC-V image whose base address is only known
//! once its backing memory has been allocated.

use vstd::prelude::*;

verus! {

/// Relocation kind of an `auipc`+`jalr` call pair.
pub const R_RISCV_CALL: u32 = 18;

/// Relocation kind of a call pair that goes through the PLT.
pub const R_RISCV_CALL_PLT: u32 = 19;

/// Relocation kind of the upper 20 bits of an absolute address.
pub const R_RISCV_HI20: u32 = 26;

/// Relocation kind of the lower 12 bits of an absolute address (I-type).
pub const R_RISCV_LO12_I: u32 = 27;

/// One symbol table entry: its virtual address and the offset of its name.
#[derive(Clone, Copy, Debug, PartialEq, Eq)]
pub struct Symbol {
    pub value: u64,
    pub name: u32,
}

/// One relocation entry. `offset` is a virtual address inside the image.
#[derive(Clone, Copy, Debug, PartialEq, Eq)]
pub struct Relocation {
    pub r_type: u32,
    pub sym: u32,
    pub offset: u64,
    pub addend: i64,
}

/// Why a relocation could not be applied.
#[derive(Clone, Copy, Debug, PartialEq, Eq)]
pub enum RelocError {
    /// The symbol index is not in the symbol table.
    UnresolvedSymbol { index: u32 },
    /// The relocation kind is not one the engine patches.
    UnsupportedRelocation { r_type: u32 },
    /// The patch site does not lie inside the image buffer.
    OutOfRange { offset: u64 },
}

/// An integer reduced to the core's 32-bit address space.
pub open spec fn truncate32(x: int) -> u32 {
    (x % 0x1_0000_0000) as u32
}

/// Physical address of a virtual address of the image, in 32 bits.
pub open spec fn physical_address(load_base: u64, vaddr: u64, min_vaddr: u64) -> u32 {
    truncate32(load_base + (vaddr - min_vaddr))
}

/// Physical address a relocation points at: the symbol's, plus the addend.
pub open spec fn symbol_physical(load_base: u64, sym_virt: u64, min_vaddr: u64, addend: i64) -> u32 {
    truncate32(load_base + (sym_virt - min_vaddr) + addend)
}

/// The little-endian 32-bit word that starts at byte `at`.
pub open spec fn word_at(bytes: Seq<u8>, at: int) -> u32 {
    (bytes[at] + 0x100 * bytes[at + 1] + 0x1_0000 * bytes[at + 2] + 0x100_0000 * bytes[at + 3]) as u32
}

/// `bytes` with the little-endian word `w` stored at byte `at`.
pub open spec fn with_word(bytes: Seq<u8>, at: int, w: u32) -> Seq<u8> {
    bytes.update(at, (w % 0x100) as u8).update(at + 1, ((w / 0x100) % 0x100) as u8).update(
        at + 2,
        ((w / 0x1_0000) % 0x100) as u8,
    ).update(at + 3, (w / 0x100_0000) as u8)
}

/// An instruction word whose bits 12 to 31 carry the upper part of `target`,
/// rounded so that the sign-extended lower 12 bits add up to `target`.
pub open spec fn hi20_patch(inst: u32, target: u32) -> u32 {
    (inst & 0xFFF) | (truncate32(target + 0x800) & 0xFFFF_F000)
}

/// An instruction word whose bits 20 to 31 carry the lower 12 bits of `target`.
pub open spec fn lo12_patch(inst: u32, target: u32) -> u32 {
    (inst & 0x000F_FFFF) | ((target & 0xFFF) << 20)
}

/// A 12-bit field read as a signed number.
pub open spec fn sign_extend12(field: u32) -> int {
    if field >= 0x800 {
        field - 0x1000
    } else {
        field as int
    }
}

/// The 32-bit value that an upper-immediate instruction and the I-type
/// instruction paired with it produce together.
pub open spec fn pair_value(hi_word: u32, lo_word: u32) -> u32 {
    truncate32((hi_word & 0xFFFF_F000) + sign_extend12(lo_word >> 20))
}

/// Whether the engine patches relocations of this kind.
pub open spec fn is_supported(r_type: u32) -> bool {
    r_type == R_RISCV_HI20 || r_type == R_RISCV_LO12_I || r_type == R_RISCV_CALL || r_type
        == R_RISCV_CALL_PLT
}

/// Number of bytes a relocation of this kind rewrites.
pub open spec fn patch_span(r_type: u32) -> int {
    if r_type == R_RISCV_CALL || r_type == R_RISCV_CALL_PLT {
        8
    } else {
        4
    }
}

/// Whether the patch site of a relocation lies inside an image of `len` bytes.
pub open spec fn site_in_range(len: nat, rel: Relocation, min_vaddr: u64) -> bool {
    rel.offset >= min_vaddr && rel.offset - min_vaddr + patch_span(rel.r_type) <= len
}

/// What applying one relocation to `bytes` gives: the patched image, or the
/// reason why nothing was patched.
pub open spec fn relocation_outcome(
    bytes: Seq<u8>,
    syms: Seq<Symbol>,
    load_base: u64,
    min_vaddr: u64,
    rel: Relocation,
) -> Result<Seq<u8>, RelocError> {
    if rel.sym >= syms.len() {
        Err(RelocError::UnresolvedSymbol { index: rel.sym })
    } else if !is_supported(rel.r_type) {
        Err(RelocError::UnsupportedRelocation { r_type: rel.r_type })
    } else if !site_in_range(bytes.len(), rel, min_vaddr) {
        Err(RelocError::OutOfRange { offset: rel.offset })
    } else {
        let at = rel.offset - min_vaddr;
        let target = symbol_physical(load_base, syms[rel.sym as int].value, min_vaddr, rel.addend);
        if rel.r_type == R_RISCV_HI20 {
            Ok(with_word(bytes, at, hi20_patch(word_at(bytes, at), target)))
        } else if rel.r_type == R_RISCV_LO12_I {
            Ok(with_word(bytes, at, lo12_patch(word_at(bytes, at), target)))
        } else {
            let site = physical_address(load_base, rel.offset, min_vaddr);
            let diff = truncate32(target - site);
            let first = with_word(bytes, at, hi20_patch(word_at(bytes, at), diff));
            Ok(with_word(first, at + 4, lo12_patch(word_at(first, at + 4), diff)))
        }
    }
}

/// What applying a list of relocations in order gives: the image after the
/// longest prefix that could be applied, and the error that stopped the run,
/// if one did.
pub open spec fn relocations_outcome(
    bytes: Seq<u8>,
    syms: Seq<Symbol>,
    load_base: u64,
    min_vaddr: u64,
    rels: Seq<Relocation>,
) -> (Seq<u8>, Option<RelocError>)
    decreases rels.len(),
{
    if rels.len() == 0 {
        (bytes, None)
    } else {
        let before = relocations_outcome(bytes, syms, load_base, min_vaddr, rels.drop_last());
        if before.1 is Some {
            before
        } else {
            match relocation_outcome(before.0, syms, load_base, min_vaddr, rels.last()) {
                Ok(patched) => (patched, None),
                Err(e) => (before.0, Some(e)),
            }
        }
    }
}

/// Translates a virtual address of the image to its 32-bit physical address.
pub fn translate(load_base: u64, vaddr: u64, min_vaddr: u64) -> (r: u32)
    ensures
        r == physical_address(load_base, vaddr, min_vaddr),
{
    let t: u128 = load_base as u128 + vaddr as u128 + (0x1_0000_0000_0000_0000u128
        - min_vaddr as u128);
    proof {
        vstd::arithmetic::div_mod::lemma_mod_multiples_vanish(
            0x1_0000_0000,
            load_base + (vaddr - min_vaddr),
            0x1_0000_0000,
        );
    }
    (t % 0x1_0000_0000u128) as u32
}

/// Computes the 32-bit physical address that a relocation points at.
pub fn resolve_symbol(load_base: u64, sym_virt: u64, min_vaddr: u64, addend: i64) -> (r: u32)
    ensures
        r == symbol_physical(load_base, sym_virt, min_vaddr, addend),
{
    let a: u128 = load_base as u128 + sym_virt as u128 + (0x1_0000_0000_0000_0000u128
        - min_vaddr as u128);
    let b: u128 = (addend as i128 + 0x8000_0000_0000_0000i128) as u128;
    let t: u128 = a + b;
    proof {
        vstd::arithmetic::div_mod::lemma_mod_multiples_vanish(
            0x1_8000_0000,
            load_base + (sym_virt - min_vaddr) + addend,
            0x1_0000_0000,
        );
    }
    (t % 0x1_0000_0000u128) as u32
}

/// Reads the little-endian word at byte `at`.
pub fn read_word(buf: &Vec<u8>, at: usize) -> (w: u32)
    requires
        at + 4 <= buf@.len(),
    ensures
        w == word_at(buf@, at as int),
{
    let len: usize = buf.len();
    let b0: u32 = buf[at] as u32;
    let b1: u32 = buf[at + 1] as u32;
    let b2: u32 = buf[at + 2] as u32;
    let b3: u32 = buf[at + 3] as u32;
    b0 + 0x100 * b1 + 0x1_0000 * b2 + 0x100_0000 * b3
}

/// Stores `w` as a little-endian word at byte `at`.
pub fn write_word(buf: &mut Vec<u8>, at: usize, w: u32)
    requires
        at + 4 <= old(buf)@.len(),
    ensures
        final(buf)@ == with_word(old(buf)@, at as int, w),
        final(buf)@.len() == old(buf)@.len(),
{
    let len: usize = buf.len();
    buf.set(at, (w % 0x100) as u8);
    buf.set(at + 1, ((w / 0x100) % 0x100) as u8);
    buf.set(at + 2, ((w / 0x1_0000) % 0x100) as u8);
    buf.set(at + 3, (w / 0x100_0000) as u8);
}

/// Computes the word that a `HI20` patch leaves at its site.
pub fn encode_hi20(inst: u32, target: u32) -> (r: u32)
    ensures
        r == hi20_patch(inst, target),
{
    let biased: u32 = ((target as u64 + 0x800) % 0x1_0000_0000) as u32;
    (inst & 0xFFF) | (biased & 0xFFFF_F000)
}

/// Computes the word that a `LO12_I` patch leaves at its site.
pub fn encode_lo12(inst: u32, target: u32) -> (r: u32)
    ensures
        r == lo12_patch(inst, target),
{
    (inst & 0x000F_FFFF) | ((target & 0xFFF) << 20)
}

/// Computes the distance from `site` to `target` in 32-bit wrapping
/// arithmetic.
pub fn displacement(target: u32, site: u32) -> (r: u32)
    ensures
        r == truncate32(target - site),
{
    if target >= site {
        target - site
    } else {
        let gap: u32 = site - target;
        (0xFFFF_FFFFu32 - gap) + 1
    }
}

/// Applies one relocation to the image in `buf`. The image is left as it was
/// whenever an error is returned.
pub fn apply_relocation(
    buf: &mut Vec<u8>,
    syms: &Vec<Symbol>,
    load_base: u64,
    min_vaddr: u64,
    rel: &Relocation,
) -> (r: Result<(), RelocError>)
    ensures
        match relocation_outcome(old(buf)@, syms@, load_base, min_vaddr, *rel) {
            Ok(patched) => r is Ok && final(buf)@ == patched,
            Err(e) => r == Err::<(), RelocError>(e) && final(buf)@ == old(buf)@,
        },
        final(buf)@.len() == old(buf)@.len(),
{
    if rel.sym as usize >= syms.len() {
        return Err(RelocError::UnresolvedSymbol { index: rel.sym });
    }
    let is_call = rel.r_type == R_RISCV_CALL || rel.r_type == R_RISCV_CALL_PLT;
    if !(is_call || rel.r_type == R_RISCV_HI20 || rel.r_type == R_RISCV_LO12_I) {
        return Err(RelocError::UnsupportedRelocation { r_type: rel.r_type });
    }
    let span: u64 = if is_call { 8 } else { 4 };
    let len: u64 = buf.len() as u64;
    if rel.offset < min_vaddr || len < span || rel.offset - min_vaddr > len - span {
        return Err(RelocError::OutOfRange { offset: rel.offset });
    }
    let at: usize = (rel.offset - min_vaddr) as usize;
    let target = resolve_symbol(load_base, syms[rel.sym as usize].value, min_vaddr, rel.addend);
    if rel.r_type == R_RISCV_HI20 {
        let word = encode_hi20(read_word(buf, at), target);
        write_word(buf, at, word);
    } else if rel.r_type == R_RISCV_LO12_I {
        let word = encode_lo12(read_word(buf, at), target);
        write_word(buf, at, word);
    } else {
        let site = translate(load_base, rel.offset, min_vaddr);
        let diff = displacement(target, site);
        let first = encode_hi20(read_word(buf, at), diff);
        write_word(buf, at, first);
        let second = encode_lo12(read_word(buf, at + 4), diff);
        write_word(buf, at + 4, second);
    }
    Ok(())
}

/// Applies the relocations in order and stops at the first that fails. The
/// patches made before the failure stay in the image.
pub fn apply_relocations(
    buf: &mut Vec<u8>,
    syms: &Vec<Symbol>,
    load_base: u64,
    min_vaddr: u64,
    rels: &Vec<Relocation>,
) -> (r: Result<(), RelocError>)
    ensures
        final(buf)@ == relocations_outcome(old(buf)@, syms@, load_base, min_vaddr, rels@).0,
        match relocations_outcome(old(buf)@, syms@, load_base, min_vaddr, rels@).1 {
            None => r is Ok,
            Some(e) => r == Err::<(), RelocError>(e),
        },
        final(buf)@.len() == old(buf)@.len(),
{
    let mut i: usize = 0;
    while i < rels.len()
        invariant
            i <= rels@.len(),
            buf@.len() == old(buf)@.len(),
            relocations_outcome(old(buf)@, syms@, load_base, min_vaddr, rels@.take(i as int)) == (
                buf@,
                None::<RelocError>,
            ),
        decreases rels@.len() - i,
    {
        let res = apply_relocation(buf, syms, load_base, min_vaddr, &rels[i]);
        proof {
            assert(rels@.take(i + 1).drop_last() == rels@.take(i as int));
            assert(rels@.take(i + 1).last() == rels@[i as int]);
        }
        match res {
            Ok(()) => {},
            Err(e) => {
                proof {
                    lemma_outcome_stops(
                        old(buf)@,
                        syms@,
                        load_base,
                        min_vaddr,
                        rels@,
                        i + 1,
                    );
                }
                return Err(e);
            },
        }
        i += 1;
    }
    proof {
        assert(rels@.take(i as int) == rels@);
    }
    Ok(())
}

/// Once a prefix of the relocations has failed, the rest is not applied.
pub proof fn lemma_outcome_stops(
    bytes: Seq<u8>,
    syms: Seq<Symbol>,
    load_base: u64,
    min_vaddr: u64,
    rels: Seq<Relocation>,
    n: int,
)
    requires
        0 <= n <= rels.len(),
        relocations_outcome(bytes, syms, load_base, min_vaddr, rels.take(n)).1 is Some,
    ensures
        relocations_outcome(bytes, syms, load_base, min_vaddr, rels) == relocations_outcome(
            bytes,
            syms,
            load_base,
            min_vaddr,
            rels.take(n),
        ),
    decreases rels.len() - n,
{
    if n == rels.len() {
        assert(rels.take(n) == rels);
    } else {
        assert(rels.drop_last().take(n) == rels.take(n));
        lemma_outcome_stops(bytes, syms, load_base, min_vaddr, rels.drop_last(), n);
    }
}

/// A word stored in an image reads back as itself, and storing it changes no
/// byte outside the four it occupies.
pub proof fn lemma_word_round_trip(bytes: Seq<u8>, at: int, w: u32)
    requires
        0 <= at,
        at + 4 <= bytes.len(),
    ensures
        word_at(with_word(bytes, at, w), at) == w,
        with_word(bytes, at, w).len() == bytes.len(),
        forall|i: int|
            0 <= i < bytes.len() && !(at <= i < at + 4) ==> #[trigger] with_word(bytes, at, w)[i]
                == bytes[i],
{
}

/// A `HI20` patch and a `LO12_I` patch of one target give a pair of
/// instructions that together produce the target. The first keeps the low 12
/// bits of its instruction, the second the low 20 bits.
pub proof fn lemma_patched_pair_value(hi_inst: u32, lo_inst: u32, target: u32)
    ensures
        pair_value(hi20_patch(hi_inst, target), lo12_patch(lo_inst, target)) == target,
        hi20_patch(hi_inst, target) & 0xFFF == hi_inst & 0xFFF,
        lo12_patch(lo_inst, target) & 0x000F_FFFF == lo_inst & 0x000F_FFFF,
        hi20_patch(hi_inst, target) & 0xFFFF_F000 == truncate32(target + 0x800) & 0xFFFF_F000,
        lo12_patch(lo_inst, target) >> 20 == target & 0xFFF,
{
    let biased = truncate32(target + 0x800);
    let h = hi20_patch(hi_inst, target);
    let l = lo12_patch(lo_inst, target);
    assert(h & 0xFFFF_F000 == biased & 0xFFFF_F000 && h & 0xFFF == hi_inst & 0xFFF)
        by (bit_vector)
        requires
            h == (hi_inst & 0xFFF) | (biased & 0xFFFF_F000),
    ;
    assert(l >> 20 == target & 0xFFF && l & 0x000F_FFFF == lo_inst & 0x000F_FFFF)
        by (bit_vector)
        requires
            l == (lo_inst & 0x000F_FFFF) | ((target & 0xFFF) << 20),
    ;
    assert(biased & 0xFFFF_F000 == biased - biased % 0x1000) by (bit_vector);
    assert(target & 0xFFF == target % 0x1000) by (bit_vector);
}

/// Applying a `HI20` and a `LO12_I` relocation of one symbol, with addend 0,
/// at two sites that do not overlap leaves a pair of instructions that
/// together produce the symbol's physical address.
pub proof fn lemma_absolute_pair_resolves(
    bytes: Seq<u8>,
    syms: Seq<Symbol>,
    load_base: u64,
    min_vaddr: u64,
    sym: u32,
    hi_offset: u64,
    lo_offset: u64,
)
    requires
        sym < syms.len(),
        hi_offset >= min_vaddr,
        lo_offset >= min_vaddr,
        hi_offset - min_vaddr + 4 <= bytes.len(),
        lo_offset - min_vaddr + 4 <= bytes.len(),
        hi_offset + 4 <= lo_offset || lo_offset + 4 <= hi_offset,
    ensures
        ({
            let hi = Relocation { r_type: R_RISCV_HI20, sym, offset: hi_offset, addend: 0 };
            let lo = Relocation { r_type: R_RISCV_LO12_I, sym, offset: lo_offset, addend: 0 };
            let run = relocations_outcome(bytes, syms, load_base, min_vaddr, seq![hi, lo]);
            run.1 is None && pair_value(
                word_at(run.0, hi_offset - min_vaddr),
                word_at(run.0, lo_offset - min_vaddr),
            ) == symbol_physical(load_base, syms[sym as int].value, min_vaddr, 0)
        }),
{
    let hi = Relocation { r_type: R_RISCV_HI20, sym, offset: hi_offset, addend: 0 };
    let lo = Relocation { r_type: R_RISCV_LO12_I, sym, offset: lo_offset, addend: 0 };
    let rels = seq![hi, lo];
    let hi_at = hi_offset - min_vaddr;
    let lo_at = lo_offset - min_vaddr;
    let target = symbol_physical(load_base, syms[sym as int].value, min_vaddr, 0);
    assert(rels.drop_last() == seq![hi]);
    assert(seq![hi].drop_last() == Seq::<Relocation>::empty());
    reveal_with_fuel(relocations_outcome, 3);
    let hi_word = hi20_patch(word_at(bytes, hi_at), target);
    let first = with_word(bytes, hi_at, hi_word);
    assert(relocations_outcome(bytes, syms, load_base, min_vaddr, seq![hi]) == (
        first,
        None::<RelocError>,
    ));
    lemma_word_round_trip(bytes, hi_at, hi_word);
    let lo_word = lo12_patch(word_at(first, lo_at), target);
    let second = with_word(first, lo_at, lo_word);
    lemma_word_round_trip(first, lo_at, lo_word);
    assert(word_at(second, hi_at) == hi_word);
    lemma_patched_pair_value(word_at(bytes, hi_at), word_at(first, lo_at), target);
}

/// Applying a `CALL` or `CALL_PLT` relocation leaves a pair of instructions
/// that together produce the distance from the patch site to the symbol, in
/// 32-bit wrapping arithmetic.
pub proof fn lemma_call_pair_resolves(
    bytes: Seq<u8>,
    syms: Seq<Symbol>,
    load_base: u64,
    min_vaddr: u64,
    rel: Relocation,
)
    requires
        rel.r_type == R_RISCV_CALL || rel.r_type == R_RISCV_CALL_PLT,
        rel.sym < syms.len(),
        site_in_range(bytes.len(), rel, min_vaddr),
    ensures
        relocation_outcome(bytes, syms, load_base, min_vaddr, rel) is Ok,
        ({
            let out = relocation_outcome(bytes, syms, load_base, min_vaddr, rel)->Ok_0;
            let at = rel.offset - min_vaddr;
            pair_value(word_at(out, at), word_at(out, at + 4)) == truncate32(
                symbol_physical(load_base, syms[rel.sym as int].value, min_vaddr, rel.addend)
                    - physical_address(load_base, rel.offset, min_vaddr),
            )
        }),
{
    let at = rel.offset - min_vaddr;
    let target = symbol_physical(load_base, syms[rel.sym as int].value, min_vaddr, rel.addend);
    let site = physical_address(load_base, rel.offset, min_vaddr);
    let diff = truncate32(target - site);
    let hi_word = hi20_patch(word_at(bytes, at), diff);
    let first = with_word(bytes, at, hi_word);
    lemma_word_round_trip(bytes, at, hi_word);
    let lo_word = lo12_patch(word_at(first, at + 4), diff);
    let second = with_word(first, at + 4, lo_word);
    lemma_word_round_trip(first, at + 4, lo_word);
    assert(word_at(second, at) == hi_word);
    lemma_patched_pair_value(word_at(bytes, at), word_at(first, at + 4), diff);
}

/// Patching an instruction a second time for the same target gives the word
/// that the first patch gave.
pub proof fn lemma_patch_idempotent(inst: u32, target: u32)
    ensures
        hi20_patch(hi20_patch(inst, target), target) == hi20_patch(inst, target),
        lo12_patch(lo12_patch(inst, target), target) == lo12_patch(inst, target),
{
    let biased = truncate32(target + 0x800);
    let h = hi20_patch(inst, target);
    let l = lo12_patch(inst, target);
    assert(((h & 0xFFF) | (biased & 0xFFFF_F000)) == h) by (bit_vector)
        requires
            h == (inst & 0xFFF) | (biased & 0xFFFF_F000),
    ;
    assert(((l & 0x000F_FFFF) | ((target & 0xFFF) << 20)) == l) by (bit_vector)
        requires
            l == (inst & 0x000F_FFFF) | ((target & 0xFFF) << 20),
    ;
}

/// Storing the word that an image already holds at a place changes nothing.
pub proof fn lemma_store_same_word(bytes: Seq<u8>, at: int)
    requires
        0 <= at,
        at + 4 <= bytes.len(),
    ensures
        with_word(bytes, at, word_at(bytes, at)) == bytes,
{
    let b0 = bytes[at] as u32;
    let b1 = bytes[at + 1] as u32;
    let b2 = bytes[at + 2] as u32;
    let b3 = bytes[at + 3] as u32;
    let w = word_at(bytes, at);
    assert(w % 0x100 == b0 && (w / 0x100) % 0x100 == b1 && (w / 0x1_0000) % 0x100 == b2 && w
        / 0x100_0000 == b3) by (bit_vector)
        requires
            b0 < 0x100,
            b1 < 0x100,
            b2 < 0x100,
            b3 < 0x100,
            w == b0 + 0x100 * b1 + 0x1_0000 * b2 + 0x100_0000 * b3,
    ;
    assert(with_word(bytes, at, w) =~= bytes);
}

/// Applying a relocation again, with nothing else changed, leaves the image
/// as the first application left it.
pub proof fn lemma_relocation_idempotent(
    bytes: Seq<u8>,
    syms: Seq<Symbol>,
    load_base: u64,
    min_vaddr: u64,
    rel: Relocation,
)
    requires
        relocation_outcome(bytes, syms, load_base, min_vaddr, rel) is Ok,
    ensures
        ({
            let once = relocation_outcome(bytes, syms, load_base, min_vaddr, rel)->Ok_0;
            relocation_outcome(once, syms, load_base, min_vaddr, rel) == Ok::<
                Seq<u8>,
                RelocError,
            >(once)
        }),
{
    let once = relocation_outcome(bytes, syms, load_base, min_vaddr, rel)->Ok_0;
    let at = rel.offset - min_vaddr;
    let target = symbol_physical(load_base, syms[rel.sym as int].value, min_vaddr, rel.addend);
    if rel.r_type == R_RISCV_HI20 {
        let word = hi20_patch(word_at(bytes, at), target);
        lemma_word_round_trip(bytes, at, word);
        lemma_patch_idempotent(word_at(bytes, at), target);
        lemma_store_same_word(once, at);
    } else if rel.r_type == R_RISCV_LO12_I {
        let word = lo12_patch(word_at(bytes, at), target);
        lemma_word_round_trip(bytes, at, word);
        lemma_patch_idempotent(word_at(bytes, at), target);
        lemma_store_same_word(once, at);
    } else {
        let site = physical_address(load_base, rel.offset, min_vaddr);
        let diff = truncate32(target - site);
        let hi_word = hi20_patch(word_at(bytes, at), diff);
        let first = with_word(bytes, at, hi_word);
        lemma_word_round_trip(bytes, at, hi_word);
        let lo_word = lo12_patch(word_at(first, at + 4), diff);
        lemma_word_round_trip(first, at + 4, lo_word);
        assert(word_at(once, at) == hi_word);
        lemma_patch_idempotent(word_at(bytes, at), diff);
        lemma_patch_idempotent(word_at(first, at + 4), diff);
        lemma_store_same_word(once, at);
        lemma_store_same_word(once, at + 4);
    }
}

/// Whether a relocation can be applied to an image of `len` bytes with
/// `symbols` symbols: its symbol resolves, its kind is supported and its
/// patch site lies inside the image.
pub open spec fn is_applicable(len: nat, symbols: nat, rel: Relocation, min_vaddr: u64) -> bool {
    rel.sym < symbols && is_supported(rel.r_type) && site_in_range(len, rel, min_vaddr)
}

/// A run of relocations never changes the size of the image, and it goes
/// through exactly when every relocation of it can be applied.
pub proof fn lemma_run_succeeds_iff(
    bytes: Seq<u8>,
    syms: Seq<Symbol>,
    load_base: u64,
    min_vaddr: u64,
    rels: Seq<Relocation>,
)
    ensures
        relocations_outcome(bytes, syms, load_base, min_vaddr, rels).0.len() == bytes.len(),
        relocations_outcome(bytes, syms, load_base, min_vaddr, rels).1 is None <==> forall|i: int|
            0 <= i < rels.len() ==> is_applicable(
                bytes.len(),
                syms.len(),
                #[trigger] rels[i],
                min_vaddr,
            ),
    decreases rels.len(),
{
    if rels.len() > 0 {
        let head = rels.drop_last();
        lemma_run_succeeds_iff(bytes, syms, load_base, min_vaddr, head);
        assert forall|i: int| 0 <= i < head.len() implies head[i] == rels[i] by {}
        let before = relocations_outcome(bytes, syms, load_base, min_vaddr, head);
        if before.1 is None {
            assert(is_applicable(bytes.len(), syms.len(), rels.last(), min_vaddr)
                <==> relocation_outcome(before.0, syms, load_base, min_vaddr, rels.last()) is Ok);
            if is_applicable(bytes.len(), syms.len(), rels.last(), min_vaddr) {
                assert forall|i: int| 0 <= i < rels.len() implies is_applicable(
                    bytes.len(),
                    syms.len(),
                    #[trigger] rels[i],
                    min_vaddr,
                ) by {
                    if i < head.len() {
                        assert(head[i] == rels[i]);
                    }
                }
            } else {
                assert(rels[rels.len() - 1] == rels.last());
            }
        } else {
            let k = choose|k: int|
                0 <= k < head.len() && !is_applicable(
                    bytes.len(),
                    syms.len(),
                    #[trigger] head[k],
                    min_vaddr,
                );
            assert(head[k] == rels[k]);
        }
    }
}

} // verus!
