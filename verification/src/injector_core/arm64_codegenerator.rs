//! Encoders for the handful of AArch64 instructions a patch is made of.
//!
//! Each encoder assembles one 32-bit instruction as an array of bits, least
//! significant bit first. Its contract gives the bit layout and the numeric
//! value of the resulting word, so that the published field positions can be
//! read back from the word.
use crate::injector_core::utils::{
    bit_of, bits_value, bool_array_to_u32, lemma_bit_of_shifted, lemma_bits_value_bound,
    lemma_bits_value_concat, lemma_bits_value_of_number, u64_to_bits, u8_to_bits,
};
use vstd::arithmetic::div_mod::*;
use vstd::arithmetic::power2::*;
use vstd::prelude::*;

verus! {

/// The low `width` bits of `n`, least significant first.
pub open spec fn number_bits(n: nat, width: nat) -> Seq<bool> {
    Seq::new(width, |i: int| bit_of(n, i as nat))
}

/// `width` bits of `n`, starting at bit `start`.
pub open spec fn field_bits(n: nat, start: nat, width: nat) -> Seq<bool> {
    Seq::new(width, |i: int| bit_of(n, (start + i) as nat))
}

/// Opcode field of MOVZ (move wide with zero).
pub open spec fn opc_movz() -> nat {
    2
}

/// Opcode field of MOVK (move wide with keep).
pub open spec fn opc_movk() -> nat {
    3
}

/// Bit layout of a move-wide instruction: `Rd` in bits 0..5, `imm16` in bits
/// 5..21, `hw` in bits 21..23, the fixed pattern `100101` in bits 23..29, `opc`
/// in bits 29..31 and `sf` in bit 31.
pub open spec fn move_wide_bits(
    opc: nat,
    sf: bool,
    hw: Seq<bool>,
    imm16: Seq<bool>,
    rd: Seq<bool>,
) -> Seq<bool> {
    rd + imm16 + hw + number_bits(0x25, 6) + number_bits(opc, 2) + seq![sf]
}

/// The word of a move-wide instruction with the given fields.
pub open spec fn move_wide_word(opc: nat, sf: bool, hw: nat, imm16: nat, rd: nat) -> nat {
    rd + 0x20 * imm16 + 0x20_0000 * hw + 0x80_0000 * 0x25 + 0x2000_0000 * opc + if sf {
        0x8000_0000nat
    } else {
        0nat
    }
}

/// The `Rd` field of a move-wide word.
pub open spec fn move_wide_rd(word: nat) -> nat {
    word % 0x20
}

/// The `imm16` field of a move-wide word.
pub open spec fn move_wide_imm16(word: nat) -> nat {
    (word / 0x20) % 0x1_0000
}

/// The `hw` field of a move-wide word: which 16-bit slice of the register the
/// immediate goes to.
pub open spec fn move_wide_hw(word: nat) -> nat {
    (word / 0x20_0000) % 4
}

/// The `opc` field of a move-wide word.
pub open spec fn move_wide_opc(word: nat) -> nat {
    (word / 0x2000_0000) % 4
}

/// The `sf` bit of a move-wide word.
pub open spec fn move_wide_sf(word: nat) -> bool {
    word / 0x8000_0000 == 1
}

/// Bit layout of a branch to the address in register `rn`: `RET` when `ret` is
/// set, `BR` otherwise. The register sits in bits 5..10; the two instructions
/// differ in bit 22 only.
pub open spec fn branch_register_bits(ret: bool, rn: Seq<bool>) -> Seq<bool> {
    number_bits(0, 5) + rn + number_bits(0, 6) + number_bits(0x1f, 5) + seq![false, ret]
        + number_bits(0x1ac, 9)
}

/// The word of `BR Xn`.
pub open spec fn br_word(rn: nat) -> nat {
    0xd61f_0000 + 0x20 * rn
}

/// The word of `RET Xn`.
pub open spec fn ret_word(rn: nat) -> nat {
    0xd65f_0000 + 0x20 * rn
}

/// Whether a `B` instruction at `pc` reaches `target`: the byte displacement,
/// counted in words, has to fit the signed 26-bit immediate.
pub open spec fn short_branch_reaches(pc: int, target: int) -> bool {
    -0x800_0000 <= target - pc < 0x800_0000
}

/// The word of `B` with the given byte displacement: the displacement in
/// words, in two's complement, in the low 26 bits.
pub open spec fn b_word(displacement: int) -> int {
    0x1400_0000 + (displacement / 4) % 0x400_0000
}

/// Where the `B` instruction `word` at `pc` branches to: the low 26 bits of
/// the word, read as a signed number of words from `pc`.
pub open spec fn b_target(pc: int, word: int) -> int {
    let imm26 = word % 0x400_0000;
    if imm26 < 0x200_0000 {
        pc + 4 * imm26
    } else {
        pc + 4 * (imm26 - 0x400_0000)
    }
}

/// The 16-bit slice of `address` that starts at bit `start`.
pub open spec fn address_slice(address: nat, start: nat) -> nat {
    (address / pow2(start)) % 0x1_0000
}

/// The jump to `target` by absolute address, through the scratch register
/// `rn`:
///
///   movz xn, #imm0, lsl #0
///   movk xn, #imm1, lsl #16
///   movk xn, #imm2, lsl #32
///   movk xn, #imm3, lsl #48
///   br xn
///
/// The slices come lowest first: `movz` clears the rest of the register and
/// each `movk` leaves in place what the instructions before it have loaded.
pub open spec fn absolute_jump_words(target: nat, rn: nat) -> Seq<u32> {
    seq![
        move_wide_word(opc_movz(), true, 0, address_slice(target, 0), rn) as u32,
        move_wide_word(opc_movk(), true, 1, address_slice(target, 16), rn) as u32,
        move_wide_word(opc_movk(), true, 2, address_slice(target, 32), rn) as u32,
        move_wide_word(opc_movk(), true, 3, address_slice(target, 48), rn) as u32,
        br_word(rn) as u32,
    ]
}

/// The four slices that an absolute jump loads make up the target address.
pub proof fn lemma_slices_compose(target: nat)
    requires
        target < 0x1_0000_0000_0000_0000,
    ensures
        address_slice(target, 0) + 0x1_0000 * address_slice(target, 16) + 0x1_0000_0000
            * address_slice(target, 32) + 0x1_0000_0000_0000 * address_slice(target, 48) == target,
{
    lemma2_to64();
    lemma2_to64_rest();
    assert(pow2(0) == 1 && pow2(16) == 0x1_0000 && pow2(32) == 0x1_0000_0000 && pow2(48)
        == 0x1_0000_0000_0000);
    let t = target as int;
    let q1 = t / 0x1_0000;
    let q2 = q1 / 0x1_0000;
    let q3 = q2 / 0x1_0000;
    lemma_div_denominator(t, 0x1_0000, 0x1_0000);
    lemma_div_denominator(t, 0x1_0000_0000, 0x1_0000);
    assert(t / 0x1_0000_0000 == q2);
    assert(t / 0x1_0000_0000_0000 == q3);
    assert(address_slice(target, 0) == t % 0x1_0000);
    assert(address_slice(target, 16) == q1 % 0x1_0000);
    assert(address_slice(target, 32) == q2 % 0x1_0000);
    assert(address_slice(target, 48) == q3 % 0x1_0000);
    assert(q3 < 0x1_0000);
}

/// A `B` encoded for a displacement within reach is the branch opcode `000101`
/// over an immediate that leads from `pc` to the target, forward or backward.
pub proof fn lemma_b_reaches_target(pc: int, target: int)
    requires
        short_branch_reaches(pc, target),
        (target - pc) % 4 == 0,
    ensures
        b_word(target - pc) / 0x400_0000 == 5,
        b_target(pc, b_word(target - pc)) == target,
{
    let words = (target - pc) / 4;
    let imm26 = words % 0x400_0000;
    assert(0x1400_0000 == 5 * 0x400_0000);
    lemma_fundamental_div_mod_converse(b_word(target - pc), 0x400_0000, 5, imm26);
    if words >= 0 {
        lemma_small_mod(words as nat, 0x400_0000);
    } else {
        lemma_fundamental_div_mod_converse(words, 0x400_0000, -1, words + 0x400_0000);
    }
}

/// The bits of a small constant denote it.
proof fn lemma_number_bits_value(n: nat, width: nat)
    requires
        n < pow2(width),
    ensures
        bits_value(number_bits(n, width)) == n,
{
    lemma_bits_value_of_number(number_bits(n, width), n);
    lemma_small_mod(n, pow2(width));
}

/// The bits of a field of a number denote that field.
pub proof fn lemma_field_bits_value(n: nat, start: nat, width: nat)
    ensures
        bits_value(field_bits(n, start, width)) == (n / pow2(start)) % pow2(width),
{
    let bits = field_bits(n, start, width);
    assert forall|i: int| 0 <= i < bits.len() implies bits[i] == bit_of(
        n / pow2(start),
        i as nat,
    ) by {
        lemma_bit_of_shifted(n, start, i as nat);
    }
    lemma_bits_value_of_number(bits, n / pow2(start));
}

/// The value of a move-wide bit layout is the move-wide word of its fields.
pub proof fn lemma_move_wide_value(
    opc: nat,
    sf: bool,
    hw: Seq<bool>,
    imm16: Seq<bool>,
    rd: Seq<bool>,
)
    requires
        opc < 4,
        hw.len() == 2,
        imm16.len() == 16,
        rd.len() == 5,
    ensures
        bits_value(move_wide_bits(opc, sf, hw, imm16, rd)) == move_wide_word(
            opc,
            sf,
            bits_value(hw),
            bits_value(imm16),
            bits_value(rd),
        ),
{
    lemma2_to64();
    let fixed = number_bits(0x25, 6);
    let op = number_bits(opc, 2);
    let top = seq![sf];
    lemma_number_bits_value(0x25, 6);
    lemma_number_bits_value(opc, 2);
    assert(bits_value(top) == if sf { 1nat } else { 0nat }) by {
        assert(top.drop_last().len() == 0);
        assert(bits_value(top.drop_last()) == 0);
    }
    lemma_bits_value_concat(rd, imm16);
    lemma_bits_value_concat(rd + imm16, hw);
    lemma_bits_value_concat(rd + imm16 + hw, fixed);
    lemma_bits_value_concat(rd + imm16 + hw + fixed, op);
    lemma_bits_value_concat(rd + imm16 + hw + fixed + op, top);
}

/// The value of a branch-to-register bit layout is the `BR` or `RET` word.
pub proof fn lemma_branch_register_value(ret: bool, rn: Seq<bool>)
    requires
        rn.len() == 5,
    ensures
        bits_value(branch_register_bits(ret, rn)) == if ret {
            ret_word(bits_value(rn))
        } else {
            br_word(bits_value(rn))
        },
{
    lemma2_to64();
    let zeros5 = number_bits(0, 5);
    let zeros6 = number_bits(0, 6);
    let ones = number_bits(0x1f, 5);
    let kind = seq![false, ret];
    let top = number_bits(0x1ac, 9);
    lemma_number_bits_value(0, 5);
    lemma_number_bits_value(0, 6);
    lemma_number_bits_value(0x1f, 5);
    lemma_number_bits_value(0x1ac, 9);
    assert(bits_value(kind) == if ret { 2nat } else { 0nat }) by {
        assert(kind.drop_last() =~= seq![false]);
        assert(kind.drop_last().drop_last().len() == 0);
        assert(bits_value(kind.drop_last().drop_last()) == 0);
        assert(bits_value(kind.drop_last()) == 0);
    }
    lemma_bits_value_concat(zeros5, rn);
    lemma_bits_value_concat(zeros5 + rn, zeros6);
    lemma_bits_value_concat(zeros5 + rn + zeros6, ones);
    lemma_bits_value_concat(zeros5 + rn + zeros6 + ones, kind);
    lemma_bits_value_concat(zeros5 + rn + zeros6 + ones + kind, top);
}

/// Reading the published fields back from a move-wide word yields the register,
/// the immediate, the half-word selector, the opcode and the width bit that it
/// was encoded from.
pub proof fn lemma_move_wide_round_trip(opc: nat, sf: bool, hw: nat, imm16: nat, rd: nat)
    requires
        opc < 4,
        hw < 4,
        imm16 < 0x1_0000,
        rd < 0x20,
    ensures
        move_wide_word(opc, sf, hw, imm16, rd) < 0x1_0000_0000,
        move_wide_rd(move_wide_word(opc, sf, hw, imm16, rd)) == rd,
        move_wide_imm16(move_wide_word(opc, sf, hw, imm16, rd)) == imm16,
        move_wide_hw(move_wide_word(opc, sf, hw, imm16, rd)) == hw,
        move_wide_opc(move_wide_word(opc, sf, hw, imm16, rd)) == opc,
        move_wide_sf(move_wide_word(opc, sf, hw, imm16, rd)) == sf,
{
    let word = move_wide_word(opc, sf, hw, imm16, rd) as int;
    let width: int = if sf { 1 } else { 0 };
    let above_opc = width;
    let above_fixed = opc + 4 * above_opc;
    let above_hw = 0x25 + 0x40 * above_fixed;
    let above_imm = hw + 4 * above_hw;
    let above_rd = imm16 + 0x1_0000 * above_imm;
    assert(word == rd + 0x20 * above_rd);
    lemma_fundamental_div_mod_converse(word, 0x20, above_rd, rd as int);
    lemma_fundamental_div_mod_converse(above_rd, 0x1_0000, above_imm, imm16 as int);
    lemma_div_denominator(word, 0x20, 0x1_0000);
    assert(word / 0x20_0000 == above_imm);
    lemma_fundamental_div_mod_converse(above_imm, 4, above_hw, hw as int);
    lemma_div_denominator(word, 0x20_0000, 4);
    assert(word / 0x80_0000 == above_hw);
    lemma_fundamental_div_mod_converse(above_hw, 0x40, above_fixed, 0x25);
    lemma_div_denominator(word, 0x80_0000, 0x40);
    assert(word / 0x2000_0000 == above_fixed);
    lemma_fundamental_div_mod_converse(above_fixed, 4, above_opc, opc as int);
    lemma_div_denominator(word, 0x2000_0000, 4);
}

/// The word that a move-wide encoder produces gives back what it was encoded
/// from: reading the published fields of the word yields the register, the
/// immediate and the half-word selector that went in, bit for bit, together
/// with the opcode and the width bit.
pub proof fn lemma_encoded_fields_read_back(
    opc: nat,
    sf: bool,
    hw: Seq<bool>,
    imm16: Seq<bool>,
    rd: Seq<bool>,
)
    requires
        opc < 4,
        hw.len() == 2,
        imm16.len() == 16,
        rd.len() == 5,
    ensures
        bits_value(move_wide_bits(opc, sf, hw, imm16, rd)) < 0x1_0000_0000,
        move_wide_rd(bits_value(move_wide_bits(opc, sf, hw, imm16, rd))) == bits_value(rd),
        move_wide_imm16(bits_value(move_wide_bits(opc, sf, hw, imm16, rd))) == bits_value(imm16),
        move_wide_hw(bits_value(move_wide_bits(opc, sf, hw, imm16, rd))) == bits_value(hw),
        move_wide_opc(bits_value(move_wide_bits(opc, sf, hw, imm16, rd))) == opc,
        move_wide_sf(bits_value(move_wide_bits(opc, sf, hw, imm16, rd))) == sf,
{
    lemma2_to64();
    lemma_bits_value_bound(hw);
    lemma_bits_value_bound(imm16);
    lemma_bits_value_bound(rd);
    lemma_move_wide_value(opc, sf, hw, imm16, rd);
    lemma_move_wide_round_trip(opc, sf, bits_value(hw), bits_value(imm16), bits_value(rd));
}

/// The fixed fields of the instructions, bit by bit.
proof fn lemma_fixed_fields()
    ensures
        number_bits(0x25, 6) == seq![true, false, true, false, false, true],
        number_bits(0x2, 2) == seq![false, true],
        number_bits(0x3, 2) == seq![true, true],
        number_bits(0x0, 5) == seq![false, false, false, false, false],
        number_bits(0x0, 6) == seq![false, false, false, false, false, false],
        number_bits(0x1f, 5) == seq![true, true, true, true, true],
        number_bits(0x1ac, 9) == seq![false, false, true, true, false, true, false, true, true],
{
    lemma2_to64();
    assert(bit_of(0x25, 0));
    assert(!bit_of(0x25, 1));
    assert(bit_of(0x25, 2));
    assert(!bit_of(0x25, 3));
    assert(!bit_of(0x25, 4));
    assert(bit_of(0x25, 5));
    assert(number_bits(0x25, 6) =~= seq![true, false, true, false, false, true]);
    assert(!bit_of(0x2, 0));
    assert(bit_of(0x2, 1));
    assert(number_bits(0x2, 2) =~= seq![false, true]);
    assert(bit_of(0x3, 0));
    assert(bit_of(0x3, 1));
    assert(number_bits(0x3, 2) =~= seq![true, true]);
    assert(!bit_of(0x0, 0));
    assert(!bit_of(0x0, 1));
    assert(!bit_of(0x0, 2));
    assert(!bit_of(0x0, 3));
    assert(!bit_of(0x0, 4));
    assert(number_bits(0x0, 5) =~= seq![false, false, false, false, false]);
    assert(!bit_of(0x0, 0));
    assert(!bit_of(0x0, 1));
    assert(!bit_of(0x0, 2));
    assert(!bit_of(0x0, 3));
    assert(!bit_of(0x0, 4));
    assert(!bit_of(0x0, 5));
    assert(number_bits(0x0, 6) =~= seq![false, false, false, false, false, false]);
    assert(bit_of(0x1f, 0));
    assert(bit_of(0x1f, 1));
    assert(bit_of(0x1f, 2));
    assert(bit_of(0x1f, 3));
    assert(bit_of(0x1f, 4));
    assert(number_bits(0x1f, 5) =~= seq![true, true, true, true, true]);
    assert(!bit_of(0x1ac, 0));
    assert(!bit_of(0x1ac, 1));
    assert(bit_of(0x1ac, 2));
    assert(bit_of(0x1ac, 3));
    assert(!bit_of(0x1ac, 4));
    assert(bit_of(0x1ac, 5));
    assert(!bit_of(0x1ac, 6));
    assert(bit_of(0x1ac, 7));
    assert(bit_of(0x1ac, 8));
    assert(number_bits(0x1ac, 9) =~= seq![
        false,
        false,
        true,
        true,
        false,
        true,
        false,
        true,
        true,
    ]);
}

/// Copies `field` into `code`, starting at bit `start`.
fn place_bits<const N: usize>(code: &mut [bool; 32], start: usize, field: &[bool; N])
    requires
        start + N <= 32,
    ensures
        forall|i: int| start <= i < start + N ==> final(code)[i] == field[i - start],
        forall|i: int| 0 <= i < 32 && !(start <= i < start + N) ==> final(code)[i] == old(code)[i],
{
    let mut i: usize = 0;
    while i < N
        invariant
            i <= N,
            start + N <= 32,
            forall|j: int| start <= j < start + i ==> code[j] == field[j - start],
            forall|j: int| 0 <= j < 32 && !(start <= j < start + i) ==> code[j] == old(code)[j],
        decreases N - i,
    {
        code[start + i] = field[i];
        i += 1;
    }
}

/// Assembles a move-wide instruction with the given opcode bits.
fn emit_move_wide(
    opc: [bool; 2],
    value_bits: [bool; 16],
    sf: bool,
    hw: [bool; 2],
    register_name: [bool; 5],
) -> (code_bits: [bool; 32])
    ensures
        code_bits@ =~= register_name@ + value_bits@ + hw@ + number_bits(0x25, 6) + opc@ + seq![sf],
{
    let mut code_bits = [false; 32];
    place_bits(&mut code_bits, 0, &register_name);
    place_bits(&mut code_bits, 5, &value_bits);
    place_bits(&mut code_bits, 21, &hw);
    let fixed_bits = [true, false, true, false, false, true];
    place_bits(&mut code_bits, 23, &fixed_bits);
    place_bits(&mut code_bits, 29, &opc);
    code_bits[31] = sf;
    proof {
        lemma_fixed_fields();
    }
    code_bits
}

/// Builds the 32-bit MOVK (move wide with keep) instruction from:
/// 1. The 5-bit register name.
/// 2. The 16-bit immediate value (`value_bits`).
/// 3. The 2-bit `hw` value.
/// 4. Fixed bits: 1,0,1,0,0,1 then 1,1.
/// 5. Finally the `sf` bit.
pub fn emit_movk(
    value_bits: [bool; 16],
    sf: bool,
    hw: [bool; 2],
    register_name: [bool; 5],
) -> (code_bits: [bool; 32])
    ensures
        code_bits@ == move_wide_bits(opc_movk(), sf, hw@, value_bits@, register_name@),
        bits_value(code_bits@) == move_wide_word(
            opc_movk(),
            sf,
            bits_value(hw@),
            bits_value(value_bits@),
            bits_value(register_name@),
        ),
{
    let opc = [true, true];
    let code_bits = emit_move_wide(opc, value_bits, sf, hw, register_name);
    proof {
        lemma_fixed_fields();
        assert(opc@ =~= number_bits(opc_movk(), 2));
        lemma_move_wide_value(opc_movk(), sf, hw@, value_bits@, register_name@);
    }
    code_bits
}

/// Assembles a 32-bit MOVZ (move wide with zero) instruction from:
/// 1. The 5-bit register name.
/// 2. The 16-bit immediate value (`value_bits`).
/// 3. The 2-bit hardware field (`hw`).
/// 4. Fixed bits: 1,0,1,0,0,1 followed by 0,1.
/// 5. Finally, the `sf` bit.
pub fn emit_movz(
    value_bits: [bool; 16],
    sf: bool,
    hw: [bool; 2],
    register_name: [bool; 5],
) -> (code_bits: [bool; 32])
    ensures
        code_bits@ == move_wide_bits(opc_movz(), sf, hw@, value_bits@, register_name@),
        bits_value(code_bits@) == move_wide_word(
            opc_movz(),
            sf,
            bits_value(hw@),
            bits_value(value_bits@),
            bits_value(register_name@),
        ),
{
    let opc = [false, true];
    let code_bits = emit_move_wide(opc, value_bits, sf, hw, register_name);
    proof {
        lemma_fixed_fields();
        assert(opc@ =~= number_bits(opc_movz(), 2));
        lemma_move_wide_value(opc_movz(), sf, hw@, value_bits@, register_name@);
    }
    code_bits
}

/// The 16 bits of `address` that start at bit `start`.
fn address_field(address: u64, start: usize) -> (value_bits: [bool; 16])
    requires
        start + 16 <= 64,
    ensures
        value_bits@ == field_bits(address as nat, start as nat, 16),
        bits_value(value_bits@) == (address as nat / pow2(start as nat)) % 0x1_0000,
{
    let address_bits = u64_to_bits(address);
    let mut value_bits = [false; 16];
    let mut i: usize = 0;
    while i < 16
        invariant
            i <= 16,
            start + 16 <= 64,
            forall|j: int| 0 <= j < 64 ==> address_bits[j] == bit_of(address as nat, j as nat),
            forall|j: int|
                0 <= j < i ==> value_bits[j] == bit_of(address as nat, (start + j) as nat),
        decreases 16 - i,
    {
        value_bits[i] = address_bits[start + i];
        i += 1;
    }
    proof {
        assert(value_bits@ =~= field_bits(address as nat, start as nat, 16));
        lemma_field_bits_value(address as nat, start as nat, 16);
        lemma2_to64();
    }
    value_bits
}

/// Extracts the 16 bits of `address` that start at bit `start` and builds the
/// MOVK instruction that writes them to slice `hw` of the register.
///
/// The field has to lie within the address: `start` is at most 48.
pub fn emit_movk_from_address(
    address: u64,
    start: usize,
    sf: bool,
    hw: [bool; 2],
    register_name: [bool; 5],
) -> (code_bits: [bool; 32])
    requires
        start + 16 <= 64,
    ensures
        code_bits@ == move_wide_bits(
            opc_movk(),
            sf,
            hw@,
            field_bits(address as nat, start as nat, 16),
            register_name@,
        ),
        bits_value(code_bits@) == move_wide_word(
            opc_movk(),
            sf,
            bits_value(hw@),
            (address as nat / pow2(start as nat)) % 0x1_0000,
            bits_value(register_name@),
        ),
{
    let value_bits = address_field(address, start);
    emit_movk(value_bits, sf, hw, register_name)
}

/// Extracts the 16 bits of `address` that start at bit `start` and builds the
/// MOVZ instruction that loads them into slice `hw` of the register.
///
/// The field has to lie within the address: `start` is at most 48.
pub fn emit_movz_from_address(
    address: u64,
    start: usize,
    sf: bool,
    hw: [bool; 2],
    register_name: [bool; 5],
) -> (code_bits: [bool; 32])
    requires
        start + 16 <= 64,
    ensures
        code_bits@ == move_wide_bits(
            opc_movz(),
            sf,
            hw@,
            field_bits(address as nat, start as nat, 16),
            register_name@,
        ),
        bits_value(code_bits@) == move_wide_word(
            opc_movz(),
            sf,
            bits_value(hw@),
            (address as nat / pow2(start as nat)) % 0x1_0000,
            bits_value(register_name@),
        ),
{
    let value_bits = address_field(address, start);
    emit_movz(value_bits, sf, hw, register_name)
}

/// Assembles a branch to the address held in a register.
fn emit_branch_register(ret: bool, register_name: &[bool; 5]) -> (code_bits: [bool; 32])
    ensures
        code_bits@ == branch_register_bits(ret, register_name@),
        bits_value(code_bits@) == if ret {
            ret_word(bits_value(register_name@))
        } else {
            br_word(bits_value(register_name@))
        },
{
    let mut code_bits = [false; 32];
    place_bits(&mut code_bits, 5, register_name);
    let ones = [true, true, true, true, true];
    place_bits(&mut code_bits, 16, &ones);
    code_bits[21] = false;
    code_bits[22] = ret;
    code_bits[23] = false;
    code_bits[24] = false;
    let top = [true, true, false, true, false, true, true];
    place_bits(&mut code_bits, 25, &top);
    proof {
        lemma_fixed_fields();
        assert(code_bits@ =~= branch_register_bits(ret, register_name@));
        lemma_branch_register_value(ret, register_name@);
    }
    code_bits
}

/// C6.2.220 RET
/// Return from subroutine branches unconditionally to an address in a register,
/// with a hint that this is a subroutine return.
pub fn emit_ret(register_name: &[bool; 5]) -> (code_bits: [bool; 32])
    ensures
        code_bits@ == branch_register_bits(true, register_name@),
        bits_value(code_bits@) == ret_word(bits_value(register_name@)),
{
    emit_branch_register(true, register_name)
}

/// C6.2.220 RET
/// x30, the link register, holds the address to be branched to.
pub fn emit_ret_x30() -> (code_bits: [bool; 32])
    ensures
        bits_value(code_bits@) == ret_word(30),
        bits_value(code_bits@) == 0xd65f_03c0,
{
    proof {
        lemma2_to64();
        assert(pow2(5) == 32);
    }
    let register_name = u8_to_bits::<5>(30);
    emit_ret(&register_name)
}

/// Emit a 32-bit BR (Branch to Register) instruction from a 5-bit register name.
pub fn emit_br(register_name: [bool; 5]) -> (code_bits: [bool; 32])
    ensures
        code_bits@ == branch_register_bits(false, register_name@),
        bits_value(code_bits@) == br_word(bits_value(register_name@)),
{
    emit_branch_register(false, &register_name)
}

/// Emits the jump to `target` by absolute address through the register
/// numbered `register`: the address is loaded slice by slice, low bits first,
/// and then branched to.
pub fn emit_absolute_jump(target: u64, register: u8) -> (words: Vec<u32>)
    requires
        register < 32,
    ensures
        words@ == absolute_jump_words(target as nat, register as nat),
{
    proof {
        lemma2_to64();
        assert(pow2(5) == 32 && pow2(2) == 4);
    }
    let register_name: [bool; 5] = u8_to_bits::<5>(register);
    let hw0 = u8_to_bits::<2>(0);
    let hw1 = u8_to_bits::<2>(1);
    let hw2 = u8_to_bits::<2>(2);
    let hw3 = u8_to_bits::<2>(3);

    // MOVZ xn, #imm0 (clears the rest)
    let movz = emit_movz_from_address(target, 0, true, hw0, register_name);

    // MOVK xn, #imm1, LSL #16
    let movk1 = emit_movk_from_address(target, 16, true, hw1, register_name);

    // MOVK xn, #imm2, LSL #32
    let movk2 = emit_movk_from_address(target, 32, true, hw2, register_name);

    // MOVK xn, #imm3, LSL #48
    let movk3 = emit_movk_from_address(target, 48, true, hw3, register_name);

    // BR xn
    let br = emit_br(register_name);

    let mut words: Vec<u32> = Vec::with_capacity(5);
    words.push(bool_array_to_u32(movz));
    words.push(bool_array_to_u32(movk1));
    words.push(bool_array_to_u32(movk2));
    words.push(bool_array_to_u32(movk3));
    words.push(bool_array_to_u32(br));
    assert(words@ =~= absolute_jump_words(target as nat, register as nat));
    words
}

/// Emit machine code for a jump from `pc` to `target`: a single `B` when the
/// target is within the ±128MB that its immediate reaches, and otherwise the
/// jump by absolute address through the scratch register `x16`.
pub fn maybe_emit_long_jump(pc: usize, target: usize) -> (words: Vec<u32>)
    ensures
        short_branch_reaches(pc as int, target as int) ==> words@ == seq![
            b_word(target - pc) as u32,
        ],
        !short_branch_reaches(pc as int, target as int) ==> words@ == absolute_jump_words(
            target as nat,
            16,
        ),
        b_word(target - pc) < 0x1800_0000,
{
    // Simple B case where we are in bounds.
    let disp: i128 = (target as i128) - (pc as i128);
    if -0x800_0000 <= disp && disp < 0x800_0000 {
        let imm26: u32 = (#[verifier::truncate] ((disp >> 2) as u32)) & 0x03ff_ffff;
        let b_inst: u32 = (0b000101u32 << 26) | imm26;
        proof {
            assert(imm26 == (disp / 4) % 0x400_0000) by (bit_vector)
                requires
                    imm26 == ((disp >> 2) as u32) & 0x03ff_ffff,
            ;
            assert(b_inst == 0x1400_0000 + imm26) by (bit_vector)
                requires
                    b_inst == (0b000101u32 << 26) | imm26,
                    imm26 < 0x400_0000,
            ;
        }
        let mut words: Vec<u32> = Vec::with_capacity(1);
        words.push(b_inst);
        return words;
    }
    // We are storing the address in x16.

    emit_absolute_jump(target as u64, 16)
}

} // verus!
