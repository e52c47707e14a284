//! Conversions between integers and little-endian arrays of bits.
//!
//! An instruction is assembled bit by bit in a `[bool; 32]`, least significant
//! bit first, and turned into a word at the end. The contracts here tie the
//! two representations together through [`bits_value`].
use vstd::arithmetic::div_mod::*;
use vstd::arithmetic::mul::*;
use vstd::arithmetic::power2::*;
use vstd::bits::*;
use vstd::prelude::*;

verus! {

/// Bit `i` of `n`, counting from the least significant bit.
pub open spec fn bit_of(n: nat, i: nat) -> bool {
    (n / pow2(i)) % 2 == 1
}

/// The number whose binary digits are `bits`, least significant first.
pub open spec fn bits_value(bits: Seq<bool>) -> nat
    decreases bits.len(),
{
    if bits.len() == 0 {
        0
    } else {
        bits_value(bits.drop_last()) + if bits.last() {
            pow2((bits.len() - 1) as nat)
        } else {
            0
        }
    }
}

/// A sequence of `k` bits denotes a number below `2^k`.
pub proof fn lemma_bits_value_bound(bits: Seq<bool>)
    ensures
        bits_value(bits) < pow2(bits.len()),
    decreases bits.len(),
{
    if bits.len() == 0 {
        lemma2_to64();
    } else {
        lemma_bits_value_bound(bits.drop_last());
        lemma_pow2_unfold(bits.len());
    }
}

/// Appending bits adds their value, scaled by the length of what precedes them.
pub proof fn lemma_bits_value_concat(low: Seq<bool>, high: Seq<bool>)
    ensures
        bits_value(low + high) == bits_value(low) + pow2(low.len()) * bits_value(high),
    decreases high.len(),
{
    if high.len() == 0 {
        assert(low + high =~= low);
        assert(bits_value(high) == 0);
        assert(pow2(low.len()) * bits_value(high) == 0) by (nonlinear_arith)
            requires
                bits_value(high) == 0,
        ;
    } else {
        let all = low + high;
        assert(all.drop_last() =~= low + high.drop_last());
        assert(all.last() == high.last());
        lemma_bits_value_concat(low, high.drop_last());
        lemma_pow2_adds(low.len(), (high.len() - 1) as nat);
        let scale = pow2(low.len()) as int;
        let rest = bits_value(high.drop_last()) as int;
        let top = pow2((high.len() - 1) as nat) as int;
        assert(all.len() - 1 == low.len() + (high.len() - 1));
        assert(scale * (rest + top) == scale * rest + scale * top) by (nonlinear_arith);
        assert(bits_value(all) == bits_value(all.drop_last()) + if all.last() {
            pow2((all.len() - 1) as nat)
        } else {
            0
        });
        assert(bits_value(high) == rest + if high.last() {
            top
        } else {
            0
        });
    }
}

/// Bits read off a number denote that number, reduced to their count.
pub proof fn lemma_bits_value_of_number(bits: Seq<bool>, n: nat)
    requires
        forall|i: int| 0 <= i < bits.len() ==> bits[i] == bit_of(n, i as nat),
    ensures
        bits_value(bits) == n % pow2(bits.len()),
    decreases bits.len(),
{
    if bits.len() == 0 {
        lemma2_to64();
    } else {
        let k = (bits.len() - 1) as nat;
        lemma_bits_value_of_number(bits.drop_last(), n);
        lemma_pow2_pos(k);
        lemma_pow2_unfold(bits.len());
        lemma_breakdown(n as int, pow2(k) as int, 2);
        assert(pow2(bits.len()) == pow2(k) * 2) by (nonlinear_arith)
            requires
                pow2(bits.len()) == 2 * pow2(k),
        ;
        assert(bits.last() == bit_of(n, k));
    }
}

/// Bit `i` of `n / 2^start` is bit `start + i` of `n`.
pub proof fn lemma_bit_of_shifted(n: nat, start: nat, i: nat)
    ensures
        bit_of(n / pow2(start), i) == bit_of(n, start + i),
{
    lemma_pow2_pos(start);
    lemma_pow2_pos(i);
    lemma_pow2_adds(start, i);
    lemma_div_denominator(n as int, pow2(start) as int, pow2(i) as int);
}

/// Convert a u64 value into a [bool; 64] array of bits.
/// Bit 0 is the least-significant bit.
pub fn u64_to_bits(n: u64) -> (bits: [bool; 64])
    ensures
        forall|i: int| 0 <= i < 64 ==> bits[i] == bit_of(n as nat, i as nat),
        bits_value(bits@) == n,
{
    let mut bits = [false; 64];
    let mut i: usize = 0;
    while i < 64
        invariant
            i <= 64,
            forall|j: int| 0 <= j < i ==> bits[j] == bit_of(n as nat, j as nat),
        decreases 64 - i,
    {
        let shift: u64 = i as u64;
        let shifted: u64 = n >> shift;
        proof {
            lemma_u64_shr_is_div(n, shift);
            assert(((shifted & 1) != 0) == (shifted % 2 == 1)) by (bit_vector);
        }
        bits[i] = (shifted & 1) != 0;
        i += 1;
    }
    proof {
        lemma_bits_value_of_number(bits@, n as nat);
        lemma2_to64_rest();
        lemma_small_mod(n as nat, pow2(64));
    }
    bits
}

/// Converts an 8-bit number into an array of N booleans representing its bits.
/// The least-significant bit is at index 0.
///
/// A `u8` has eight bits, so `N` is at most 8, and `n` has to fit the field:
/// it is below `2^N`.
pub fn u8_to_bits<const N: usize>(n: u8) -> (bits: [bool; N])
    requires
        N <= 8,
        n < pow2(N as nat),
    ensures
        forall|i: int| 0 <= i < N ==> bits[i] == bit_of(n as nat, i as nat),
        bits_value(bits@) == n,
{
    let mut bits = [false; N];
    let mut i: usize = 0;
    while i < N
        invariant
            i <= N <= 8,
            forall|j: int| 0 <= j < i ==> bits[j] == bit_of(n as nat, j as nat),
        decreases N - i,
    {
        let shift: u8 = i as u8;
        let shifted: u8 = n >> shift;
        proof {
            lemma_u8_shr_is_div(n, shift);
            assert(((shifted & 1) != 0) == (shifted % 2 == 1)) by (bit_vector);
        }
        bits[i] = (shifted & 1) != 0;
        i += 1;
    }
    proof {
        lemma_bits_value_of_number(bits@, n as nat);
        lemma_small_mod(n as nat, pow2(N as nat));
    }
    bits
}

/// Packs 32 bits, least significant first, into a word.
pub fn bool_array_to_u32(bits: [bool; 32]) -> (word: u32)
    ensures
        word == bits_value(bits@),
{
    let mut acc: u32 = 0;
    let mut i: usize = 0;
    while i < 32
        invariant
            i <= 32,
            acc == bits_value(bits@.take(i as int)),
        decreases 32 - i,
    {
        proof {
            let shift: u32 = i as u32;
            let prefix = bits@.take(i as int);
            lemma_bits_value_bound(prefix);
            lemma_u32_pow2_no_overflow(i as nat);
            lemma_u32_shl_is_mul(1, shift);
            assert(bits@.take(i + 1).drop_last() =~= prefix);
            let a = acc;
            assert(a < (1u32 << shift) ==> (a | (1u32 << shift)) == a + (1u32 << shift))
                by (bit_vector)
                requires
                    shift < 32,
            ;
        }
        if bits[i] {
            acc = acc | (1u32 << (i as u32));
        }
        i += 1;
    }
    proof {
        assert(bits@.take(32) =~= bits@);
    }
    acc
}

} // verus!
