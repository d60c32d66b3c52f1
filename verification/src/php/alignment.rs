//! Rounding of sizes to the allocator's alignment, and the number of
//! value-sized slots that a structure of a given size takes up.

use vstd::prelude::*;
use vstd::arithmetic::div_mod::{lemma_fundamental_div_mod, lemma_mod_multiples_basic, lemma_mod_bound};
use vstd::arithmetic::power2::pow2;
use vstd::bits::{lemma_usize_pow2_no_overflow, lemma_usize_shl_is_mul, lemma_usize_shr_is_div};

verus! {

/// Whether `m` is a power of two that a `usize` can hold.
pub open spec fn is_power_of_two(m: int) -> bool {
    exists|k: nat| k < usize::BITS && m == pow2(k)
}

/// Whether `n` is a multiple of `modulus`.
pub open spec fn is_multiple_of(n: int, modulus: int) -> bool {
    n % modulus == 0
}

/// `size` rounded up to a multiple of `modulus`.
pub open spec fn round_up(size: int, modulus: int) -> int {
    ((size + modulus - 1) / modulus) * modulus
}

/// How many slots of `value_size` bytes, each rounded up to `modulus`, a
/// header of `header_size` bytes, rounded up likewise, takes up.
pub open spec fn slots_for(header_size: int, value_size: int, modulus: int) -> int {
    let header: int = round_up(header_size, modulus);
    let slot: int = round_up(value_size, modulus);
    (header + slot - 1) / slot
}

/// `round_up(size, modulus)` is a multiple of `modulus`, is not below `size`,
/// and exceeds it by less than `modulus`: it is the least such multiple.
pub proof fn lemma_round_up_is_next_multiple(size: int, modulus: int)
    requires
        modulus > 0,
    ensures
        is_multiple_of(round_up(size, modulus), modulus),
        size <= round_up(size, modulus) < size + modulus,
        forall|n: int| #[trigger] is_multiple_of(n, modulus) && n >= size ==> n >= round_up(size, modulus),
{
    let padded: int = size + modulus - 1;
    let q: int = padded / modulus;
    lemma_fundamental_div_mod(padded, modulus);
    lemma_mod_bound(padded, modulus);
    lemma_mod_multiples_basic(q, modulus);
    assert(q * modulus == modulus * q) by (nonlinear_arith);
    assert forall|n: int| #[trigger] is_multiple_of(n, modulus) && n >= size implies n >= round_up(
        size,
        modulus,
    ) by {
        lemma_fundamental_div_mod(n, modulus);
        let p: int = n / modulus;
        if p < q {
            assert(modulus * p <= modulus * (q - 1)) by (nonlinear_arith)
                requires
                    p <= q - 1,
                    modulus > 0,
            ;
            assert(modulus * (q - 1) == modulus * q - modulus) by (nonlinear_arith);
        } else {
            assert(modulus * p >= modulus * q) by (nonlinear_arith)
                requires
                    p >= q,
                    modulus > 0,
            ;
        }
    }
}

/// The slots counted by `slots_for` cover the rounded header, and one slot
/// fewer would not: the first slot behind them lies wholly behind the header.
pub proof fn lemma_slots_cover_header(header_size: int, value_size: int, modulus: int)
    requires
        modulus > 0,
        header_size >= 0,
        value_size > 0,
    ensures
        slots_for(header_size, value_size, modulus) >= 0,
        slots_for(header_size, value_size, modulus) * round_up(value_size, modulus) >= round_up(
            header_size,
            modulus,
        ),
        (slots_for(header_size, value_size, modulus) - 1) * round_up(value_size, modulus)
            < round_up(header_size, modulus),
{
    lemma_round_up_is_next_multiple(header_size, modulus);
    lemma_round_up_is_next_multiple(value_size, modulus);
    let header: int = round_up(header_size, modulus);
    let slot: int = round_up(value_size, modulus);
    let padded: int = header + slot - 1;
    let count: int = padded / slot;
    lemma_fundamental_div_mod(padded, slot);
    lemma_mod_bound(padded, slot);
    assert(count * slot == slot * count) by (nonlinear_arith);
    assert((count - 1) * slot == count * slot - slot) by (nonlinear_arith);
    assert(count >= 0) by (nonlinear_arith)
        requires
            slot * count > -slot,
            slot > 0,
    ;
}

proof fn lemma_mask_is_shift(x: usize, k: usize)
    by (bit_vector)
    requires
        k < usize::BITS,
    ensures
        x & !(((1usize << k) - 1) as usize) == (x >> k) << k,
{
}

/// Clearing the bits below a power of two rounds down to a multiple of it.
pub proof fn lemma_mask_rounds_down(x: usize, modulus: usize)
    requires
        is_power_of_two(modulus as int),
    ensures
        modulus > 0,
        x & !((modulus - 1) as usize) == (x as int / modulus as int) * modulus,
{
    let e: nat = choose|k: nat| k < usize::BITS && modulus as int == pow2(k);
    let k: usize = e as usize;
    lemma_usize_pow2_no_overflow(e);
    lemma_usize_shl_is_mul(1, k);
    assert(1usize << k == modulus);
    lemma_mask_is_shift(x, k);
    lemma_usize_shr_is_div(x, k);
    let q: usize = x >> k;
    assert(q == x as int / modulus as int);
    lemma_fundamental_div_mod(x as int, modulus as int);
    lemma_mod_bound(x as int, modulus as int);
    assert(q * modulus == modulus * q) by (nonlinear_arith);
    lemma_usize_shl_is_mul(q, k);
}

/// Rounds `raw_size` up to the next multiple of `alignment_modulus`, a power
/// of two, by adding the modulus less one and clearing the bits below it.
pub fn aligned_size(raw_size: usize, alignment_modulus: usize) -> (rounded: usize)
    requires
        is_power_of_two(alignment_modulus as int),
        raw_size + alignment_modulus - 1 <= usize::MAX,
    ensures
        rounded == round_up(raw_size as int, alignment_modulus as int),
        rounded % alignment_modulus == 0,
        raw_size <= rounded < raw_size + alignment_modulus,
{
    proof {
        lemma_mask_rounds_down(0, alignment_modulus);
    }
    let low_bits: usize = alignment_modulus - 1;
    let padded: usize = raw_size + low_bits;
    proof {
        lemma_mask_rounds_down(padded, alignment_modulus);
        lemma_round_up_is_next_multiple(raw_size as int, alignment_modulus as int);
    }
    padded & !low_bits
}

/// The number of value-sized slots that the header of a call frame takes up
/// before the first argument slot: the rounded header size divided by the
/// rounded value size, rounded up.
pub fn header_slot_count(header_size: usize, value_size: usize, alignment_modulus: usize) -> (count:
    usize)
    requires
        is_power_of_two(alignment_modulus as int),
        value_size > 0,
        header_size + alignment_modulus - 1 <= usize::MAX,
        value_size + alignment_modulus - 1 <= usize::MAX,
        round_up(header_size as int, alignment_modulus as int) + round_up(
            value_size as int,
            alignment_modulus as int,
        ) - 1 <= usize::MAX,
    ensures
        count == slots_for(header_size as int, value_size as int, alignment_modulus as int),
        count * round_up(value_size as int, alignment_modulus as int) >= round_up(
            header_size as int,
            alignment_modulus as int,
        ),
        (count - 1) * round_up(value_size as int, alignment_modulus as int) < round_up(
            header_size as int,
            alignment_modulus as int,
        ),
{
    proof {
        lemma_mask_rounds_down(0, alignment_modulus);
        lemma_round_up_is_next_multiple(header_size as int, alignment_modulus as int);
        lemma_round_up_is_next_multiple(value_size as int, alignment_modulus as int);
        lemma_slots_cover_header(header_size as int, value_size as int, alignment_modulus as int);
    }
    let header: usize = aligned_size(header_size, alignment_modulus);
    let slot: usize = aligned_size(value_size, alignment_modulus);
    (header + (slot - 1)) / slot
}

/// Whatever two calls of `header_slot_count` with the same sizes and the same
/// modulus return, it is the same count.
pub proof fn lemma_header_slot_count_is_constant(
    header_size: usize,
    value_size: usize,
    alignment_modulus: usize,
    first: usize,
    second: usize,
)
    requires
        call_ensures(header_slot_count, (header_size, value_size, alignment_modulus), first),
        call_ensures(header_slot_count, (header_size, value_size, alignment_modulus), second),
    ensures
        first == second,
        first == slots_for(header_size as int, value_size as int, alignment_modulus as int),
{
}

} // verus!
