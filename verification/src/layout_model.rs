//! The mathematical model of the layout engine: padding arithmetic over byte
//! sequences and the alignment bookkeeping that a serialization session does.
use vstd::prelude::*;

verus! {

/// The larger of two alignments.
pub open spec fn nat_max(a: nat, b: nat) -> nat {
    if a >= b {
        a
    } else {
        b
    }
}

/// An alignment is a power of two.
pub open spec fn is_pow2(n: nat) -> bool
    decreases n,
{
    if n == 0 {
        false
    } else if n == 1 {
        true
    } else {
        n % 2 == 0 && is_pow2(n / 2)
    }
}

/// Number of zero bytes that advance an offset `n` to the next multiple of `a`.
pub open spec fn pad_len(n: nat, a: nat) -> nat
    recommends
        a >= 1,
{
    if n % a == 0 {
        0
    } else {
        (a - n % a) as nat
    }
}

/// The smallest multiple of `a` that is at least `n`.
pub open spec fn round_up_to(n: nat, a: nat) -> nat
    recommends
        a >= 1,
{
    n + pad_len(n, a)
}

/// A run of zero-valued padding bytes.
pub open spec fn zeros(n: nat) -> Seq<u8> {
    Seq::new(n, |i: int| 0u8)
}

/// `s` extended with zero bytes until its length is a multiple of `a`.
pub open spec fn padded_to(s: Seq<u8>, a: nat) -> Seq<u8>
    recommends
        a >= 1,
{
    s + zeros(pad_len(s.len(), a))
}

/// The buffer after merging a serialized value (`data` with alignment
/// `data_align`) into a buffer holding `buf`: an empty value is skipped,
/// otherwise the buffer is padded to the value's alignment and the value's
/// bytes follow verbatim.
pub open spec fn merged_bytes(buf: Seq<u8>, data: Seq<u8>, data_align: nat) -> Seq<u8>
    recommends
        data_align >= 1,
{
    if data.len() == 0 {
        buf
    } else {
        padded_to(buf, data_align) + data
    }
}

/// The session alignment after the same merge: an empty value is skipped,
/// otherwise the alignment rises to the value's alignment if that is larger.
pub open spec fn merged_align(align: nat, data: Seq<u8>, data_align: nat) -> nat {
    if data.len() == 0 {
        align
    } else {
        nat_max(align, data_align)
    }
}

/// The slot alignment of one array element of natural alignment `a`: the
/// strict policy rounds it up to the next multiple of 16, the tight policy
/// keeps it unchanged.
pub open spec fn elem_slot_align(strict: bool, a: nat) -> nat {
    if strict {
        round_up_to(a, 16)
    } else {
        a
    }
}

/// Basic facts about `pad_len` and `round_up_to`: the padding stops short of a
/// full extra row, the rounded offset is a multiple of `a`, and an already
/// aligned offset needs no padding.
pub proof fn lemma_pad_len(n: nat, a: nat)
    requires
        a >= 1,
    ensures
        pad_len(n, a) < a,
        round_up_to(n, a) % a == 0,
        n % a == 0 ==> round_up_to(n, a) == n,
        round_up_to(n, a) >= n,
{
    if n % a == 0 {
    } else {
        let r = n % a;
        assert(0 < r < a) by (nonlinear_arith)
            requires
                a >= 1,
                r == n % a,
                r != 0,
        ;
        assert((n + a - r) % (a as int) == 0) by (nonlinear_arith)
            requires
                a >= 1,
                r == n % a,
        ;
    }
}

/// Minimality of the padding: no offset strictly between `n` and
/// `round_up_to(n, a)` is a multiple of `a`.
pub proof fn lemma_round_up_minimal(n: nat, a: nat, o: nat)
    requires
        a >= 1,
        n <= o < round_up_to(n, a),
    ensures
        o % a != 0,
{
    lemma_pad_len(n, a);
    let m = round_up_to(n, a);
    assert(o % a != 0) by (nonlinear_arith)
        requires
            a >= 1,
            m % a == 0,
            m - a < o < m,
    ;
}

/// A sum of multiples of `a` is a multiple of `a`.
pub proof fn lemma_mod_add(x: nat, y: nat, a: nat)
    requires
        a >= 1,
        x % a == 0,
        y % a == 0,
    ensures
        (x + y) % a == 0,
{
    vstd::arithmetic::div_mod::lemma_add_mod_noop(x as int, y as int, a as int);
    vstd::arithmetic::div_mod::lemma_small_mod(0, a);
}

/// A multiple of a multiple of 16 is a multiple of 16.
pub proof fn lemma_mod_multiple_of_16(x: nat, a: nat)
    requires
        a >= 1,
        a % 16 == 0,
        x % a == 0,
    ensures
        x % 16 == 0,
{
    vstd::arithmetic::div_mod::lemma_fundamental_div_mod(x as int, a as int);
    vstd::arithmetic::div_mod::lemma_fundamental_div_mod(a as int, 16);
    let q = a as int / 16;
    let p = x as int / a as int;
    assert(x as int == (q * p) * 16) by (nonlinear_arith)
        requires
            x as int == (a as int) * p,
            a as int == 16 * q,
    ;
    vstd::arithmetic::div_mod::lemma_mod_multiples_basic(q * p, 16);
}

/// The possible values of a power of two: below 16 it is one of 1, 2, 4, 8,
/// and from 16 on it is a multiple of 16.
pub proof fn lemma_pow2_shape(a: nat)
    requires
        is_pow2(a),
    ensures
        a >= 1,
        a < 16 ==> (a == 1 || a == 2 || a == 4 || a == 8),
        a >= 16 ==> a % 16 == 0,
    decreases a,
{
    if a == 1 {
    } else {
        let h = a / 2;
        lemma_pow2_shape(h);
        assert(a == 2 * h) by (nonlinear_arith)
            requires
                a % 2 == 0,
                h == a / 2,
        ;
        if a >= 16 {
            if h < 16 {
                assert(a == 16);
            } else {
                assert(a % 16 == 0) by (nonlinear_arith)
                    requires
                        h % 16 == 0,
                        a == 2 * h,
                ;
            }
        }
    }
}

/// Rounding a power of two up to a multiple of 16 keeps it a power of two.
pub proof fn lemma_slot_align_pow2(strict: bool, a: nat)
    requires
        is_pow2(a),
    ensures
        is_pow2(elem_slot_align(strict, a)),
        elem_slot_align(strict, a) >= 1,
{
    lemma_pow2_shape(a);
    if strict {
        lemma_pad_len(a, 16);
        if a % 16 == 0 {
            assert(elem_slot_align(strict, a) == a);
        } else {
            assert(elem_slot_align(strict, a) == 16);
            lemma_small_pow2();
        }
    }
}

/// The small alignments of the primitive kinds are powers of two.
pub proof fn lemma_small_pow2()
    ensures
        is_pow2(1),
        is_pow2(2),
        is_pow2(4),
        is_pow2(8),
        is_pow2(16),
{
    assert(is_pow2(1nat));
    assert(is_pow2(2nat));
    assert(is_pow2(4nat));
    assert(is_pow2(8nat));
    assert(is_pow2(16nat));
}

} // verus!
