//! The laws of the layout engine, stated over the model in
//! [`crate::layout_model`] and proved once and for all: how the session
//! alignment evolves over a sequence of writes, what finalization guarantees,
//! that empty values are skipped, and what each policy's array rule promises
//! about element slots.
use vstd::prelude::*;

use crate::layout_model::{
    elem_slot_align, lemma_mod_add, lemma_mod_multiple_of_16, lemma_pad_len,
    lemma_round_up_minimal, merged_align, merged_bytes, nat_max, padded_to, round_up_to,
};
use crate::{array_merge, AsGpuBytes};

verus! {

/// The session alignment after a sequence of writes, each given as the
/// serialized value's bytes and alignment, starting from `init`.
pub open spec fn session_align(init: nat, writes: Seq<(Seq<u8>, nat)>) -> nat
    decreases writes.len(),
{
    if writes.len() == 0 {
        init
    } else {
        merged_align(session_align(init, writes.drop_last()), writes.last().0, writes.last().1)
    }
}

/// The largest alignment among the writes whose byte view is non-empty;
/// an empty write contributes nothing.
pub open spec fn peak_align(writes: Seq<(Seq<u8>, nat)>) -> nat
    decreases writes.len(),
{
    if writes.len() == 0 {
        0
    } else {
        nat_max(
            peak_align(writes.drop_last()),
            if writes.last().0.len() == 0 {
                0
            } else {
                writes.last().1
            },
        )
    }
}

/// Alignment monotonicity: over any sequence of writes the session alignment
/// never falls — after any prefix it is at most what it is after the whole
/// sequence — and in the end it equals the largest of the initial alignment
/// (4 for a fresh session) and every non-empty write's alignment.
pub proof fn lemma_alignment_monotonic(init: nat, writes: Seq<(Seq<u8>, nat)>, i: int)
    requires
        0 <= i <= writes.len(),
    ensures
        init <= session_align(init, writes),
        session_align(init, writes.take(i)) <= session_align(init, writes),
        session_align(init, writes) == nat_max(init, peak_align(writes)),
    decreases writes.len(),
{
    if writes.len() == 0 {
        assert(writes.take(i) =~= writes);
    } else {
        let prefix = writes.drop_last();
        let j = if i <= prefix.len() {
            i
        } else {
            prefix.len() as int
        };
        lemma_alignment_monotonic(init, prefix, j);
        if i < writes.len() {
            assert(writes.take(i) =~= prefix.take(i));
        } else {
            assert(writes.take(i) =~= writes);
        }
    }
}

/// Finalization: the finished length is a multiple of the session alignment;
/// an already aligned buffer is returned unchanged, so re-padding a finished
/// buffer appends no bytes.
pub proof fn lemma_finish_aligned(s: Seq<u8>, a: nat)
    requires
        a >= 1,
    ensures
        padded_to(s, a).len() % a == 0,
        s.len() % a == 0 ==> padded_to(s, a) == s,
        padded_to(padded_to(s, a), a) == padded_to(s, a),
{
    lemma_pad_len(s.len(), a);
    assert(padded_to(s, a).len() == round_up_to(s.len(), a));
    if s.len() % a == 0 {
        assert(padded_to(s, a) =~= s);
    }
    lemma_pad_len(padded_to(s, a).len(), a);
    assert(padded_to(padded_to(s, a), a) =~= padded_to(s, a));
}

/// Zero-size no-op: merging a value whose byte view is empty leaves both the
/// buffer and the session alignment unchanged, whatever alignment the value
/// declared.
pub proof fn lemma_zero_size_noop(buf: Seq<u8>, align: nat, a: nat)
    ensures
        merged_bytes(buf, Seq::<u8>::empty(), a) == buf,
        merged_align(align, Seq::<u8>::empty(), a) == align,
{
}

/// Strict-policy slot size: starting from a buffer whose length is a multiple
/// of 16, one array element — bytes `b` of natural alignment `a` — occupies a
/// slot, leading padding plus self-padded bytes, whose size is a multiple of
/// 16, and leaves the buffer length a multiple of 16 again.
pub proof fn lemma_strict_slot(buf: Seq<u8>, b: Seq<u8>, a: nat)
    requires
        a >= 1,
        buf.len() % 16 == 0,
    ensures
        ({
            let ea = elem_slot_align(true, a);
            let slot = padded_to(b, ea);
            let out = merged_bytes(buf, slot, ea);
            out.len() % 16 == 0 && (out.len() - buf.len()) % 16 == 0
        }),
{
    let ea = elem_slot_align(true, a);
    lemma_pad_len(a, 16);
    let slot = padded_to(b, ea);
    lemma_pad_len(b.len(), ea);
    lemma_mod_multiple_of_16(slot.len(), ea);
    if slot.len() > 0 {
        let out = merged_bytes(buf, slot, ea);
        lemma_pad_len(buf.len(), ea);
        let start = round_up_to(buf.len(), ea);
        lemma_mod_multiple_of_16(start, ea);
        assert(out.len() == start + slot.len());
        lemma_mod_add(start, slot.len(), 16);
        assert((out.len() - buf.len()) % 16 == 0) by (nonlinear_arith)
            requires
                out.len() % 16 == 0,
                buf.len() % 16 == 0,
                out.len() >= buf.len(),
        ;
    }
}

/// Strict-policy array writes keep the buffer length a multiple of 16 from
/// start to finish, provided every element reports a positive alignment.
pub proof fn lemma_strict_array_len<T: AsGpuBytes>(bytes: Seq<u8>, align: nat, elems: Seq<T>)
    requires
        bytes.len() % 16 == 0,
        forall|i: int| 0 <= i < elems.len() ==> #[trigger] elems[i].spec_align(true) >= 1,
    ensures
        array_merge(true, bytes, align, elems).0.len() % 16 == 0,
    decreases elems.len(),
{
    if elems.len() > 0 {
        let ea = elem_slot_align(true, elems[0].spec_align(true));
        let slot = padded_to(elems[0].spec_bytes(true), ea);
        lemma_strict_slot(bytes, elems[0].spec_bytes(true), elems[0].spec_align(true));
        let rest = elems.drop_first();
        assert(forall|i: int|
            0 <= i < rest.len() ==> #[trigger] rest[i].spec_align(true) >= 1) by {
            assert(forall|i: int| 0 <= i < rest.len() ==> rest[i] == elems[i + 1]);
        }
        lemma_strict_array_len(
            merged_bytes(bytes, slot, ea),
            merged_align(align, slot, ea),
            rest,
        );
    }
}

/// Tight-policy density: a non-empty element of natural alignment `a` begins
/// exactly at the smallest offset at or after the end of the buffer that is a
/// multiple of `a` — the elements are separated by exactly the padding its
/// natural alignment needs, with no rounding to 16.
pub proof fn lemma_tight_element_offset(buf: Seq<u8>, b: Seq<u8>, a: nat)
    requires
        a >= 1,
        b.len() > 0,
    ensures
        ({
            let slot = padded_to(b, a);
            let out = merged_bytes(buf, slot, a);
            let start = round_up_to(buf.len(), a);
            &&& out.subrange(start as int, start + b.len() as int) == b
            &&& start % a == 0
            &&& start - buf.len() < a
            &&& forall|o: nat| buf.len() <= o < start ==> #[trigger] (o % a) != 0
        }),
{
    let slot = padded_to(b, a);
    let out = merged_bytes(buf, slot, a);
    let start = round_up_to(buf.len(), a);
    lemma_pad_len(buf.len(), a);
    lemma_pad_len(b.len(), a);
    assert(padded_to(buf, a).len() == start);
    assert(out.subrange(start as int, start + b.len() as int) =~= b);
    assert forall|o: nat| buf.len() <= o < start implies #[trigger] (o % a) != 0 by {
        lemma_round_up_minimal(buf.len(), a, o);
    }
}

} // verus!
