//! A layout engine for GPU uniform and storage buffers: values are appended
//! to an alignment-tracking byte buffer under one of two packing policies,
//! the strict one ("std140") and the tight one ("std430"). The policies share
//! the single-value write rule and differ only in how array elements are
//! aligned: the strict policy rounds every element's alignment up to the next
//! multiple of 16 bytes, the tight policy keeps the natural alignment.
use core::marker::PhantomData;
use vstd::prelude::*;
use vstd::slice::slice_to_vec;

pub mod layout_model;
pub mod laws;
pub mod values;

pub use crate::values::{IVec2, IVec3, IVec4, UVec2, UVec3, UVec4};

use crate::layout_model::{
    elem_slot_align, is_pow2, lemma_pad_len, lemma_pow2_shape, lemma_slot_align_pow2,
    lemma_small_pow2, merged_align, merged_bytes, pad_len, padded_to, zeros,
};

verus! {

/// The identity of a layout policy as far as a single value is concerned:
/// whether the policy's array rule rounds element alignments up to 16 bytes.
/// Values consult this when they describe their own serialized form.
pub trait LayoutRule {
    /// Whether the policy rounds array-element alignments up to the next
    /// multiple of 16 bytes.
    spec fn strict_arrays() -> bool;

    /// The array rule as a runtime value.
    fn is_strict() -> (r: bool)
        ensures
            r == Self::strict_arrays(),
    ;
}

/// The capability every serializable value implements: report the raw bytes
/// and the required alignment of the value under a given layout policy. The
/// policy matters only to array-typed values; scalar and vector values report
/// a fixed, type-intrinsic alignment.
pub trait AsGpuBytes {
    /// The serialized bytes of the value, under the strict or the tight
    /// array rule.
    spec fn spec_bytes(&self, strict: bool) -> Seq<u8>;

    /// The required alignment of the value, under the strict or the tight
    /// array rule.
    spec fn spec_align(&self, strict: bool) -> nat;

    /// Produce the serialized form of the value for policy `L`: its raw
    /// bytes plus its required alignment.
    fn as_gpu_bytes<L: LayoutRule>(&self) -> (r: GpuBytes<L>)
        ensures
            r@ == self.spec_bytes(L::strict_arrays()),
            r.alignment() == self.spec_align(L::strict_arrays()),
    ;
}

/// The buffer and session alignment after merging, in order, each element of
/// `elems` as an array element: each element's serialized bytes are padded to
/// a whole slot of the policy's element alignment, and the slot is merged
/// under that alignment by the shared single-value rule.
pub open spec fn array_merge<T: AsGpuBytes>(
    strict: bool,
    bytes: Seq<u8>,
    align: nat,
    elems: Seq<T>,
) -> (Seq<u8>, nat)
    decreases elems.len(),
{
    if elems.len() == 0 {
        (bytes, align)
    } else {
        let ea = elem_slot_align(strict, elems[0].spec_align(strict));
        let slot = padded_to(elems[0].spec_bytes(strict), ea);
        array_merge(
            strict,
            merged_bytes(bytes, slot, ea),
            merged_align(align, slot, ea),
            elems.drop_first(),
        )
    }
}

/// A layout policy. Writing a single value is shared logic; only the
/// array-element alignment rule, supplied through [`LayoutRule`],
/// distinguishes the two policies.
pub trait GpuLayout: LayoutRule + Sized {
    /// The shared single-value write rule: merge the value's serialized form
    /// into the buffer.
    fn write<T: AsGpuBytes>(buf: &mut GpuBytes<Self>, data: &T)
        ensures
            final(buf)@ == merged_bytes(
                old(buf)@,
                data.spec_bytes(Self::strict_arrays()),
                data.spec_align(Self::strict_arrays()),
            ),
            final(buf).alignment() == merged_align(
                old(buf).alignment(),
                data.spec_bytes(Self::strict_arrays()),
                data.spec_align(Self::strict_arrays()),
            ),
            final(buf).alignment() >= old(buf).alignment(),
    {
        write_value(buf, data);
    }

    /// The array write rule: every element is padded out to a whole slot of
    /// the policy's element alignment and merged in order.
    fn write_array<T: AsGpuBytes>(buf: &mut GpuBytes<Self>, data: &[T])
        ensures
            final(buf)@ == array_merge(
                Self::strict_arrays(),
                old(buf)@,
                old(buf).alignment(),
                data@,
            ).0,
            final(buf).alignment() == array_merge(
                Self::strict_arrays(),
                old(buf)@,
                old(buf).alignment(),
                data@,
            ).1,
            final(buf).alignment() >= old(buf).alignment(),
    {
        write_array_elems(buf, data);
    }

    /// Pads the buffer with zero bytes up to the given alignment boundary.
    fn align_to(buf: &mut GpuBytes<Self>, alignment: usize)
        requires
            alignment >= 1,
        ensures
            final(buf)@ == padded_to(old(buf)@, alignment as nat),
            final(buf).alignment() == old(buf).alignment(),
    {
        buf.append_padding(alignment);
    }

    /// Pads the buffer as a whole to its own accumulated alignment.
    fn align(buf: &mut GpuBytes<Self>)
        ensures
            final(buf)@ == padded_to(old(buf)@, old(buf).alignment()),
            final(buf).alignment() == old(buf).alignment(),
    {
        proof {
            use_type_invariant(&*buf);
            lemma_pow2_shape(buf.alignment());
        }
        let alignment = buf.alignment;
        buf.append_padding(alignment);
    }

    /// Finalizes a session: pads the buffer to its accumulated alignment and
    /// returns the bytes, whose length is then a multiple of that alignment.
    fn finish(buf: GpuBytes<Self>) -> (r: Vec<u8>)
        ensures
            r@ == padded_to(buf@, buf.alignment()),
            r@.len() % buf.alignment() == 0,
    {
        proof {
            use_type_invariant(&buf);
            lemma_pow2_shape(buf.alignment());
            lemma_pad_len(buf@.len(), buf.alignment());
        }
        let mut b = buf;
        let alignment = b.alignment;
        b.append_padding(alignment);
        b.bytes
    }
}

/// An append-only byte buffer that tracks the largest alignment requirement
/// seen so far among the values written into it. The type parameter fixes the
/// layout policy the buffer is written under.
#[derive(Debug)]
pub struct GpuBytes<L: LayoutRule> {
    bytes: Vec<u8>,
    alignment: usize,
    layout: PhantomData<L>,
}

impl<L: LayoutRule> View for GpuBytes<L> {
    type V = Seq<u8>;

    closed spec fn view(&self) -> Seq<u8> {
        self.bytes@
    }
}

impl<L: LayoutRule> GpuBytes<L> {
    /// The largest alignment requirement observed so far, in bytes.
    pub closed spec fn alignment(&self) -> nat {
        self.alignment as nat
    }

    /// Every buffer carries a power-of-two alignment: it starts at 4 and only
    /// ever rises to another value's power-of-two alignment.
    #[verifier::type_invariant]
    closed spec fn alignment_inv(&self) -> bool {
        is_pow2(self.alignment())
    }

    /// A fresh, empty buffer; scalars need 4 bytes, so the session alignment
    /// starts there.
    pub fn empty() -> (r: Self)
        ensures
            r@ == Seq::<u8>::empty(),
            r.alignment() == 4,
    {
        proof {
            lemma_small_pow2();
        }
        GpuBytes { bytes: Vec::new(), alignment: 4, layout: PhantomData }
    }

    /// A buffer holding a copy of `data` with the given alignment; this is
    /// how a primitive value describes its serialized form.
    pub fn from_slice(data: &[u8], alignment: usize) -> (r: Self)
        requires
            is_pow2(alignment as nat),
        ensures
            r@ == data@,
            r.alignment() == alignment,
    {
        GpuBytes { bytes: slice_to_vec(data), alignment, layout: PhantomData }
    }

    /// Appends zero bytes until the buffer length is a multiple of
    /// `target_alignment`; the session alignment is left unchanged.
    pub fn append_padding(&mut self, target_alignment: usize)
        requires
            target_alignment >= 1,
        ensures
            final(self)@ == padded_to(old(self)@, target_alignment as nat),
            final(self).alignment() == old(self).alignment(),
    {
        proof {
            lemma_pad_len(self@.len(), target_alignment as nat);
            use_type_invariant(&*self);
        }
        let offset = self.bytes.len();
        let rem = offset % target_alignment;
        let padding = if rem == 0 {
            0
        } else {
            target_alignment - rem
        };
        let mut grown: Vec<u8> = Vec::new();
        core::mem::swap(&mut grown, &mut self.bytes);
        let mut k: usize = 0;
        while k < padding
            invariant
                k <= padding,
                padding == pad_len(old(self)@.len(), target_alignment as nat),
                grown@ == old(self)@ + zeros(k as nat),
            decreases padding - k,
        {
            grown.push(0u8);
            k = k + 1;
            proof {
                assert(grown@ =~= old(self)@ + zeros(k as nat));
            }
        }
        self.bytes = grown;
        proof {
            assert(self.bytes@ =~= padded_to(old(self)@, target_alignment as nat));
        }
    }

    /// Merges a serialized value into the buffer: a value with an empty byte
    /// view is skipped; otherwise the session alignment rises to the value's
    /// alignment if that is larger, padding advances the buffer to the
    /// value's alignment boundary, and the value's bytes follow verbatim.
    pub fn merge(&mut self, data: &GpuBytes<L>)
        ensures
            final(self)@ == merged_bytes(old(self)@, data@, data.alignment()),
            final(self).alignment() == merged_align(old(self).alignment(), data@, data.alignment()),
    {
        proof {
            use_type_invariant(&*self);
            use_type_invariant(data);
            lemma_pow2_shape(data.alignment());
        }
        if data.bytes.len() == 0 {
            return ;
        }
        if data.alignment > self.alignment {
            self.alignment = data.alignment;
        }
        self.append_padding(data.alignment);
        let mut j: usize = 0;
        let n = data.bytes.len();
        let mut grown: Vec<u8> = Vec::new();
        core::mem::swap(&mut grown, &mut self.bytes);
        let ghost mid = grown@;
        while j < n
            invariant
                j <= n,
                n == data@.len(),
                grown@ == mid + data@.take(j as int),
            decreases n - j,
        {
            let byte = data.bytes[j];
            grown.push(byte);
            j = j + 1;
            proof {
                assert(grown@ =~= mid + data@.take(j as int));
            }
        }
        self.bytes = grown;
        proof {
            assert(data@.take(n as int) =~= data@);
            assert(self.bytes@ =~= merged_bytes(old(self)@, data@, data.alignment()));
        }
    }

    /// Writes one value into the buffer under the buffer's policy and hands
    /// the buffer back for chaining.
    pub fn write<T: AsGpuBytes>(&mut self, data: &T) -> (r: &mut Self)
        ensures
            (*r)@ == merged_bytes(
                old(self)@,
                data.spec_bytes(L::strict_arrays()),
                data.spec_align(L::strict_arrays()),
            ),
            (*r).alignment() == merged_align(
                old(self).alignment(),
                data.spec_bytes(L::strict_arrays()),
                data.spec_align(L::strict_arrays()),
            ),
            *final(self) == *final(r),
    {
        write_value(self, data);
        self
    }

    /// Pads the buffer to its accumulated alignment and returns the bytes as
    /// a slice; the final length is a multiple of the session alignment.
    pub fn as_slice(&mut self) -> (r: &[u8])
        ensures
            final(self)@ == padded_to(old(self)@, old(self).alignment()),
            final(self).alignment() == old(self).alignment(),
            r@ == final(self)@,
            r@.len() % old(self).alignment() == 0,
    {
        proof {
            use_type_invariant(&*self);
            lemma_pow2_shape(self.alignment());
            lemma_pad_len(self@.len(), self.alignment());
        }
        let alignment = self.alignment;
        self.append_padding(alignment);
        self.bytes.as_slice()
    }
}

/// The single-value write rule both policies share: obtain the value's
/// serialized form and merge it into the buffer.
fn write_value<L: LayoutRule, T: AsGpuBytes>(buf: &mut GpuBytes<L>, data: &T)
    ensures
        final(buf)@ == merged_bytes(
            old(buf)@,
            data.spec_bytes(L::strict_arrays()),
            data.spec_align(L::strict_arrays()),
        ),
        final(buf).alignment() == merged_align(
            old(buf).alignment(),
            data.spec_bytes(L::strict_arrays()),
            data.spec_align(L::strict_arrays()),
        ),
        final(buf).alignment() >= old(buf).alignment(),
{
    let d = data.as_gpu_bytes::<L>();
    buf.merge(&d);
}

/// The array write procedure: serialize each element, round its alignment by
/// the policy's element rule, pad the element's own bytes out to a whole slot
/// of that alignment, and merge the slot through the single-value rule.
fn write_array_elems<L: LayoutRule, T: AsGpuBytes>(buf: &mut GpuBytes<L>, data: &[T])
    ensures
        final(buf)@ == array_merge(
            L::strict_arrays(),
            old(buf)@,
            old(buf).alignment(),
            data@,
        ).0,
        final(buf).alignment() == array_merge(
            L::strict_arrays(),
            old(buf)@,
            old(buf).alignment(),
            data@,
        ).1,
        final(buf).alignment() >= old(buf).alignment(),
{
    let strict = L::is_strict();
    let ghost goal = array_merge(strict, buf@, buf.alignment(), data@);
    let ghost init_align = buf.alignment();
    proof {
        assert(data@.skip(0) =~= data@);
    }
    let mut i: usize = 0;
    while i < data.len()
        invariant
            i <= data@.len(),
            strict == L::strict_arrays(),
            array_merge(strict, buf@, buf.alignment(), data@.skip(i as int)) == goal,
            buf.alignment() >= init_align,
        decreases data@.len() - i,
    {
        let elem = &data[i];
        let mut e = elem.as_gpu_bytes::<L>();
        proof {
            use_type_invariant(&e);
            lemma_pow2_shape(e.alignment());
            lemma_slot_align_pow2(strict, e.alignment());
        }
        let a = e.alignment;
        let ea = if strict {
            if a % 16 == 0 {
                a
            } else {
                a + (16 - a % 16)
            }
        } else {
            a
        };
        proof {
            assert(ea as nat == elem_slot_align(strict, e.alignment()));
        }
        e.append_padding(ea);
        e.alignment = ea;
        write_value(buf, &e);
        i = i + 1;
        proof {
            assert(data@.skip(i - 1).drop_first() =~= data@.skip(i as int));
            assert(array_merge(strict, buf@, buf.alignment(), data@.skip(i as int)) == goal);
        }
    }
    proof {
        assert(data@.skip(data@.len() as int) =~= Seq::<T>::empty());
    }
}

/// The strict ("std140") layout policy: array elements are aligned to 16
/// bytes, so every array slot's size and starting offset are multiples of 16.
#[derive(Debug, Clone, Copy)]
pub struct Std140Layout;

impl LayoutRule for Std140Layout {
    open spec fn strict_arrays() -> bool {
        true
    }

    fn is_strict() -> bool {
        true
    }
}

impl GpuLayout for Std140Layout {

}

/// The tight ("std430") layout policy: array elements keep their natural
/// alignment, so small elements pack back to back.
#[derive(Debug, Clone, Copy)]
pub struct Std430Layout;

impl LayoutRule for Std430Layout {
    open spec fn strict_arrays() -> bool {
        false
    }

    fn is_strict() -> bool {
        false
    }
}

impl GpuLayout for Std430Layout {

}

/// A buffer is itself a serializable value: its bytes verbatim, under its own
/// accumulated alignment. This is how nested records and pre-laid-out data
/// are written into an outer buffer.
impl<L: LayoutRule> AsGpuBytes for GpuBytes<L> {
    open spec fn spec_bytes(&self, strict: bool) -> Seq<u8> {
        self@
    }

    open spec fn spec_align(&self, strict: bool) -> nat {
        self.alignment()
    }

    fn as_gpu_bytes<U: LayoutRule>(&self) -> (r: GpuBytes<U>) {
        proof {
            use_type_invariant(self);
        }
        GpuBytes {
            bytes: slice_to_vec(self.bytes.as_slice()),
            alignment: self.alignment,
            layout: PhantomData,
        }
    }
}

/// An array value: its serialized form is a fresh buffer filled by the
/// policy's array rule, handed back without a final padding pass.
impl<T: AsGpuBytes> AsGpuBytes for &[T] {
    open spec fn spec_bytes(&self, strict: bool) -> Seq<u8> {
        array_merge(strict, Seq::empty(), 4, self@).0
    }

    open spec fn spec_align(&self, strict: bool) -> nat {
        array_merge(strict, Seq::empty(), 4, self@).1
    }

    fn as_gpu_bytes<L: LayoutRule>(&self) -> (r: GpuBytes<L>) {
        let mut buf = GpuBytes::empty();
        write_array_elems(&mut buf, self);
        buf
    }
}

/// A fixed-size array value; serialized exactly as a slice of its elements.
impl<T: AsGpuBytes, const N: usize> AsGpuBytes for [T; N] {
    open spec fn spec_bytes(&self, strict: bool) -> Seq<u8> {
        array_merge(strict, Seq::empty(), 4, self@).0
    }

    open spec fn spec_align(&self, strict: bool) -> nat {
        array_merge(strict, Seq::empty(), 4, self@).1
    }

    fn as_gpu_bytes<L: LayoutRule>(&self) -> (r: GpuBytes<L>) {
        let mut buf = GpuBytes::empty();
        write_array_elems(&mut buf, vstd::array::array_as_slice(self));
        buf
    }
}

/// A growable array value; serialized exactly as a slice of its elements.
impl<T: AsGpuBytes> AsGpuBytes for Vec<T> {
    open spec fn spec_bytes(&self, strict: bool) -> Seq<u8> {
        array_merge(strict, Seq::empty(), 4, self@).0
    }

    open spec fn spec_align(&self, strict: bool) -> nat {
        array_merge(strict, Seq::empty(), 4, self@).1
    }

    fn as_gpu_bytes<L: LayoutRule>(&self) -> (r: GpuBytes<L>) {
        let mut buf = GpuBytes::empty();
        write_array_elems(&mut buf, self.as_slice());
        buf
    }
}

} // verus!
