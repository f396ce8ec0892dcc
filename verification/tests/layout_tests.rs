use gpu_layout::{
    GpuBytes, GpuLayout, IVec2, IVec3, IVec4, Std140Layout, Std430Layout, UVec2, UVec3, UVec4,
};

#[test]
fn f32_and_vec3() {
    let mut buf = GpuBytes::empty();

    Std140Layout::write(&mut buf, &UVec3::splat(u32::MAX));
    Std140Layout::write(&mut buf, &u32::MAX);

    let bytes = Std140Layout::finish(buf);

    assert_eq!(
        &*bytes,
        &[
            // x
            u8::MAX,
            u8::MAX,
            u8::MAX,
            u8::MAX,
            // y
            u8::MAX,
            u8::MAX,
            u8::MAX,
            u8::MAX,
            // z
            u8::MAX,
            u8::MAX,
            u8::MAX,
            u8::MAX,
            // scalar
            u8::MAX,
            u8::MAX,
            u8::MAX,
            u8::MAX,
        ]
    );
}

#[test]
fn vec3_and_vec3() {
    let mut buf = GpuBytes::empty();

    Std140Layout::write(&mut buf, &UVec3::splat(u32::MAX));
    Std140Layout::write(&mut buf, &UVec3::splat(u32::MAX));

    let bytes = Std140Layout::finish(buf);

    assert_eq!(
        &*bytes,
        &[
            // x
            u8::MAX,
            u8::MAX,
            u8::MAX,
            u8::MAX,
            // y
            u8::MAX,
            u8::MAX,
            u8::MAX,
            u8::MAX,
            // z
            u8::MAX,
            u8::MAX,
            u8::MAX,
            u8::MAX,
            // padding
            0,
            0,
            0,
            0,
            // x
            u8::MAX,
            u8::MAX,
            u8::MAX,
            u8::MAX,
            // y
            u8::MAX,
            u8::MAX,
            u8::MAX,
            u8::MAX,
            // z
            u8::MAX,
            u8::MAX,
            u8::MAX,
            u8::MAX,
            // padding
            0,
            0,
            0,
            0,
        ]
    );
}

#[test]
fn std140_scalar_array() {
    let mut buf = GpuBytes::empty();

    Std140Layout::write_array(&mut buf, &[u32::MAX, u32::MAX]);

    let bytes = Std140Layout::finish(buf);

    assert_eq!(
        &*bytes,
        &[
            // scalar
            u8::MAX,
            u8::MAX,
            u8::MAX,
            u8::MAX,
            // padding
            0,
            0,
            0,
            0,
            // padding
            0,
            0,
            0,
            0,
            // padding
            0,
            0,
            0,
            0,
            // scalar
            u8::MAX,
            u8::MAX,
            u8::MAX,
            u8::MAX,
            // padding
            0,
            0,
            0,
            0,
            // padding
            0,
            0,
            0,
            0,
            // padding
            0,
            0,
            0,
            0,
        ]
    );
}

#[test]
fn std430_scalar_array() {
    let mut buf = GpuBytes::empty();

    Std430Layout::write_array(&mut buf, &[u32::MAX, u32::MAX]);

    let bytes = Std430Layout::finish(buf);

    assert_eq!(
        &*bytes,
        &[
            // scalar
            u8::MAX,
            u8::MAX,
            u8::MAX,
            u8::MAX,
            // scalar
            u8::MAX,
            u8::MAX,
            u8::MAX,
            u8::MAX,
        ]
    );
}

// A record implements the serialization capability by writing its fields in
// declaration order into a fresh buffer; this composes the same buffers that
// a generated implementation would.
#[test]
fn struct_derive() {
    // a record { a: UVec3, b: u32 }
    let mut a_buf = GpuBytes::empty();
    Std140Layout::write(&mut a_buf, &UVec3::splat(u32::MAX));
    Std140Layout::write(&mut a_buf, &u32::MAX);
    let a = Std140Layout::finish(a_buf);

    assert_eq!(a.len(), 16);

    // a record { a: Vec<u32> }
    let mut b_buf = GpuBytes::empty();
    Std140Layout::write(&mut b_buf, &vec![u32::MAX, u32::MAX]);
    let b = Std140Layout::finish(b_buf);

    assert_eq!(b.len(), 32);
}

// A 3-component vector then a scalar under the tight policy: 16 bytes with no
// padding at all.
#[test]
fn std430_vec3_then_scalar() {
    let mut buf = GpuBytes::empty();

    Std430Layout::write(&mut buf, &UVec3::splat(u32::MAX));
    Std430Layout::write(&mut buf, &u32::MAX);

    let bytes = Std430Layout::finish(buf);

    assert_eq!(&*bytes, &[u8::MAX; 16]);
}

// Even under the tight policy a 3-component vector's array slot is padded to
// its natural 16-byte alignment.
#[test]
fn std430_vec3_array() {
    let mut buf = GpuBytes::empty();

    Std430Layout::write_array(&mut buf, &[UVec3::splat(u32::MAX), UVec3::splat(u32::MAX)]);

    let bytes = Std430Layout::finish(buf);

    let mut expected = [u8::MAX; 32];
    expected[12] = 0;
    expected[13] = 0;
    expected[14] = 0;
    expected[15] = 0;
    expected[28] = 0;
    expected[29] = 0;
    expected[30] = 0;
    expected[31] = 0;
    assert_eq!(&*bytes, &expected);
}

// A 2-component vector has natural alignment 8; the strict policy rounds its
// array slot to 16 bytes, the tight policy packs back to back.
#[test]
fn std140_uvec2_array() {
    let mut buf = GpuBytes::empty();

    Std140Layout::write_array(&mut buf, &[UVec2::splat(u32::MAX), UVec2::splat(u32::MAX)]);

    let bytes = Std140Layout::finish(buf);

    let mut expected = [0u8; 32];
    for i in 0..8 {
        expected[i] = u8::MAX;
        expected[16 + i] = u8::MAX;
    }
    assert_eq!(&*bytes, &expected);
}

#[test]
fn std430_uvec2_array() {
    let mut buf = GpuBytes::empty();

    Std430Layout::write_array(&mut buf, &[UVec2::splat(u32::MAX), UVec2::splat(u32::MAX)]);

    let bytes = Std430Layout::finish(buf);

    assert_eq!(&*bytes, &[u8::MAX; 16]);
}

// Merging a value whose byte view is empty is a no-op: it inflates neither
// the buffer nor the session alignment, whatever alignment it declares.
#[test]
fn empty_value_write_is_noop() {
    let mut buf = GpuBytes::empty();

    let nothing: GpuBytes<Std140Layout> = GpuBytes::from_slice(&[], 16);
    Std140Layout::write(&mut buf, &nothing);
    Std140Layout::write(&mut buf, &u32::MAX);

    let bytes = Std140Layout::finish(buf);

    // had the empty value raised the alignment to 16, this would be 16 bytes
    assert_eq!(&*bytes, &[u8::MAX; 4]);
}

// Finalizing pads the whole buffer to the session alignment: a scalar then a
// 3-component vector leave 28 bytes, rounded up to 32.
#[test]
fn finish_pads_to_session_alignment() {
    let mut buf = GpuBytes::empty();

    Std140Layout::write(&mut buf, &u32::MAX);
    Std140Layout::write(&mut buf, &UVec3::splat(u32::MAX));

    let bytes = Std140Layout::finish(buf);

    let mut expected = [u8::MAX; 32];
    for i in 4..16 {
        expected[i] = 0;
    }
    for i in 28..32 {
        expected[i] = 0;
    }
    assert_eq!(&*bytes, &expected);
}

// Finalizing an already aligned buffer appends nothing.
#[test]
fn finish_already_aligned_appends_nothing() {
    let mut buf = GpuBytes::empty();

    Std430Layout::write(&mut buf, &UVec4::splat(u32::MAX));

    let bytes = Std430Layout::finish(buf);

    assert_eq!(&*bytes, &[u8::MAX; 16]);
}

// Writes chain, and `as_slice` pads to the session alignment and exposes the
// finished bytes in place.
#[test]
fn write_chaining_and_as_slice() {
    let mut buf: GpuBytes<Std430Layout> = GpuBytes::empty();

    buf.write(&1u32).write(&2u32);

    let s = buf.as_slice();
    assert_eq!(s, &[1, 0, 0, 0, 2, 0, 0, 0]);
}

// A borrowed blob of odd length merges with exactly the padding the next
// value's alignment needs.
#[test]
fn from_slice_merges_with_padding() {
    let mut buf: GpuBytes<Std430Layout> = GpuBytes::empty();

    let blob: GpuBytes<Std430Layout> = GpuBytes::from_slice(&[0xAB, 0xAB, 0xAB], 1);
    buf.merge(&blob);
    Std430Layout::write(&mut buf, &u32::MAX);

    let bytes = Std430Layout::finish(buf);

    assert_eq!(
        &*bytes,
        &[0xAB, 0xAB, 0xAB, 0, u8::MAX, u8::MAX, u8::MAX, u8::MAX]
    );
}

// Writing an empty array leaves the buffer untouched.
#[test]
fn empty_array_write() {
    let mut buf = GpuBytes::empty();

    let none: [u32; 0] = [];
    Std140Layout::write_array(&mut buf, &none);

    let bytes = Std140Layout::finish(buf);
    assert_eq!(bytes.len(), 0);
}

// A nested record: an inner buffer is itself a serializable value and merges
// under its own accumulated alignment.
#[test]
fn nested_record_buffer() {
    let mut inner = GpuBytes::empty();
    Std140Layout::write(&mut inner, &UVec3::splat(u32::MAX));
    Std140Layout::write(&mut inner, &u32::MAX);

    let mut outer = GpuBytes::empty();
    Std140Layout::write(&mut outer, &u32::MAX);
    Std140Layout::write(&mut outer, &inner);

    let bytes = Std140Layout::finish(outer);

    let mut expected = [u8::MAX; 32];
    for i in 4..16 {
        expected[i] = 0;
    }
    assert_eq!(&*bytes, &expected);
}

// Signed components serialize as their two's-complement little-endian bytes.
#[test]
fn signed_components() {
    let mut buf = GpuBytes::empty();

    Std430Layout::write(&mut buf, &IVec2::splat(-1));
    Std430Layout::write(&mut buf, &(-2i32));

    let bytes = Std430Layout::finish(buf);

    assert_eq!(
        &*bytes,
        &[
            u8::MAX,
            u8::MAX,
            u8::MAX,
            u8::MAX,
            u8::MAX,
            u8::MAX,
            u8::MAX,
            u8::MAX,
            0xFE,
            u8::MAX,
            u8::MAX,
            u8::MAX,
            // padding to the 8-byte session alignment
            0,
            0,
            0,
            0,
        ]
    );
}

// A 3-component signed vector reports alignment 16, so a lone one finalizes
// to 16 bytes.
#[test]
fn ivec3_alignment() {
    let mut buf = GpuBytes::empty();

    Std430Layout::write(&mut buf, &IVec3::splat(-1));

    let bytes = Std430Layout::finish(buf);

    let mut expected = [u8::MAX; 16];
    for i in 12..16 {
        expected[i] = 0;
    }
    assert_eq!(&*bytes, &expected);
}

// The explicit padding entry points: `align_to` pads to a caller-chosen
// boundary, `align` to the session alignment, neither raises the alignment.
#[test]
fn explicit_padding() {
    let mut buf: GpuBytes<Std430Layout> = GpuBytes::empty();

    Std430Layout::write(&mut buf, &1u32);
    Std430Layout::align_to(&mut buf, 8);
    Std430Layout::write(&mut buf, &2u32);
    Std430Layout::align(&mut buf);

    let bytes = Std430Layout::finish(buf);
    assert_eq!(&*bytes, &[1, 0, 0, 0, 0, 0, 0, 0, 2, 0, 0, 0]);
}

// A 4-component signed vector: 16 bytes, already a whole 16-byte unit.
#[test]
fn std140_ivec4() {
    let mut buf = GpuBytes::empty();

    Std140Layout::write(&mut buf, &IVec4::splat(-1));

    let bytes = Std140Layout::finish(buf);

    assert_eq!(&*bytes, &[u8::MAX; 16]);
}
