//! The primitive serializable values: 32-bit scalars and the unsigned and
//! signed integer vectors of 2, 3 and 4 components. Each reports its bytes in
//! little-endian component order and its fixed, type-intrinsic alignment:
//! 4 bytes for a scalar, 8 for a 2-component vector, 16 for a 3- or
//! 4-component one.
use vstd::bytes::{spec_u32_to_le_bytes, u32_to_le_bytes};
use vstd::prelude::*;

use crate::layout_model::lemma_small_pow2;
use crate::{AsGpuBytes, GpuBytes, LayoutRule};

verus! {

impl AsGpuBytes for u32 {
    open spec fn spec_bytes(&self, strict: bool) -> Seq<u8> {
        spec_u32_to_le_bytes(*self)
    }

    open spec fn spec_align(&self, strict: bool) -> nat {
        4
    }

    fn as_gpu_bytes<L: LayoutRule>(&self) -> (r: GpuBytes<L>) {
        proof {
            lemma_small_pow2();
        }
        let b = u32_to_le_bytes(*self);
        GpuBytes::from_slice(b.as_slice(), 4)
    }
}

impl AsGpuBytes for i32 {
    open spec fn spec_bytes(&self, strict: bool) -> Seq<u8> {
        spec_u32_to_le_bytes(*self as u32)
    }

    open spec fn spec_align(&self, strict: bool) -> nat {
        4
    }

    fn as_gpu_bytes<L: LayoutRule>(&self) -> (r: GpuBytes<L>) {
        proof {
            lemma_small_pow2();
        }
        let b = u32_to_le_bytes(*self as u32);
        GpuBytes::from_slice(b.as_slice(), 4)
    }
}

/// A vector of two unsigned 32-bit components; alignment 8.
#[derive(Clone, Copy, Debug, PartialEq, Eq, Structural)]
pub struct UVec2 {
    pub x: u32,
    pub y: u32,
}

impl UVec2 {
    /// The vector with every component equal to `v`.
    pub fn splat(v: u32) -> (r: Self)
        ensures
            r.x == v,
            r.y == v,
    {
        UVec2 { x: v, y: v }
    }
}

impl AsGpuBytes for UVec2 {
    open spec fn spec_bytes(&self, strict: bool) -> Seq<u8> {
        spec_u32_to_le_bytes(self.x) + spec_u32_to_le_bytes(self.y)
    }

    open spec fn spec_align(&self, strict: bool) -> nat {
        8
    }

    fn as_gpu_bytes<L: LayoutRule>(&self) -> (r: GpuBytes<L>) {
        proof {
            lemma_small_pow2();
        }
        let mut b = u32_to_le_bytes(self.x);
        let mut t = u32_to_le_bytes(self.y);
        b.append(&mut t);
        GpuBytes::from_slice(b.as_slice(), 8)
    }
}

/// A vector of three unsigned 32-bit components; alignment 16.
#[derive(Clone, Copy, Debug, PartialEq, Eq, Structural)]
pub struct UVec3 {
    pub x: u32,
    pub y: u32,
    pub z: u32,
}

impl UVec3 {
    /// The vector with every component equal to `v`.
    pub fn splat(v: u32) -> (r: Self)
        ensures
            r.x == v,
            r.y == v,
            r.z == v,
    {
        UVec3 { x: v, y: v, z: v }
    }
}

impl AsGpuBytes for UVec3 {
    open spec fn spec_bytes(&self, strict: bool) -> Seq<u8> {
        spec_u32_to_le_bytes(self.x) + spec_u32_to_le_bytes(self.y) + spec_u32_to_le_bytes(self.z)
    }

    open spec fn spec_align(&self, strict: bool) -> nat {
        16
    }

    fn as_gpu_bytes<L: LayoutRule>(&self) -> (r: GpuBytes<L>) {
        proof {
            lemma_small_pow2();
        }
        let mut b = u32_to_le_bytes(self.x);
        let mut t = u32_to_le_bytes(self.y);
        b.append(&mut t);
        let mut t = u32_to_le_bytes(self.z);
        b.append(&mut t);
        GpuBytes::from_slice(b.as_slice(), 16)
    }
}

/// A vector of four unsigned 32-bit components; alignment 16.
#[derive(Clone, Copy, Debug, PartialEq, Eq, Structural)]
pub struct UVec4 {
    pub x: u32,
    pub y: u32,
    pub z: u32,
    pub w: u32,
}

impl UVec4 {
    /// The vector with every component equal to `v`.
    pub fn splat(v: u32) -> (r: Self)
        ensures
            r.x == v,
            r.y == v,
            r.z == v,
            r.w == v,
    {
        UVec4 { x: v, y: v, z: v, w: v }
    }
}

impl AsGpuBytes for UVec4 {
    open spec fn spec_bytes(&self, strict: bool) -> Seq<u8> {
        spec_u32_to_le_bytes(self.x) + spec_u32_to_le_bytes(self.y) + spec_u32_to_le_bytes(self.z)
            + spec_u32_to_le_bytes(self.w)
    }

    open spec fn spec_align(&self, strict: bool) -> nat {
        16
    }

    fn as_gpu_bytes<L: LayoutRule>(&self) -> (r: GpuBytes<L>) {
        proof {
            lemma_small_pow2();
        }
        let mut b = u32_to_le_bytes(self.x);
        let mut t = u32_to_le_bytes(self.y);
        b.append(&mut t);
        let mut t = u32_to_le_bytes(self.z);
        b.append(&mut t);
        let mut t = u32_to_le_bytes(self.w);
        b.append(&mut t);
        GpuBytes::from_slice(b.as_slice(), 16)
    }
}

/// A vector of two signed 32-bit components; alignment 8.
#[derive(Clone, Copy, Debug, PartialEq, Eq, Structural)]
pub struct IVec2 {
    pub x: i32,
    pub y: i32,
}

impl IVec2 {
    /// The vector with every component equal to `v`.
    pub fn splat(v: i32) -> (r: Self)
        ensures
            r.x == v,
            r.y == v,
    {
        IVec2 { x: v, y: v }
    }
}

impl AsGpuBytes for IVec2 {
    open spec fn spec_bytes(&self, strict: bool) -> Seq<u8> {
        spec_u32_to_le_bytes(self.x as u32) + spec_u32_to_le_bytes(self.y as u32)
    }

    open spec fn spec_align(&self, strict: bool) -> nat {
        8
    }

    fn as_gpu_bytes<L: LayoutRule>(&self) -> (r: GpuBytes<L>) {
        proof {
            lemma_small_pow2();
        }
        let mut b = u32_to_le_bytes(self.x as u32);
        let mut t = u32_to_le_bytes(self.y as u32);
        b.append(&mut t);
        GpuBytes::from_slice(b.as_slice(), 8)
    }
}

/// A vector of three signed 32-bit components; alignment 16.
#[derive(Clone, Copy, Debug, PartialEq, Eq, Structural)]
pub struct IVec3 {
    pub x: i32,
    pub y: i32,
    pub z: i32,
}

impl IVec3 {
    /// The vector with every component equal to `v`.
    pub fn splat(v: i32) -> (r: Self)
        ensures
            r.x == v,
            r.y == v,
            r.z == v,
    {
        IVec3 { x: v, y: v, z: v }
    }
}

impl AsGpuBytes for IVec3 {
    open spec fn spec_bytes(&self, strict: bool) -> Seq<u8> {
        spec_u32_to_le_bytes(self.x as u32) + spec_u32_to_le_bytes(self.y as u32)
            + spec_u32_to_le_bytes(self.z as u32)
    }

    open spec fn spec_align(&self, strict: bool) -> nat {
        16
    }

    fn as_gpu_bytes<L: LayoutRule>(&self) -> (r: GpuBytes<L>) {
        proof {
            lemma_small_pow2();
        }
        let mut b = u32_to_le_bytes(self.x as u32);
        let mut t = u32_to_le_bytes(self.y as u32);
        b.append(&mut t);
        let mut t = u32_to_le_bytes(self.z as u32);
        b.append(&mut t);
        GpuBytes::from_slice(b.as_slice(), 16)
    }
}

/// A vector of four signed 32-bit components; alignment 16.
#[derive(Clone, Copy, Debug, PartialEq, Eq, Structural)]
pub struct IVec4 {
    pub x: i32,
    pub y: i32,
    pub z: i32,
    pub w: i32,
}

impl IVec4 {
    /// The vector with every component equal to `v`.
    pub fn splat(v: i32) -> (r: Self)
        ensures
            r.x == v,
            r.y == v,
            r.z == v,
            r.w == v,
    {
        IVec4 { x: v, y: v, z: v, w: v }
    }
}

impl AsGpuBytes for IVec4 {
    open spec fn spec_bytes(&self, strict: bool) -> Seq<u8> {
        spec_u32_to_le_bytes(self.x as u32) + spec_u32_to_le_bytes(self.y as u32)
            + spec_u32_to_le_bytes(self.z as u32) + spec_u32_to_le_bytes(self.w as u32)
    }

    open spec fn spec_align(&self, strict: bool) -> nat {
        16
    }

    fn as_gpu_bytes<L: LayoutRule>(&self) -> (r: GpuBytes<L>) {
        proof {
            lemma_small_pow2();
        }
        let mut b = u32_to_le_bytes(self.x as u32);
        let mut t = u32_to_le_bytes(self.y as u32);
        b.append(&mut t);
        let mut t = u32_to_le_bytes(self.z as u32);
        b.append(&mut t);
        let mut t = u32_to_le_bytes(self.w as u32);
        b.append(&mut t);
        GpuBytes::from_slice(b.as_slice(), 16)
    }
}

} // verus!
