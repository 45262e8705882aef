//! Element-wise conversions of tensor data between the forms in which the
//! protobuf fields carry it and the forms the intermediate representation
//! keeps.
use vstd::prelude::*;

verus! {

/// Each `UINT32` value as the `u64` that carries it.
pub fn widen_u32(v: &[u32]) -> (r: Vec<u64>)
    ensures
        r@ == v@.map_values(|x: u32| x as u64),
{
    let mut r: Vec<u64> = Vec::new();
    let mut i: usize = 0;
    while i < v.len()
        invariant
            0 <= i <= v@.len(),
            r@ == v@.take(i as int).map_values(|x: u32| x as u64),
        decreases v@.len() - i,
    {
        let x = v[i];
        r.push(x as u64);
        proof {
            assert(v@.take(i + 1) =~= v@.take(i as int).push(x));
            assert(r@ =~= v@.take(i + 1).map_values(|x: u32| x as u64));
        }
        i = i + 1;
    }
    proof {
        assert(v@.take(i as int) =~= v@);
    }
    r
}

/// Each carried `u64` cut to its low 32 bits.
pub fn narrow_u64(v: &[u64]) -> (r: Vec<u32>)
    ensures
        r@ == v@.map_values(|x: u64| x as u32),
{
    let mut r: Vec<u32> = Vec::new();
    let mut i: usize = 0;
    while i < v.len()
        invariant
            0 <= i <= v@.len(),
            r@ == v@.take(i as int).map_values(|x: u64| x as u32),
        decreases v@.len() - i,
    {
        let x = v[i];
        r.push(x as u32);
        proof {
            assert(v@.take(i + 1) =~= v@.take(i as int).push(x));
            assert(r@ =~= v@.take(i + 1).map_values(|x: u64| x as u32));
        }
        i = i + 1;
    }
    proof {
        assert(v@.take(i as int) =~= v@);
    }
    r
}

/// Each value widened to `i32`.
pub fn i8s_to_i32(v: &[i8]) -> (r: Vec<i32>)
    ensures
        r@ == v@.map_values(|x: i8| x as i32),
{
    let mut r: Vec<i32> = Vec::new();
    let mut i: usize = 0;
    while i < v.len()
        invariant
            0 <= i <= v@.len(),
            r@ == v@.take(i as int).map_values(|x: i8| x as i32),
        decreases v@.len() - i,
    {
        let x = v[i];
        r.push(x as i32);
        proof {
            assert(v@.take(i + 1) =~= v@.take(i as int).push(x));
            assert(r@ =~= v@.take(i + 1).map_values(|x: i8| x as i32));
        }
        i = i + 1;
    }
    proof {
        assert(v@.take(i as int) =~= v@);
    }
    r
}

/// Each value widened to `i32`.
pub fn i16s_to_i32(v: &[i16]) -> (r: Vec<i32>)
    ensures
        r@ == v@.map_values(|x: i16| x as i32),
{
    let mut r: Vec<i32> = Vec::new();
    let mut i: usize = 0;
    while i < v.len()
        invariant
            0 <= i <= v@.len(),
            r@ == v@.take(i as int).map_values(|x: i16| x as i32),
        decreases v@.len() - i,
    {
        let x = v[i];
        r.push(x as i32);
        proof {
            assert(v@.take(i + 1) =~= v@.take(i as int).push(x));
            assert(r@ =~= v@.take(i + 1).map_values(|x: i16| x as i32));
        }
        i = i + 1;
    }
    proof {
        assert(v@.take(i as int) =~= v@);
    }
    r
}

/// Each value widened to `i32`.
pub fn u8s_to_i32(v: &[u8]) -> (r: Vec<i32>)
    ensures
        r@ == v@.map_values(|x: u8| x as i32),
{
    let mut r: Vec<i32> = Vec::new();
    let mut i: usize = 0;
    while i < v.len()
        invariant
            0 <= i <= v@.len(),
            r@ == v@.take(i as int).map_values(|x: u8| x as i32),
        decreases v@.len() - i,
    {
        let x = v[i];
        r.push(x as i32);
        proof {
            assert(v@.take(i + 1) =~= v@.take(i as int).push(x));
            assert(r@ =~= v@.take(i + 1).map_values(|x: u8| x as i32));
        }
        i = i + 1;
    }
    proof {
        assert(v@.take(i as int) =~= v@);
    }
    r
}

/// Each value widened to `i32`.
pub fn u16s_to_i32(v: &[u16]) -> (r: Vec<i32>)
    ensures
        r@ == v@.map_values(|x: u16| x as i32),
{
    let mut r: Vec<i32> = Vec::new();
    let mut i: usize = 0;
    while i < v.len()
        invariant
            0 <= i <= v@.len(),
            r@ == v@.take(i as int).map_values(|x: u16| x as i32),
        decreases v@.len() - i,
    {
        let x = v[i];
        r.push(x as i32);
        proof {
            assert(v@.take(i + 1) =~= v@.take(i as int).push(x));
            assert(r@ =~= v@.take(i + 1).map_values(|x: u16| x as i32));
        }
        i = i + 1;
    }
    proof {
        assert(v@.take(i as int) =~= v@);
    }
    r
}

/// Each flag as `1` or `0`.
pub fn bools_to_i32(v: &[bool]) -> (r: Vec<i32>)
    ensures
        r@ == v@.map_values(|x: bool| if x { 1i32 } else { 0i32 }),
{
    let mut r: Vec<i32> = Vec::new();
    let mut i: usize = 0;
    while i < v.len()
        invariant
            0 <= i <= v@.len(),
            r@ == v@.take(i as int).map_values(|x: bool| if x { 1i32 } else { 0i32 }),
        decreases v@.len() - i,
    {
        let x = v[i];
        r.push(if x { 1i32 } else { 0i32 });
        proof {
            assert(v@.take(i + 1) =~= v@.take(i as int).push(x));
            assert(r@ =~= v@.take(i + 1).map_values(|x: bool| if x { 1i32 } else { 0i32 }));
        }
        i = i + 1;
    }
    proof {
        assert(v@.take(i as int) =~= v@);
    }
    r
}

/// Each value cut to its low 8 bits.
pub fn i32s_to_i8(v: &[i32]) -> (r: Vec<i8>)
    ensures
        r@ == v@.map_values(|x: i32| x as i8),
{
    let mut r: Vec<i8> = Vec::new();
    let mut i: usize = 0;
    while i < v.len()
        invariant
            0 <= i <= v@.len(),
            r@ == v@.take(i as int).map_values(|x: i32| x as i8),
        decreases v@.len() - i,
    {
        let x = v[i];
        r.push(x as i8);
        proof {
            assert(v@.take(i + 1) =~= v@.take(i as int).push(x));
            assert(r@ =~= v@.take(i + 1).map_values(|x: i32| x as i8));
        }
        i = i + 1;
    }
    proof {
        assert(v@.take(i as int) =~= v@);
    }
    r
}

/// Each value cut to its low 16 bits.
pub fn i32s_to_i16(v: &[i32]) -> (r: Vec<i16>)
    ensures
        r@ == v@.map_values(|x: i32| x as i16),
{
    let mut r: Vec<i16> = Vec::new();
    let mut i: usize = 0;
    while i < v.len()
        invariant
            0 <= i <= v@.len(),
            r@ == v@.take(i as int).map_values(|x: i32| x as i16),
        decreases v@.len() - i,
    {
        let x = v[i];
        r.push(x as i16);
        proof {
            assert(v@.take(i + 1) =~= v@.take(i as int).push(x));
            assert(r@ =~= v@.take(i + 1).map_values(|x: i32| x as i16));
        }
        i = i + 1;
    }
    proof {
        assert(v@.take(i as int) =~= v@);
    }
    r
}

/// Each value cut to its low 8 bits.
pub fn i32s_to_u8(v: &[i32]) -> (r: Vec<u8>)
    ensures
        r@ == v@.map_values(|x: i32| x as u8),
{
    let mut r: Vec<u8> = Vec::new();
    let mut i: usize = 0;
    while i < v.len()
        invariant
            0 <= i <= v@.len(),
            r@ == v@.take(i as int).map_values(|x: i32| x as u8),
        decreases v@.len() - i,
    {
        let x = v[i];
        r.push(x as u8);
        proof {
            assert(v@.take(i + 1) =~= v@.take(i as int).push(x));
            assert(r@ =~= v@.take(i + 1).map_values(|x: i32| x as u8));
        }
        i = i + 1;
    }
    proof {
        assert(v@.take(i as int) =~= v@);
    }
    r
}

/// Each value cut to its low 16 bits.
pub fn i32s_to_u16(v: &[i32]) -> (r: Vec<u16>)
    ensures
        r@ == v@.map_values(|x: i32| x as u16),
{
    let mut r: Vec<u16> = Vec::new();
    let mut i: usize = 0;
    while i < v.len()
        invariant
            0 <= i <= v@.len(),
            r@ == v@.take(i as int).map_values(|x: i32| x as u16),
        decreases v@.len() - i,
    {
        let x = v[i];
        r.push(x as u16);
        proof {
            assert(v@.take(i + 1) =~= v@.take(i as int).push(x));
            assert(r@ =~= v@.take(i + 1).map_values(|x: i32| x as u16));
        }
        i = i + 1;
    }
    proof {
        assert(v@.take(i as int) =~= v@);
    }
    r
}

/// Each value: whether it is not zero.
pub fn i32s_to_bool(v: &[i32]) -> (r: Vec<bool>)
    ensures
        r@ == v@.map_values(|x: i32| x != 0i32),
{
    let mut r: Vec<bool> = Vec::new();
    let mut i: usize = 0;
    while i < v.len()
        invariant
            0 <= i <= v@.len(),
            r@ == v@.take(i as int).map_values(|x: i32| x != 0i32),
        decreases v@.len() - i,
    {
        let x = v[i];
        r.push(x != 0i32);
        proof {
            assert(v@.take(i + 1) =~= v@.take(i as int).push(x));
            assert(r@ =~= v@.take(i + 1).map_values(|x: i32| x != 0i32));
        }
        i = i + 1;
    }
    proof {
        assert(v@.take(i as int) =~= v@);
    }
    r
}

/// Each byte as a signed value.
pub fn bytes_to_i8(v: &[u8]) -> (r: Vec<i8>)
    ensures
        r@ == v@.map_values(|x: u8| x as i8),
{
    let mut r: Vec<i8> = Vec::new();
    let mut i: usize = 0;
    while i < v.len()
        invariant
            0 <= i <= v@.len(),
            r@ == v@.take(i as int).map_values(|x: u8| x as i8),
        decreases v@.len() - i,
    {
        let x = v[i];
        r.push(x as i8);
        proof {
            assert(v@.take(i + 1) =~= v@.take(i as int).push(x));
            assert(r@ =~= v@.take(i + 1).map_values(|x: u8| x as i8));
        }
        i = i + 1;
    }
    proof {
        assert(v@.take(i as int) =~= v@);
    }
    r
}

/// Each byte: whether it is not zero.
pub fn bytes_to_bool(v: &[u8]) -> (r: Vec<bool>)
    ensures
        r@ == v@.map_values(|x: u8| x != 0u8),
{
    let mut r: Vec<bool> = Vec::new();
    let mut i: usize = 0;
    while i < v.len()
        invariant
            0 <= i <= v@.len(),
            r@ == v@.take(i as int).map_values(|x: u8| x != 0u8),
        decreases v@.len() - i,
    {
        let x = v[i];
        r.push(x != 0u8);
        proof {
            assert(v@.take(i + 1) =~= v@.take(i as int).push(x));
            assert(r@ =~= v@.take(i + 1).map_values(|x: u8| x != 0u8));
        }
        i = i + 1;
    }
    proof {
        assert(v@.take(i as int) =~= v@);
    }
    r
}

/// Each value reinterpreted as signed.
pub fn u16s_to_i16(v: &[u16]) -> (r: Vec<i16>)
    ensures
        r@ == v@.map_values(|x: u16| x as i16),
{
    let mut r: Vec<i16> = Vec::new();
    let mut i: usize = 0;
    while i < v.len()
        invariant
            0 <= i <= v@.len(),
            r@ == v@.take(i as int).map_values(|x: u16| x as i16),
        decreases v@.len() - i,
    {
        let x = v[i];
        r.push(x as i16);
        proof {
            assert(v@.take(i + 1) =~= v@.take(i as int).push(x));
            assert(r@ =~= v@.take(i + 1).map_values(|x: u16| x as i16));
        }
        i = i + 1;
    }
    proof {
        assert(v@.take(i as int) =~= v@);
    }
    r
}

/// Each value reinterpreted as signed.
pub fn u32s_to_i32(v: &[u32]) -> (r: Vec<i32>)
    ensures
        r@ == v@.map_values(|x: u32| x as i32),
{
    let mut r: Vec<i32> = Vec::new();
    let mut i: usize = 0;
    while i < v.len()
        invariant
            0 <= i <= v@.len(),
            r@ == v@.take(i as int).map_values(|x: u32| x as i32),
        decreases v@.len() - i,
    {
        let x = v[i];
        r.push(x as i32);
        proof {
            assert(v@.take(i + 1) =~= v@.take(i as int).push(x));
            assert(r@ =~= v@.take(i + 1).map_values(|x: u32| x as i32));
        }
        i = i + 1;
    }
    proof {
        assert(v@.take(i as int) =~= v@);
    }
    r
}

/// Each value reinterpreted as signed.
pub fn u64s_to_i64(v: &[u64]) -> (r: Vec<i64>)
    ensures
        r@ == v@.map_values(|x: u64| x as i64),
{
    let mut r: Vec<i64> = Vec::new();
    let mut i: usize = 0;
    while i < v.len()
        invariant
            0 <= i <= v@.len(),
            r@ == v@.take(i as int).map_values(|x: u64| x as i64),
        decreases v@.len() - i,
    {
        let x = v[i];
        r.push(x as i64);
        proof {
            assert(v@.take(i + 1) =~= v@.take(i as int).push(x));
            assert(r@ =~= v@.take(i + 1).map_values(|x: u64| x as i64));
        }
        i = i + 1;
    }
    proof {
        assert(v@.take(i as int) =~= v@);
    }
    r
}

/// The little-endian `u16` values of a byte string whose length is a
/// multiple of 2.
pub open spec fn le_u16s(raw: Seq<u8>) -> Seq<u16> {
    Seq::new(raw.len() / 2, |k: int| vstd::bytes::spec_u16_from_le_bytes(raw.subrange(2 * k, 2 * k + 2)))
}

/// Reads the little-endian `u16` values of a byte string.
pub fn read_le_u16s(raw: &[u8]) -> (r: Vec<u16>)
    requires
        raw@.len() % 2 == 0,
    ensures
        r@ == le_u16s(raw@),
{
    let len = raw.len();
    let n = len / 2;
    proof {
        assert(2 * n <= raw@.len()) by (nonlinear_arith)
            requires
                n == raw@.len() / 2,
        ;
    }
    let mut r: Vec<u16> = Vec::new();
    let mut k: usize = 0;
    let mut pos: usize = 0;
    while k < n
        invariant
            0 <= k <= n,
            len == raw@.len(),
            n == raw@.len() / 2,
            2 * n <= raw@.len(),
            pos == 2 * k,
            r@ == le_u16s(raw@).take(k as int),
        decreases n - k,
    {
        let x = vstd::bytes::u16_from_le_bytes(vstd::slice::slice_subrange(raw, pos, pos + 2));
        r.push(x);
        proof {
            assert(r@ =~= le_u16s(raw@).take(k + 1));
        }
        k = k + 1;
        pos = pos + 2;
    }
    proof {
        assert(r@ =~= le_u16s(raw@));
    }
    r
}

/// The little-endian `u32` values of a byte string whose length is a
/// multiple of 4.
pub open spec fn le_u32s(raw: Seq<u8>) -> Seq<u32> {
    Seq::new(raw.len() / 4, |k: int| vstd::bytes::spec_u32_from_le_bytes(raw.subrange(4 * k, 4 * k + 4)))
}

/// Reads the little-endian `u32` values of a byte string.
pub fn read_le_u32s(raw: &[u8]) -> (r: Vec<u32>)
    requires
        raw@.len() % 4 == 0,
    ensures
        r@ == le_u32s(raw@),
{
    let len = raw.len();
    let n = len / 4;
    proof {
        assert(4 * n <= raw@.len()) by (nonlinear_arith)
            requires
                n == raw@.len() / 4,
        ;
    }
    let mut r: Vec<u32> = Vec::new();
    let mut k: usize = 0;
    let mut pos: usize = 0;
    while k < n
        invariant
            0 <= k <= n,
            len == raw@.len(),
            n == raw@.len() / 4,
            4 * n <= raw@.len(),
            pos == 4 * k,
            r@ == le_u32s(raw@).take(k as int),
        decreases n - k,
    {
        let x = vstd::bytes::u32_from_le_bytes(vstd::slice::slice_subrange(raw, pos, pos + 4));
        r.push(x);
        proof {
            assert(r@ =~= le_u32s(raw@).take(k + 1));
        }
        k = k + 1;
        pos = pos + 4;
    }
    proof {
        assert(r@ =~= le_u32s(raw@));
    }
    r
}

/// The little-endian `u64` values of a byte string whose length is a
/// multiple of 8.
pub open spec fn le_u64s(raw: Seq<u8>) -> Seq<u64> {
    Seq::new(raw.len() / 8, |k: int| vstd::bytes::spec_u64_from_le_bytes(raw.subrange(8 * k, 8 * k + 8)))
}

/// Reads the little-endian `u64` values of a byte string.
pub fn read_le_u64s(raw: &[u8]) -> (r: Vec<u64>)
    requires
        raw@.len() % 8 == 0,
    ensures
        r@ == le_u64s(raw@),
{
    let len = raw.len();
    let n = len / 8;
    proof {
        assert(8 * n <= raw@.len()) by (nonlinear_arith)
            requires
                n == raw@.len() / 8,
        ;
    }
    let mut r: Vec<u64> = Vec::new();
    let mut k: usize = 0;
    let mut pos: usize = 0;
    while k < n
        invariant
            0 <= k <= n,
            len == raw@.len(),
            n == raw@.len() / 8,
            8 * n <= raw@.len(),
            pos == 8 * k,
            r@ == le_u64s(raw@).take(k as int),
        decreases n - k,
    {
        let x = vstd::bytes::u64_from_le_bytes(vstd::slice::slice_subrange(raw, pos, pos + 8));
        r.push(x);
        proof {
            assert(r@ =~= le_u64s(raw@).take(k + 1));
        }
        k = k + 1;
        pos = pos + 8;
    }
    proof {
        assert(r@ =~= le_u64s(raw@));
    }
    r
}
} // verus!
