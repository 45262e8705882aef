use super::types::{Dim, DimSpec, ElemType, Shape};
use crate::text::{
    concat, debug_quoted, decimal, lemma_parse_decimal_u64, parse_u64, quoted, spec_parse_u64,
    str_eq, u64_to_string,
};
use vstd::prelude::*;

verus! {

/// Mathematical model of [`TensorData`].
pub enum TensorDataSpec {
    F32(Seq<u32>),
    F64(Seq<u64>),
    I8(Seq<i8>),
    I16(Seq<i16>),
    I32(Seq<i32>),
    I64(Seq<i64>),
    U8(Seq<u8>),
    U16(Seq<u16>),
    U32(Seq<u32>),
    U64(Seq<u64>),
    Bool(Seq<bool>),
    String(Seq<Seq<char>>),
    F16(Seq<u16>),
    Bf16(Seq<u16>),
    Complex64(Seq<u32>),
    Complex128(Seq<u64>),
    Float8e4m3fn(Seq<u8>),
    Float8e4m3fnuz(Seq<u8>),
    Float8e5m2(Seq<u8>),
    Float8e5m2fnuz(Seq<u8>),
    Float8e8m0(Seq<u8>),
    Uint4(Seq<u8>),
    Int4(Seq<u8>),
    Float4e2m1(Seq<u8>),
    Uint2(Seq<u8>),
    Int2(Seq<u8>),
    RawBytes { elem: ElemType, bytes: Seq<u8> },
}

impl TensorDataSpec {
    /// The element type that the data carries.
    pub open spec fn elem(self) -> ElemType {
        match self {
            TensorDataSpec::F32(_) => ElemType::Float,
            TensorDataSpec::F64(_) => ElemType::Double,
            TensorDataSpec::I8(_) => ElemType::Int8,
            TensorDataSpec::I16(_) => ElemType::Int16,
            TensorDataSpec::I32(_) => ElemType::Int32,
            TensorDataSpec::I64(_) => ElemType::Int64,
            TensorDataSpec::U8(_) => ElemType::Uint8,
            TensorDataSpec::U16(_) => ElemType::Uint16,
            TensorDataSpec::U32(_) => ElemType::Uint32,
            TensorDataSpec::U64(_) => ElemType::Uint64,
            TensorDataSpec::Bool(_) => ElemType::Bool,
            TensorDataSpec::String(_) => ElemType::String,
            TensorDataSpec::F16(_) => ElemType::Float16,
            TensorDataSpec::Bf16(_) => ElemType::Bfloat16,
            TensorDataSpec::Complex64(_) => ElemType::Complex64,
            TensorDataSpec::Complex128(_) => ElemType::Complex128,
            TensorDataSpec::Float8e4m3fn(_) => ElemType::Float8e4m3fn,
            TensorDataSpec::Float8e4m3fnuz(_) => ElemType::Float8e4m3fnuz,
            TensorDataSpec::Float8e5m2(_) => ElemType::Float8e5m2,
            TensorDataSpec::Float8e5m2fnuz(_) => ElemType::Float8e5m2fnuz,
            TensorDataSpec::Float8e8m0(_) => ElemType::Float8e8m0,
            TensorDataSpec::Uint4(_) => ElemType::Uint4,
            TensorDataSpec::Int4(_) => ElemType::Int4,
            TensorDataSpec::Float4e2m1(_) => ElemType::Float4e2m1,
            TensorDataSpec::Uint2(_) => ElemType::Uint2,
            TensorDataSpec::Int2(_) => ElemType::Int2,
            TensorDataSpec::RawBytes { elem, .. } => elem,
        }
    }

    /// The number of elements, or `None` for raw bytes.
    pub open spec fn count(self) -> Option<nat> {
        match self {
            TensorDataSpec::F32(x) => Some(x.len()),
            TensorDataSpec::F64(x) => Some(x.len()),
            TensorDataSpec::I8(x) => Some(x.len()),
            TensorDataSpec::I16(x) => Some(x.len()),
            TensorDataSpec::I32(x) => Some(x.len()),
            TensorDataSpec::I64(x) => Some(x.len()),
            TensorDataSpec::U8(x) => Some(x.len()),
            TensorDataSpec::U16(x) => Some(x.len()),
            TensorDataSpec::U32(x) => Some(x.len()),
            TensorDataSpec::U64(x) => Some(x.len()),
            TensorDataSpec::Bool(x) => Some(x.len()),
            TensorDataSpec::String(x) => Some(x.len()),
            TensorDataSpec::F16(x) => Some(x.len()),
            TensorDataSpec::Bf16(x) => Some(x.len()),
            TensorDataSpec::Complex64(x) => Some(x.len()),
            TensorDataSpec::Complex128(x) => Some(x.len()),
            TensorDataSpec::Float8e4m3fn(x) => Some(x.len()),
            TensorDataSpec::Float8e4m3fnuz(x) => Some(x.len()),
            TensorDataSpec::Float8e5m2(x) => Some(x.len()),
            TensorDataSpec::Float8e5m2fnuz(x) => Some(x.len()),
            TensorDataSpec::Float8e8m0(x) => Some(x.len()),
            TensorDataSpec::Uint4(x) => Some(x.len()),
            TensorDataSpec::Int4(x) => Some(x.len()),
            TensorDataSpec::Float4e2m1(x) => Some(x.len()),
            TensorDataSpec::Uint2(x) => Some(x.len()),
            TensorDataSpec::Int2(x) => Some(x.len()),
            TensorDataSpec::RawBytes { .. } => None,
        }
    }
}

/// The element count of inline data is the number of values it holds, for
/// every kind of data but raw bytes, which are not counted.
pub proof fn lemma_count_is_length(d: TensorDataSpec)
    ensures
        d.count() is None <==> d is RawBytes,
        d matches TensorDataSpec::F32(x) ==> d.count() == Some(x.len()),
        d matches TensorDataSpec::F64(x) ==> d.count() == Some(x.len()),
        d matches TensorDataSpec::I8(x) ==> d.count() == Some(x.len()),
        d matches TensorDataSpec::I16(x) ==> d.count() == Some(x.len()),
        d matches TensorDataSpec::I32(x) ==> d.count() == Some(x.len()),
        d matches TensorDataSpec::I64(x) ==> d.count() == Some(x.len()),
        d matches TensorDataSpec::U8(x) ==> d.count() == Some(x.len()),
        d matches TensorDataSpec::U16(x) ==> d.count() == Some(x.len()),
        d matches TensorDataSpec::U32(x) ==> d.count() == Some(x.len()),
        d matches TensorDataSpec::U64(x) ==> d.count() == Some(x.len()),
        d matches TensorDataSpec::Bool(x) ==> d.count() == Some(x.len()),
        d matches TensorDataSpec::String(x) ==> d.count() == Some(x.len()),
        d matches TensorDataSpec::F16(x) ==> d.count() == Some(x.len()),
        d matches TensorDataSpec::Bf16(x) ==> d.count() == Some(x.len()),
        d matches TensorDataSpec::Complex64(x) ==> d.count() == Some(x.len()),
        d matches TensorDataSpec::Complex128(x) ==> d.count() == Some(x.len()),
        d matches TensorDataSpec::Float8e4m3fn(x) ==> d.count() == Some(x.len()),
        d matches TensorDataSpec::Float8e4m3fnuz(x) ==> d.count() == Some(x.len()),
        d matches TensorDataSpec::Float8e5m2(x) ==> d.count() == Some(x.len()),
        d matches TensorDataSpec::Float8e5m2fnuz(x) ==> d.count() == Some(x.len()),
        d matches TensorDataSpec::Float8e8m0(x) ==> d.count() == Some(x.len()),
        d matches TensorDataSpec::Uint4(x) ==> d.count() == Some(x.len()),
        d matches TensorDataSpec::Int4(x) ==> d.count() == Some(x.len()),
        d matches TensorDataSpec::Float4e2m1(x) ==> d.count() == Some(x.len()),
        d matches TensorDataSpec::Uint2(x) ==> d.count() == Some(x.len()),
        d matches TensorDataSpec::Int2(x) ==> d.count() == Some(x.len()),
{
}

/// Inline element data of a tensor. Floating-point elements are held as
/// their bit patterns, which is how the protobuf encoding carries them.
#[derive(Debug, PartialEq)]
pub enum TensorData {
    /// `FLOAT` values, as IEEE-754 bit patterns.
    F32(Vec<u32>),
    /// `DOUBLE` values, as IEEE-754 bit patterns.
    F64(Vec<u64>),
    I8(Vec<i8>),
    I16(Vec<i16>),
    I32(Vec<i32>),
    I64(Vec<i64>),
    U8(Vec<u8>),
    U16(Vec<u16>),
    U32(Vec<u32>),
    U64(Vec<u64>),
    Bool(Vec<bool>),
    String(Vec<String>),
    /// `FLOAT16` values, as bit patterns.
    F16(Vec<u16>),
    /// `BFLOAT16` values, as bit patterns.
    Bf16(Vec<u16>),
    /// `COMPLEX64` values: interleaved real and imaginary `FLOAT` bit patterns.
    Complex64(Vec<u32>),
    /// `COMPLEX128` values: interleaved real and imaginary `DOUBLE` bit patterns.
    Complex128(Vec<u64>),
    Float8e4m3fn(Vec<u8>),
    Float8e4m3fnuz(Vec<u8>),
    Float8e5m2(Vec<u8>),
    Float8e5m2fnuz(Vec<u8>),
    Float8e8m0(Vec<u8>),
    Uint4(Vec<u8>),
    Int4(Vec<u8>),
    Float4e2m1(Vec<u8>),
    Uint2(Vec<u8>),
    Int2(Vec<u8>),
    /// Undecoded little-endian bytes of the given element type.
    RawBytes { elem: ElemType, bytes: Vec<u8> },
}

impl DeepView for TensorData {
    type V = TensorDataSpec;

    open spec fn deep_view(&self) -> TensorDataSpec {
        match self {
            TensorData::F32(x) => TensorDataSpec::F32(x@),
            TensorData::F64(x) => TensorDataSpec::F64(x@),
            TensorData::I8(x) => TensorDataSpec::I8(x@),
            TensorData::I16(x) => TensorDataSpec::I16(x@),
            TensorData::I32(x) => TensorDataSpec::I32(x@),
            TensorData::I64(x) => TensorDataSpec::I64(x@),
            TensorData::U8(x) => TensorDataSpec::U8(x@),
            TensorData::U16(x) => TensorDataSpec::U16(x@),
            TensorData::U32(x) => TensorDataSpec::U32(x@),
            TensorData::U64(x) => TensorDataSpec::U64(x@),
            TensorData::Bool(x) => TensorDataSpec::Bool(x@),
            TensorData::String(x) => TensorDataSpec::String(x.deep_view()),
            TensorData::F16(x) => TensorDataSpec::F16(x@),
            TensorData::Bf16(x) => TensorDataSpec::Bf16(x@),
            TensorData::Complex64(x) => TensorDataSpec::Complex64(x@),
            TensorData::Complex128(x) => TensorDataSpec::Complex128(x@),
            TensorData::Float8e4m3fn(x) => TensorDataSpec::Float8e4m3fn(x@),
            TensorData::Float8e4m3fnuz(x) => TensorDataSpec::Float8e4m3fnuz(x@),
            TensorData::Float8e5m2(x) => TensorDataSpec::Float8e5m2(x@),
            TensorData::Float8e5m2fnuz(x) => TensorDataSpec::Float8e5m2fnuz(x@),
            TensorData::Float8e8m0(x) => TensorDataSpec::Float8e8m0(x@),
            TensorData::Uint4(x) => TensorDataSpec::Uint4(x@),
            TensorData::Int4(x) => TensorDataSpec::Int4(x@),
            TensorData::Float4e2m1(x) => TensorDataSpec::Float4e2m1(x@),
            TensorData::Uint2(x) => TensorDataSpec::Uint2(x@),
            TensorData::Int2(x) => TensorDataSpec::Int2(x@),
            TensorData::RawBytes { elem, bytes } => TensorDataSpec::RawBytes {
                elem: *elem,
                bytes: bytes@,
            },
        }
    }
}

impl Clone for TensorData {
    fn clone(&self) -> (r: Self)
        ensures
            r.deep_view() == self.deep_view(),
    {
        match self {
            TensorData::F32(x) => {
                let c = x.clone();
                proof {
                    assert(c@ =~= x@);
                }
                TensorData::F32(c)
            },
            TensorData::F64(x) => {
                let c = x.clone();
                proof {
                    assert(c@ =~= x@);
                }
                TensorData::F64(c)
            },
            TensorData::I8(x) => {
                let c = x.clone();
                proof {
                    assert(c@ =~= x@);
                }
                TensorData::I8(c)
            },
            TensorData::I16(x) => {
                let c = x.clone();
                proof {
                    assert(c@ =~= x@);
                }
                TensorData::I16(c)
            },
            TensorData::I32(x) => {
                let c = x.clone();
                proof {
                    assert(c@ =~= x@);
                }
                TensorData::I32(c)
            },
            TensorData::I64(x) => {
                let c = x.clone();
                proof {
                    assert(c@ =~= x@);
                }
                TensorData::I64(c)
            },
            TensorData::U8(x) => {
                let c = x.clone();
                proof {
                    assert(c@ =~= x@);
                }
                TensorData::U8(c)
            },
            TensorData::U16(x) => {
                let c = x.clone();
                proof {
                    assert(c@ =~= x@);
                }
                TensorData::U16(c)
            },
            TensorData::U32(x) => {
                let c = x.clone();
                proof {
                    assert(c@ =~= x@);
                }
                TensorData::U32(c)
            },
            TensorData::U64(x) => {
                let c = x.clone();
                proof {
                    assert(c@ =~= x@);
                }
                TensorData::U64(c)
            },
            TensorData::Bool(x) => {
                let c = x.clone();
                proof {
                    assert(c@ =~= x@);
                }
                TensorData::Bool(c)
            },
            TensorData::String(x) => {
                let c = x.clone();
                proof {
                    assert(c.deep_view() =~= x.deep_view());
                }
                TensorData::String(c)
            },
            TensorData::F16(x) => {
                let c = x.clone();
                proof {
                    assert(c@ =~= x@);
                }
                TensorData::F16(c)
            },
            TensorData::Bf16(x) => {
                let c = x.clone();
                proof {
                    assert(c@ =~= x@);
                }
                TensorData::Bf16(c)
            },
            TensorData::Complex64(x) => {
                let c = x.clone();
                proof {
                    assert(c@ =~= x@);
                }
                TensorData::Complex64(c)
            },
            TensorData::Complex128(x) => {
                let c = x.clone();
                proof {
                    assert(c@ =~= x@);
                }
                TensorData::Complex128(c)
            },
            TensorData::Float8e4m3fn(x) => {
                let c = x.clone();
                proof {
                    assert(c@ =~= x@);
                }
                TensorData::Float8e4m3fn(c)
            },
            TensorData::Float8e4m3fnuz(x) => {
                let c = x.clone();
                proof {
                    assert(c@ =~= x@);
                }
                TensorData::Float8e4m3fnuz(c)
            },
            TensorData::Float8e5m2(x) => {
                let c = x.clone();
                proof {
                    assert(c@ =~= x@);
                }
                TensorData::Float8e5m2(c)
            },
            TensorData::Float8e5m2fnuz(x) => {
                let c = x.clone();
                proof {
                    assert(c@ =~= x@);
                }
                TensorData::Float8e5m2fnuz(c)
            },
            TensorData::Float8e8m0(x) => {
                let c = x.clone();
                proof {
                    assert(c@ =~= x@);
                }
                TensorData::Float8e8m0(c)
            },
            TensorData::Uint4(x) => {
                let c = x.clone();
                proof {
                    assert(c@ =~= x@);
                }
                TensorData::Uint4(c)
            },
            TensorData::Int4(x) => {
                let c = x.clone();
                proof {
                    assert(c@ =~= x@);
                }
                TensorData::Int4(c)
            },
            TensorData::Float4e2m1(x) => {
                let c = x.clone();
                proof {
                    assert(c@ =~= x@);
                }
                TensorData::Float4e2m1(c)
            },
            TensorData::Uint2(x) => {
                let c = x.clone();
                proof {
                    assert(c@ =~= x@);
                }
                TensorData::Uint2(c)
            },
            TensorData::Int2(x) => {
                let c = x.clone();
                proof {
                    assert(c@ =~= x@);
                }
                TensorData::Int2(c)
            },
            TensorData::RawBytes { elem, bytes } => {
                let c = bytes.clone();
                proof {
                    assert(c@ =~= bytes@);
                }
                TensorData::RawBytes { elem: *elem, bytes: c }
            },
        }
    }
}

impl TensorData {
    /// The element type that the data carries.
    pub fn elem_type(&self) -> (r: ElemType)
        ensures
            r == self.deep_view().elem(),
    {
        match self {
            TensorData::F32(_) => ElemType::Float,
            TensorData::F64(_) => ElemType::Double,
            TensorData::I8(_) => ElemType::Int8,
            TensorData::I16(_) => ElemType::Int16,
            TensorData::I32(_) => ElemType::Int32,
            TensorData::I64(_) => ElemType::Int64,
            TensorData::U8(_) => ElemType::Uint8,
            TensorData::U16(_) => ElemType::Uint16,
            TensorData::U32(_) => ElemType::Uint32,
            TensorData::U64(_) => ElemType::Uint64,
            TensorData::Bool(_) => ElemType::Bool,
            TensorData::String(_) => ElemType::String,
            TensorData::F16(_) => ElemType::Float16,
            TensorData::Bf16(_) => ElemType::Bfloat16,
            TensorData::Complex64(_) => ElemType::Complex64,
            TensorData::Complex128(_) => ElemType::Complex128,
            TensorData::Float8e4m3fn(_) => ElemType::Float8e4m3fn,
            TensorData::Float8e4m3fnuz(_) => ElemType::Float8e4m3fnuz,
            TensorData::Float8e5m2(_) => ElemType::Float8e5m2,
            TensorData::Float8e5m2fnuz(_) => ElemType::Float8e5m2fnuz,
            TensorData::Float8e8m0(_) => ElemType::Float8e8m0,
            TensorData::Uint4(_) => ElemType::Uint4,
            TensorData::Int4(_) => ElemType::Int4,
            TensorData::Float4e2m1(_) => ElemType::Float4e2m1,
            TensorData::Uint2(_) => ElemType::Uint2,
            TensorData::Int2(_) => ElemType::Int2,
            TensorData::RawBytes { elem, .. } => *elem,
        }
    }

    /// The number of elements, or `None` for raw bytes.
    pub fn len(&self) -> (r: Option<usize>)
        ensures
            r matches Some(n) ==> self.deep_view().count() == Some(n as nat),
            r is None <==> self.deep_view().count() is None,
    {
        match self {
            TensorData::F32(x) => Some(x.len()),
            TensorData::F64(x) => Some(x.len()),
            TensorData::I8(x) => Some(x.len()),
            TensorData::I16(x) => Some(x.len()),
            TensorData::I32(x) => Some(x.len()),
            TensorData::I64(x) => Some(x.len()),
            TensorData::U8(x) => Some(x.len()),
            TensorData::U16(x) => Some(x.len()),
            TensorData::U32(x) => Some(x.len()),
            TensorData::U64(x) => Some(x.len()),
            TensorData::Bool(x) => Some(x.len()),
            TensorData::String(x) => Some(x.len()),
            TensorData::F16(x) => Some(x.len()),
            TensorData::Bf16(x) => Some(x.len()),
            TensorData::Complex64(x) => Some(x.len()),
            TensorData::Complex128(x) => Some(x.len()),
            TensorData::Float8e4m3fn(x) => Some(x.len()),
            TensorData::Float8e4m3fnuz(x) => Some(x.len()),
            TensorData::Float8e5m2(x) => Some(x.len()),
            TensorData::Float8e5m2fnuz(x) => Some(x.len()),
            TensorData::Float8e8m0(x) => Some(x.len()),
            TensorData::Uint4(x) => Some(x.len()),
            TensorData::Int4(x) => Some(x.len()),
            TensorData::Float4e2m1(x) => Some(x.len()),
            TensorData::Uint2(x) => Some(x.len()),
            TensorData::Int2(x) => Some(x.len()),
            TensorData::RawBytes { .. } => None,
        }
    }

    /// Whether the data holds zero elements (raw bytes never count as empty).
    pub fn is_empty(&self) -> (r: bool)
        ensures
            r == (self.deep_view().count() == Some(0nat)),
    {
        match self.len() {
            Some(n) => n == 0,
            None => false,
        }
    }
}

/// Mathematical model of [`ExternalData`].
pub struct ExternalDataSpec {
    pub location: Seq<char>,
    pub offset: Option<u64>,
    pub length: Option<u64>,
    pub checksum: Option<Seq<char>>,
}

/// Reference to tensor bytes stored outside the model.
#[derive(Debug, PartialEq)]
pub struct ExternalData {
    pub location: String,
    pub offset: Option<u64>,
    pub length: Option<u64>,
    pub checksum: Option<String>,
}

impl DeepView for ExternalData {
    type V = ExternalDataSpec;

    open spec fn deep_view(&self) -> ExternalDataSpec {
        ExternalDataSpec {
            location: self.location@,
            offset: self.offset,
            length: self.length,
            checksum: self.checksum.deep_view(),
        }
    }
}

impl Clone for ExternalData {
    fn clone(&self) -> (r: Self)
        ensures
            r.deep_view() == self.deep_view(),
    {
        ExternalData {
            location: self.location.clone(),
            offset: self.offset,
            length: self.length,
            checksum: self.checksum.clone(),
        }
    }
}

/// The keys of an `external_data` entry list read so far.
pub struct EntryScan {
    pub location: Option<Seq<char>>,
    pub offset: Option<u64>,
    pub length: Option<u64>,
    pub checksum: Option<Seq<char>>,
}

/// Reads `entries` in order: each recognized key overrides the value read
/// before it; the first `offset` or `length` value that is not a decimal
/// number fails the read with the message that names it.
pub open spec fn scan_entries(entries: Seq<(Seq<char>, Seq<char>)>, st: EntryScan) -> Result<
    EntryScan,
    Seq<char>,
>
    decreases entries.len(),
{
    if entries.len() == 0 {
        Ok(st)
    } else {
        let (k, v) = entries[0];
        let rest = entries.drop_first();
        if k == "location"@ {
            scan_entries(rest, EntryScan { location: Some(v), ..st })
        } else if k == "offset"@ {
            match spec_parse_u64(v) {
                Some(n) => scan_entries(rest, EntryScan { offset: Some(n), ..st }),
                None => Err("non-numeric offset "@ + debug_quoted(v)),
            }
        } else if k == "length"@ {
            match spec_parse_u64(v) {
                Some(n) => scan_entries(rest, EntryScan { length: Some(n), ..st }),
                None => Err("non-numeric length "@ + debug_quoted(v)),
            }
        } else if k == "checksum"@ {
            scan_entries(rest, EntryScan { checksum: Some(v), ..st })
        } else {
            scan_entries(rest, st)
        }
    }
}

/// The model of a list of `(key, value)` string pairs.
pub open spec fn entries_view(entries: Seq<(String, String)>) -> Seq<(Seq<char>, Seq<char>)> {
    entries.map_values(|e: (String, String)| (e.0@, e.1@))
}

/// What [`ExternalData::from_entries`] makes of an entry list.
pub open spec fn spec_external_from_entries(entries: Seq<(Seq<char>, Seq<char>)>) -> Result<
    ExternalDataSpec,
    Seq<char>,
> {
    match scan_entries(
        entries,
        EntryScan { location: None, offset: None, length: None, checksum: None },
    ) {
        Ok(st) => match st.location {
            Some(location) => Ok(
                ExternalDataSpec {
                    location,
                    offset: st.offset,
                    length: st.length,
                    checksum: st.checksum,
                },
            ),
            None => Err("external_data without location key"@),
        },
        Err(m) => Err(m),
    }
}

/// What [`ExternalData::to_entries`] writes for an external data reference.
pub open spec fn spec_external_to_entries(e: ExternalDataSpec) -> Seq<(Seq<char>, Seq<char>)> {
    let s1 = seq![("location"@, e.location)];
    let s2 = match e.offset {
        Some(o) => s1.push(("offset"@, decimal(o as nat))),
        None => s1,
    };
    let s3 = match e.length {
        Some(l) => s2.push(("length"@, decimal(l as nat))),
        None => s2,
    };
    match e.checksum {
        Some(c) => s3.push(("checksum"@, c)),
        None => s3,
    }
}

impl ExternalData {
    /// Reads an `external_data` key/value list.
    pub fn from_entries(entries: &[(String, String)]) -> (r: Result<Self, TensorError>)
        ensures
            match spec_external_from_entries(entries_view(entries@)) {
                Ok(e) => r matches Ok(x) && x.deep_view() == e,
                Err(m) => r matches Err(TensorError::InvalidExternalData(x)) && x@ == m,
            },
    {
        let mut location: Option<String> = None;
        let mut offset: Option<u64> = None;
        let mut length: Option<u64> = None;
        let mut checksum: Option<String> = None;
        let ghost all = entries_view(entries@);
        let mut i: usize = 0;
        proof {
            assert(all.skip(0) =~= all);
        }
        while i < entries.len()
            invariant
                0 <= i <= entries.len(),
                all == entries_view(entries@),
                scan_entries(all, EntryScan {
                    location: None,
                    offset: None,
                    length: None,
                    checksum: None,
                }) == scan_entries(
                    all.skip(i as int),
                    EntryScan {
                        location: location.deep_view(),
                        offset,
                        length,
                        checksum: checksum.deep_view(),
                    },
                ),
            decreases entries.len() - i,
        {
            let (k, v) = &entries[i];
            let ghost st = EntryScan {
                location: location.deep_view(),
                offset,
                length,
                checksum: checksum.deep_view(),
            };
            proof {
                assert(all.skip(i as int).drop_first() =~= all.skip(i + 1));
                assert(all.skip(i as int)[0] == (k@, v@));
            }
            if str_eq(k.as_str(), "location") {
                location = Some(v.clone());
            } else if str_eq(k.as_str(), "offset") {
                match parse_u64(v.as_str()) {
                    Some(n) => {
                        offset = Some(n);
                    },
                    None => {
                        let q = quoted(v.as_str());
                        let m = concat("non-numeric offset ", q.as_str());
                        return Err(TensorError::InvalidExternalData(m));
                    },
                }
            } else if str_eq(k.as_str(), "length") {
                match parse_u64(v.as_str()) {
                    Some(n) => {
                        length = Some(n);
                    },
                    None => {
                        let q = quoted(v.as_str());
                        let m = concat("non-numeric length ", q.as_str());
                        return Err(TensorError::InvalidExternalData(m));
                    },
                }
            } else if str_eq(k.as_str(), "checksum") {
                checksum = Some(v.clone());
            }
            i = i + 1;
        }
        proof {
            assert(all.skip(i as int) =~= Seq::<(Seq<char>, Seq<char>)>::empty());
        }
        match location {
            Some(location) => Ok(ExternalData { location, offset, length, checksum }),
            None => Err(
                TensorError::InvalidExternalData(
                    String::from_str("external_data without location key"),
                ),
            ),
        }
    }

    /// Writes the reference as an `external_data` key/value list.
    pub fn to_entries(&self) -> (r: Vec<(String, String)>)
        ensures
            entries_view(r@) == spec_external_to_entries(self.deep_view()),
    {
        let mut entries: Vec<(String, String)> = Vec::with_capacity(4);
        entries.push((String::from_str("location"), self.location.clone()));
        let ghost s1 = entries_view(entries@);
        proof {
            assert(s1 =~= seq![("location"@, self.location@)]);
        }
        if let Some(o) = self.offset {
            entries.push((String::from_str("offset"), u64_to_string(o)));
        }
        let ghost s2 = entries_view(entries@);
        proof {
            if self.offset is Some {
                assert(s2 =~= s1.push(("offset"@, decimal(self.offset->0 as nat))));
            } else {
                assert(s2 =~= s1);
            }
        }
        if let Some(l) = self.length {
            entries.push((String::from_str("length"), u64_to_string(l)));
        }
        let ghost s3 = entries_view(entries@);
        proof {
            if self.length is Some {
                assert(s3 =~= s2.push(("length"@, decimal(self.length->0 as nat))));
            } else {
                assert(s3 =~= s2);
            }
        }
        if let Some(c) = &self.checksum {
            entries.push((String::from_str("checksum"), c.clone()));
        }
        proof {
            if self.checksum is Some {
                assert(entries_view(entries@) =~= s3.push(("checksum"@, self.checksum->0@)));
            } else {
                assert(entries_view(entries@) =~= s3);
            }
        }
        entries
    }
}

/// The value of the last entry with the given key.
pub open spec fn last_value(entries: Seq<(Seq<char>, Seq<char>)>, key: Seq<char>) -> Option<
    Seq<char>,
>
    decreases entries.len(),
{
    if entries.len() == 0 {
        None
    } else {
        match last_value(entries.drop_first(), key) {
            Some(v) => Some(v),
            None => if entries[0].0 == key {
                Some(entries[0].1)
            } else {
                None
            },
        }
    }
}

/// Whether every `offset` and `length` entry holds a decimal number.
pub open spec fn numbers_parse(entries: Seq<(Seq<char>, Seq<char>)>) -> bool {
    forall|i: int|
        0 <= i < entries.len() && (entries[i].0 == "offset"@ || entries[i].0 == "length"@)
            ==> spec_parse_u64(#[trigger] entries[i].1) is Some
}

/// The number of the last entry with the given key.
pub open spec fn last_number(entries: Seq<(Seq<char>, Seq<char>)>, key: Seq<char>) -> Option<u64> {
    match last_value(entries, key) {
        Some(v) => spec_parse_u64(v),
        None => None,
    }
}

/// Reading entries after a scan state: the read fails exactly when an
/// `offset` or `length` value is not a number, and otherwise each key takes
/// the value of its last entry, or keeps the state's where it has none.
proof fn lemma_scan_entries(entries: Seq<(Seq<char>, Seq<char>)>, st: EntryScan)
    ensures
        scan_entries(entries, st) is Ok <==> numbers_parse(entries),
        scan_entries(entries, st) matches Ok(r) ==> {
            &&& r.location == (if last_value(entries, "location"@) is Some {
                last_value(entries, "location"@)
            } else {
                st.location
            })
            &&& r.offset == (if last_value(entries, "offset"@) is Some {
                last_number(entries, "offset"@)
            } else {
                st.offset
            })
            &&& r.length == (if last_value(entries, "length"@) is Some {
                last_number(entries, "length"@)
            } else {
                st.length
            })
            &&& r.checksum == (if last_value(entries, "checksum"@) is Some {
                last_value(entries, "checksum"@)
            } else {
                st.checksum
            })
        },
    decreases entries.len(),
{
    reveal_strlit("location");
    reveal_strlit("offset");
    reveal_strlit("length");
    reveal_strlit("checksum");
    assert("location"@[0] != "offset"@[0] && "location"@[0] != "checksum"@[0]);
    assert("location"@.len() != "length"@.len());
    assert("offset"@[0] != "length"@[0] && "offset"@[0] != "checksum"@[0]);
    assert("length"@[0] != "checksum"@[0]);
    assert("location"@ != "offset"@ && "location"@ != "length"@ && "location"@ != "checksum"@);
    assert("offset"@ != "length"@ && "offset"@ != "checksum"@ && "length"@ != "checksum"@);
    if entries.len() > 0 {
        let (k, v) = entries[0];
        let rest = entries.drop_first();
        assert forall|i: int| 0 <= i < rest.len() implies #[trigger] rest[i] == entries[i + 1] by {}
        let next = if k == "location"@ {
            EntryScan { location: Some(v), ..st }
        } else if k == "offset"@ {
            EntryScan { offset: spec_parse_u64(v), ..st }
        } else if k == "length"@ {
            EntryScan { length: spec_parse_u64(v), ..st }
        } else if k == "checksum"@ {
            EntryScan { checksum: Some(v), ..st }
        } else {
            st
        };
        lemma_scan_entries(rest, next);
        let head_ok = !(k == "offset"@ || k == "length"@) || spec_parse_u64(v) is Some;
        if numbers_parse(entries) {
            assert forall|i: int|
                0 <= i < rest.len() && (rest[i].0 == "offset"@ || rest[i].0 == "length"@)
                    implies spec_parse_u64(#[trigger] rest[i].1) is Some by {
                assert(rest[i] == entries[i + 1]);
            }
            assert(numbers_parse(rest));
            assert(spec_parse_u64(entries[0].1) is Some || !(entries[0].0 == "offset"@
                || entries[0].0 == "length"@));
            assert(head_ok);
            assert(scan_entries(entries, st) == scan_entries(rest, next));
        } else {
            let j = choose|i: int|
                0 <= i < entries.len() && (entries[i].0 == "offset"@ || entries[i].0 == "length"@)
                    && !(spec_parse_u64(#[trigger] entries[i].1) is Some);
            if j > 0 {
                assert(rest[j - 1] == entries[j]);
                assert(!(spec_parse_u64(rest[j - 1].1) is Some));
                assert(!numbers_parse(rest));
                if head_ok {
                    assert(scan_entries(entries, st) == scan_entries(rest, next));
                }
            } else {
                assert(!head_ok);
            }
            assert(scan_entries(entries, st) is Err);
        }
    }
}

/// The entries of an external data reference: the read fails exactly when
/// no entry names the location or an `offset` or `length` value is not a
/// decimal number; otherwise each field is the value of the last entry
/// with its key, none where there is no such entry, and other keys are
/// ignored.
pub proof fn lemma_external_entries_law(entries: Seq<(Seq<char>, Seq<char>)>)
    ensures
        spec_external_from_entries(entries) is Err <==> (last_value(entries, "location"@) is None
            || !numbers_parse(entries)),
        spec_external_from_entries(entries) matches Ok(e) ==> {
            &&& Some(e.location) == last_value(entries, "location"@)
            &&& e.offset == last_number(entries, "offset"@)
            &&& e.length == last_number(entries, "length"@)
            &&& e.checksum == last_value(entries, "checksum"@)
        },
{
    lemma_scan_entries(
        entries,
        EntryScan { location: None, offset: None, length: None, checksum: None },
    );
}

/// Reading back the entry list that [`ExternalData::to_entries`] writes
/// gives the same external data reference.
pub proof fn lemma_external_entries_roundtrip(e: ExternalDataSpec)
    ensures
        spec_external_from_entries(spec_external_to_entries(e)) == Ok::<
            ExternalDataSpec,
            Seq<char>,
        >(e),
{
    reveal_strlit("location");
    reveal_strlit("offset");
    reveal_strlit("length");
    reveal_strlit("checksum");
    assert("offset"@[0] != "location"@[0]);
    assert("length"@.len() != "location"@.len() && "length"@[0] != "offset"@[0]);
    assert("checksum"@[0] != "location"@[0] && "checksum"@[0] != "offset"@[0]
        && "checksum"@[0] != "length"@[0]);
    let init = EntryScan { location: None, offset: None, length: None, checksum: None };
    let st1 = EntryScan { location: Some(e.location), ..init };
    let st2 = EntryScan { offset: e.offset, ..st1 };
    let st3 = EntryScan { length: e.length, ..st2 };
    let st4 = EntryScan { checksum: e.checksum, ..st3 };
    let empty = Seq::<(Seq<char>, Seq<char>)>::empty();
    let p4 = match e.checksum {
        Some(c) => seq![("checksum"@, c)],
        None => empty,
    };
    let p3 = match e.length {
        Some(l) => seq![("length"@, decimal(l as nat))] + p4,
        None => p4,
    };
    let p2 = match e.offset {
        Some(o) => seq![("offset"@, decimal(o as nat))] + p3,
        None => p3,
    };
    let p1 = seq![("location"@, e.location)] + p2;
    assert(scan_entries(empty, st4) == Ok::<EntryScan, Seq<char>>(st4));
    if let Some(c) = e.checksum {
        assert(p4.drop_first() =~= empty);
    }
    assert(scan_entries(p4, st3) == Ok::<EntryScan, Seq<char>>(st4));
    if let Some(l) = e.length {
        lemma_parse_decimal_u64(l);
        assert((seq![("length"@, decimal(l as nat))] + p4).drop_first() =~= p4);
    }
    assert(scan_entries(p3, st2) == Ok::<EntryScan, Seq<char>>(st4));
    if let Some(o) = e.offset {
        lemma_parse_decimal_u64(o);
        assert((seq![("offset"@, decimal(o as nat))] + p3).drop_first() =~= p3);
    }
    assert(scan_entries(p2, st1) == Ok::<EntryScan, Seq<char>>(st4));
    assert(p1.drop_first() =~= p2);
    assert(scan_entries(p1, init) == Ok::<EntryScan, Seq<char>>(st4));
    assert(spec_external_to_entries(e) =~= p1);
}

/// Why a value could not be converted without loss.
#[derive(Debug, Clone, Copy, PartialEq, Eq, Structural)]
pub enum CastLossReason {
    OutOfRange,
    NonIntegral,
}

/// Mathematical model of [`TensorError`].
pub enum TensorErrorSpec {
    InvalidExternalData(Seq<char>),
    ElementCountMismatch { expected: usize, got: usize },
    TypeError { expected: ElemType, got: ElemType },
    CastError { index: usize, from: ElemType, to: ElemType, reason: CastLossReason },
}

/// Errors of tensor access and of external data references.
#[derive(Debug, PartialEq)]
pub enum TensorError {
    InvalidExternalData(String),
    ElementCountMismatch { expected: usize, got: usize },
    TypeError { expected: ElemType, got: ElemType },
    CastError { index: usize, from: ElemType, to: ElemType, reason: CastLossReason },
}

impl DeepView for TensorError {
    type V = TensorErrorSpec;

    open spec fn deep_view(&self) -> TensorErrorSpec {
        match self {
            TensorError::InvalidExternalData(m) => TensorErrorSpec::InvalidExternalData(m@),
            TensorError::ElementCountMismatch { expected, got } =>
                TensorErrorSpec::ElementCountMismatch { expected: *expected, got: *got },
            TensorError::TypeError { expected, got } => TensorErrorSpec::TypeError {
                expected: *expected,
                got: *got,
            },
            TensorError::CastError { index, from, to, reason } => TensorErrorSpec::CastError {
                index: *index,
                from: *from,
                to: *to,
                reason: *reason,
            },
        }
    }
}

impl Clone for TensorError {
    fn clone(&self) -> (r: Self)
        ensures
            r.deep_view() == self.deep_view(),
    {
        match self {
            TensorError::InvalidExternalData(m) => TensorError::InvalidExternalData(m.clone()),
            TensorError::ElementCountMismatch { expected, got } =>
                TensorError::ElementCountMismatch { expected: *expected, got: *got },
            TensorError::TypeError { expected, got } => TensorError::TypeError {
                expected: *expected,
                got: *got,
            },
            TensorError::CastError { index, from, to, reason } => TensorError::CastError {
                index: *index,
                from: *from,
                to: *to,
                reason: *reason,
            },
        }
    }
}

/// Mathematical model of [`TensorStorage`].
pub enum TensorStorageSpec {
    Inline(TensorDataSpec),
    External(ExternalDataSpec),
}

/// Where the elements of a tensor are.
#[derive(Debug, PartialEq)]
pub enum TensorStorage {
    Inline(TensorData),
    External(ExternalData),
}

impl DeepView for TensorStorage {
    type V = TensorStorageSpec;

    open spec fn deep_view(&self) -> TensorStorageSpec {
        match self {
            TensorStorage::Inline(d) => TensorStorageSpec::Inline(d.deep_view()),
            TensorStorage::External(e) => TensorStorageSpec::External(e.deep_view()),
        }
    }
}

impl Clone for TensorStorage {
    fn clone(&self) -> (r: Self)
        ensures
            r.deep_view() == self.deep_view(),
    {
        match self {
            TensorStorage::Inline(d) => TensorStorage::Inline(d.clone()),
            TensorStorage::External(e) => TensorStorage::External(e.clone()),
        }
    }
}

/// Mathematical model of [`Tensor`].
pub struct TensorSpec {
    pub name: Seq<char>,
    pub elem: ElemType,
    pub shape: Seq<DimSpec>,
    pub data: TensorStorageSpec,
    pub doc_string: Seq<char>,
}

/// A named constant tensor.
#[derive(Debug, PartialEq)]
pub struct Tensor {
    pub name: String,
    pub elem: ElemType,
    pub shape: Shape,
    pub data: TensorStorage,
    pub doc_string: String,
}

impl DeepView for Tensor {
    type V = TensorSpec;

    open spec fn deep_view(&self) -> TensorSpec {
        TensorSpec {
            name: self.name@,
            elem: self.elem,
            shape: self.shape.deep_view(),
            data: self.data.deep_view(),
            doc_string: self.doc_string@,
        }
    }
}

impl Clone for Tensor {
    fn clone(&self) -> (r: Self)
        ensures
            r.deep_view() == self.deep_view(),
    {
        let shape = self.shape.clone();
        proof {
            assert(shape.deep_view() =~= self.shape.deep_view());
        }
        Tensor {
            name: self.name.clone(),
            elem: self.elem,
            shape,
            data: self.data.clone(),
            doc_string: self.doc_string.clone(),
        }
    }
}

/// The product of the fixed dimensions taken left to right from `acc`, or
/// `None` where a dimension is not fixed or a partial product leaves `i64`.
pub open spec fn fold_fixed_product(acc: int, dims: Seq<DimSpec>) -> Option<int>
    decreases dims.len(),
{
    if dims.len() == 0 {
        Some(acc)
    } else {
        match dims[0] {
            DimSpec::Fixed(v) => if i64::MIN <= acc * v <= i64::MAX {
                fold_fixed_product(acc * v, dims.drop_first())
            } else {
                None
            },
            _ => None,
        }
    }
}

/// The element count that a shape implies, where it is known and fits in `usize`.
pub open spec fn spec_expected_len(shape: Seq<DimSpec>) -> Option<usize> {
    match fold_fixed_product(1, shape) {
        Some(n) => if 0 <= n <= usize::MAX {
            Some(n as usize)
        } else {
            None
        },
        None => None,
    }
}

impl Tensor {
    /// A tensor with inline data.
    pub fn new(name: String, elem: ElemType, shape: Shape, data: TensorData) -> (r: Self)
        ensures
            r.deep_view() == (TensorSpec {
                name: name@,
                elem,
                shape: shape.deep_view(),
                data: TensorStorageSpec::Inline(data.deep_view()),
                doc_string: Seq::empty(),
            }),
    {
        Tensor { name, elem, shape, data: TensorStorage::Inline(data), doc_string: String::new() }
    }

    /// A tensor whose data is stored outside the model.
    pub fn external(name: String, elem: ElemType, shape: Shape, external: ExternalData) -> (r:
        Self)
        ensures
            r.deep_view() == (TensorSpec {
                name: name@,
                elem,
                shape: shape.deep_view(),
                data: TensorStorageSpec::External(external.deep_view()),
                doc_string: Seq::empty(),
            }),
    {
        Tensor {
            name,
            elem,
            shape,
            data: TensorStorage::External(external),
            doc_string: String::new(),
        }
    }

    /// The element count that the shape implies: the product of its
    /// dimensions, `None` where one is not fixed or the product does not fit.
    pub fn expected_len(&self) -> (r: Option<usize>)
        ensures
            r == spec_expected_len(self.shape.deep_view()),
    {
        let ghost dims = self.shape.deep_view();
        let mut acc: i64 = 1;
        let mut i: usize = 0;
        proof {
            assert(dims.skip(0) =~= dims);
        }
        while i < self.shape.len()
            invariant
                0 <= i <= self.shape.len(),
                dims == self.shape.deep_view(),
                fold_fixed_product(1, dims) == fold_fixed_product(acc as int, dims.skip(i as int)),
            decreases self.shape.len() - i,
        {
            proof {
                assert(dims.skip(i as int).drop_first() =~= dims.skip(i + 1));
                assert(dims.skip(i as int)[0] == self.shape[i as int].deep_view());
            }
            match &self.shape[i] {
                Dim::Fixed(v) => {
                    match acc.checked_mul(*v) {
                        Some(p) => {
                            acc = p;
                        },
                        None => {
                            return None;
                        },
                    }
                },
                _ => {
                    return None;
                },
            }
            i = i + 1;
        }
        proof {
            assert(dims.skip(i as int) =~= Seq::<DimSpec>::empty());
        }
        if acc < 0 {
            None
        } else if (acc as u64) as u128 <= usize::MAX as u128 {
            Some(acc as usize)
        } else {
            None
        }
    }

    /// The inline data, or `None` for external data.
    pub fn data(&self) -> (r: Option<&TensorData>)
        ensures
            match self.data {
                TensorStorage::Inline(d) => r == Some(&d),
                TensorStorage::External(_) => r is None,
            },
    {
        match &self.data {
            TensorStorage::Inline(d) => Some(d),
            TensorStorage::External(_) => None,
        }
    }

    /// The bit patterns of inline `FLOAT16` data.
    pub fn f16_bits(&self) -> (r: Option<&[u16]>)
        ensures
            match self.data {
                TensorStorage::Inline(TensorData::F16(bits)) => r matches Some(s) && s@ == bits@,
                _ => r is None,
            },
    {
        match &self.data {
            TensorStorage::Inline(TensorData::F16(bits)) => Some(bits.as_slice()),
            _ => None,
        }
    }

    /// The bit patterns of inline `BFLOAT16` data.
    pub fn bf16_bits(&self) -> (r: Option<&[u16]>)
        ensures
            match self.data {
                TensorStorage::Inline(TensorData::Bf16(bits)) => r matches Some(s) && s@ == bits@,
                _ => r is None,
            },
    {
        match &self.data {
            TensorStorage::Inline(TensorData::Bf16(bits)) => Some(bits.as_slice()),
            _ => None,
        }
    }
}

} // verus!
