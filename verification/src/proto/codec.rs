//! Conversion between the intermediate representation and the ONNX
//! protobuf message structures.
use super::elems::{
    bools_to_i32, bytes_to_bool, bytes_to_i8, i16s_to_i32, i32s_to_bool, i32s_to_i16, i32s_to_i8,
    i32s_to_u16, i32s_to_u8, i8s_to_i32, le_u16s, le_u32s, le_u64s, narrow_u64, read_le_u16s,
    read_le_u32s, read_le_u64s, u16s_to_i16, u16s_to_i32, u32s_to_i32, u64s_to_i64, u8s_to_i32,
    widen_u32,
};
use super::{
    Dimension, DimensionSpec, TensorProto, TensorProtoSpec, TypeProto, TypeProtoSpec, ValueInfoProto,
    ValueInfoProtoSpec, DATA_LOCATION_EXTERNAL,
};
use crate::ir::{
    AttributeError, AttributeErrorSpec, Dim, DimSpec, ElemType, TensorType, TensorTypeSpec,
    ValueInfo, ValueInfoSpec, ValueType, ValueTypeSpec, ExternalData, ExternalDataSpec,
    TensorData, TensorDataSpec, TensorError, TensorErrorSpec,
};
use vstd::utf8::encode_utf8;
use crate::ir::attribute::attribute_error_text;
use crate::text::{debug_quoted, push_str, quoted};
use crate::text::{
    concat, decimal, i64_to_string, lenient_utf8, signed_decimal, string_bytes, usize_to_string,
    utf8_lossy,
};
use vstd::prelude::*;

verus! {

/// Highest IR version the codec reads.
pub const SUPPORTED_IR_VERSION: i64 = 10;

/// Highest core (`ai.onnx`) opset the codec reads.
pub const SUPPORTED_ONNX_OPSET: i64 = 25;

/// Highest `ai.onnx.ml` opset the codec reads.
pub const SUPPORTED_ML_OPSET: i64 = 5;

/// The highest opset version the codec reads for a domain, if it knows the
/// domain.
pub open spec fn spec_supported_opset(domain: Seq<char>) -> Option<i64> {
    if domain == ""@ || domain == "ai.onnx"@ {
        Some(SUPPORTED_ONNX_OPSET)
    } else if domain == "ai.onnx.ml"@ {
        Some(SUPPORTED_ML_OPSET)
    } else {
        None
    }
}

/// The highest opset version the codec reads for a domain, if it knows the
/// domain.
pub fn supported_opset(domain: &str) -> (r: Option<i64>)
    ensures
        r == spec_supported_opset(domain@),
{
    if crate::text::str_eq(domain, "") || crate::text::str_eq(domain, "ai.onnx") {
        Some(SUPPORTED_ONNX_OPSET)
    } else if crate::text::str_eq(domain, "ai.onnx.ml") {
        Some(SUPPORTED_ML_OPSET)
    } else {
        None
    }
}

/// Model of [`ProtoCodecError`].
#[allow(inconsistent_fields)]
pub enum ProtoCodecErrorSpec {
    Protobuf(Seq<char>),
    UnsupportedIrVersion { declared: i64, supported: i64 },
    UnsupportedOpsetVersion { domain: Seq<char>, declared: i64, supported: i64 },
    TensorSizeMismatch { name: Seq<char>, expected: usize, got: usize },
    TensorDataMismatch { name: Seq<char>, detail: Seq<char> },
    InvalidTypeProto { name: Seq<char>, detail: Seq<char> },
    InvalidExternalData { name: Seq<char>, detail: Seq<char> },
    Attribute(AttributeErrorSpec),
    Io(Seq<char>),
}

/// Why a model could not be converted.
#[derive(Debug, PartialEq)]
pub enum ProtoCodecError {
    Protobuf(String),
    UnsupportedIrVersion { declared: i64, supported: i64 },
    UnsupportedOpsetVersion { domain: String, declared: i64, supported: i64 },
    TensorSizeMismatch { name: String, expected: usize, got: usize },
    TensorDataMismatch { name: String, detail: String },
    InvalidTypeProto { name: String, detail: String },
    InvalidExternalData { name: String, detail: String },
    Attribute(AttributeError),
    Io(String),
}

impl DeepView for ProtoCodecError {
    type V = ProtoCodecErrorSpec;

    open spec fn deep_view(&self) -> ProtoCodecErrorSpec {
        match self {
            ProtoCodecError::Protobuf(m) => ProtoCodecErrorSpec::Protobuf(m@),
            ProtoCodecError::UnsupportedIrVersion { declared, supported } =>
                ProtoCodecErrorSpec::UnsupportedIrVersion {
                declared: *declared,
                supported: *supported,
            },
            ProtoCodecError::UnsupportedOpsetVersion { domain, declared, supported } =>
                ProtoCodecErrorSpec::UnsupportedOpsetVersion {
                domain: domain@,
                declared: *declared,
                supported: *supported,
            },
            ProtoCodecError::TensorSizeMismatch { name, expected, got } =>
                ProtoCodecErrorSpec::TensorSizeMismatch {
                name: name@,
                expected: *expected,
                got: *got,
            },
            ProtoCodecError::TensorDataMismatch { name, detail } =>
                ProtoCodecErrorSpec::TensorDataMismatch { name: name@, detail: detail@ },
            ProtoCodecError::InvalidTypeProto { name, detail } =>
                ProtoCodecErrorSpec::InvalidTypeProto { name: name@, detail: detail@ },
            ProtoCodecError::InvalidExternalData { name, detail } =>
                ProtoCodecErrorSpec::InvalidExternalData { name: name@, detail: detail@ },
            ProtoCodecError::Attribute(e) => ProtoCodecErrorSpec::Attribute(e.deep_view()),
            ProtoCodecError::Io(m) => ProtoCodecErrorSpec::Io(m@),
        }
    }
}

/// The text of a codec error.
pub open spec fn codec_error_text(e: ProtoCodecErrorSpec) -> Seq<char> {
    match e {
        ProtoCodecErrorSpec::Protobuf(m) => "invalid protobuf data: "@ + m,
        ProtoCodecErrorSpec::UnsupportedIrVersion { declared, supported } =>
            "unsupported IR version "@ + signed_decimal(declared as int)
            + ": this library supports up to IR version "@ + signed_decimal(supported as int),
        ProtoCodecErrorSpec::UnsupportedOpsetVersion { domain, declared, supported } =>
            "unsupported opset version "@ + signed_decimal(declared as int) + " for domain "@
            + debug_quoted(domain) + ": this library supports up to "@ + signed_decimal(
            supported as int,
        ),
        ProtoCodecErrorSpec::TensorSizeMismatch { name, expected, got } => "tensor "@
            + debug_quoted(name) + ": shape implies "@ + decimal(expected as nat)
            + " elements but data carries "@ + decimal(got as nat),
        ProtoCodecErrorSpec::TensorDataMismatch { name, detail } => "tensor "@ + debug_quoted(name)
            + ": inconsistent data: "@ + detail,
        ProtoCodecErrorSpec::InvalidTypeProto { name, detail } => "value info "@ + debug_quoted(
            name,
        ) + ": invalid type proto: "@ + detail,
        ProtoCodecErrorSpec::InvalidExternalData { name, detail } => "tensor "@ + debug_quoted(
            name,
        ) + ": invalid external data: "@ + detail,
        ProtoCodecErrorSpec::Attribute(e) => "invalid attribute: "@ + attribute_error_text(e),
        ProtoCodecErrorSpec::Io(m) => "io error: "@ + m,
    }
}

impl ProtoCodecError {
    /// The error as text.
    pub fn message(&self) -> (r: String)
        ensures
            r@ == codec_error_text(self.deep_view()),
    {
        match self {
            ProtoCodecError::Protobuf(m) => concat("invalid protobuf data: ", m.as_str()),
            ProtoCodecError::UnsupportedIrVersion { declared, supported } => {
                let mut m = String::from_str("unsupported IR version ");
                push_str(&mut m, i64_to_string(*declared).as_str());
                push_str(&mut m, ": this library supports up to IR version ");
                push_str(&mut m, i64_to_string(*supported).as_str());
                m
            },
            ProtoCodecError::UnsupportedOpsetVersion { domain, declared, supported } => {
                let mut m = String::from_str("unsupported opset version ");
                push_str(&mut m, i64_to_string(*declared).as_str());
                push_str(&mut m, " for domain ");
                push_str(&mut m, quoted(domain.as_str()).as_str());
                push_str(&mut m, ": this library supports up to ");
                push_str(&mut m, i64_to_string(*supported).as_str());
                m
            },
            ProtoCodecError::TensorSizeMismatch { name, expected, got } => {
                let mut m = String::from_str("tensor ");
                push_str(&mut m, quoted(name.as_str()).as_str());
                push_str(&mut m, ": shape implies ");
                push_str(&mut m, usize_to_string(*expected).as_str());
                push_str(&mut m, " elements but data carries ");
                push_str(&mut m, usize_to_string(*got).as_str());
                m
            },
            ProtoCodecError::TensorDataMismatch { name, detail } => {
                let mut m = String::from_str("tensor ");
                push_str(&mut m, quoted(name.as_str()).as_str());
                push_str(&mut m, ": inconsistent data: ");
                push_str(&mut m, detail.as_str());
                m
            },
            ProtoCodecError::InvalidTypeProto { name, detail } => {
                let mut m = String::from_str("value info ");
                push_str(&mut m, quoted(name.as_str()).as_str());
                push_str(&mut m, ": invalid type proto: ");
                push_str(&mut m, detail.as_str());
                m
            },
            ProtoCodecError::InvalidExternalData { name, detail } => {
                let mut m = String::from_str("tensor ");
                push_str(&mut m, quoted(name.as_str()).as_str());
                push_str(&mut m, ": invalid external data: ");
                push_str(&mut m, detail.as_str());
                m
            },
            ProtoCodecError::Attribute(e) => concat("invalid attribute: ", e.message().as_str()),
            ProtoCodecError::Io(m) => concat("io error: ", m.as_str()),
        }
    }
}

/// Whether an outcome is the modelled one: the same value or the same error.
pub open spec fn outcome<T: DeepView>(
    r: Result<T, ProtoCodecError>,
    s: Result<T::V, ProtoCodecErrorSpec>,
) -> bool {
    match (r, s) {
        (Ok(x), Ok(y)) => x.deep_view() == y,
        (Err(e), Err(f)) => e.deep_view() == f,
        _ => false,
    }
}

/// How a tensor error reads when the codec reports it.
pub open spec fn tensor_error_text(e: TensorErrorSpec) -> Seq<char> {
    match e {
        TensorErrorSpec::InvalidExternalData(m) => "invalid external data: "@ + m,
        TensorErrorSpec::ElementCountMismatch { expected, got } =>
            "tensor element count mismatch: shape implies "@ + decimal(expected as nat)
                + " elements, data has "@ + decimal(got as nat),
        TensorErrorSpec::TypeError { expected, got } => "tensor type mismatch: expected "@
            + expected.spec_name() + " ("@ + expected.spec_debug_name() + "), found "@
            + got.spec_name() + " ("@ + got.spec_debug_name() + ")"@,
        TensorErrorSpec::CastError { index, from, to, reason } => "element "@ + decimal(
            index as nat,
        ) + ": cannot cast "@ + from.spec_name() + " ("@ + from.spec_debug_name() + ") to "@
            + to.spec_name() + " ("@ + to.spec_debug_name() + "): "@ + match reason {
            crate::ir::CastLossReason::OutOfRange => "value out of range for target type"@,
            crate::ir::CastLossReason::NonIntegral => "value has a fractional part"@,
        },
    }
}

/// How a tensor error reads when the codec reports it.
pub fn tensor_error_message(e: &TensorError) -> (r: String)
    ensures
        r@ == tensor_error_text(e.deep_view()),
{
    match e {
        TensorError::InvalidExternalData(m) => concat("invalid external data: ", m.as_str()),
        TensorError::ElementCountMismatch { expected, got } => {
            let a = concat("tensor element count mismatch: shape implies ", usize_to_string(*expected).as_str());
            let b = concat(a.as_str(), " elements, data has ");
            concat(b.as_str(), usize_to_string(*got).as_str())
        },
        TensorError::TypeError { expected, got } => {
            let a = concat("tensor type mismatch: expected ", expected.name());
            let b = concat(a.as_str(), " (");
            let c = concat(b.as_str(), expected.debug_name());
            let d = concat(c.as_str(), "), found ");
            let e2 = concat(d.as_str(), got.name());
            let f = concat(e2.as_str(), " (");
            let g = concat(f.as_str(), got.debug_name());
            concat(g.as_str(), ")")
        },
        TensorError::CastError { index, from, to, reason } => {
            let a = concat("element ", usize_to_string(*index).as_str());
            let b = concat(a.as_str(), ": cannot cast ");
            let c = concat(b.as_str(), from.name());
            let d = concat(c.as_str(), " (");
            let e2 = concat(d.as_str(), from.debug_name());
            let f = concat(e2.as_str(), ") to ");
            let g = concat(f.as_str(), to.name());
            let h = concat(g.as_str(), " (");
            let i = concat(h.as_str(), to.debug_name());
            let j = concat(i.as_str(), "): ");
            match reason {
                crate::ir::CastLossReason::OutOfRange => concat(j.as_str(), "value out of range for target type"),
                crate::ir::CastLossReason::NonIntegral => concat(
                    j.as_str(),
                    "value has a fractional part",
                ),
            }
        },
    }
}

/// The codec error for a tensor error: external data errors as such, the
/// others as inconsistent data, with no tensor name.
pub open spec fn spec_from_tensor_error(e: TensorErrorSpec) -> ProtoCodecErrorSpec {
    match e {
        TensorErrorSpec::InvalidExternalData(m) => ProtoCodecErrorSpec::InvalidExternalData {
            name: Seq::empty(),
            detail: m,
        },
        _ => ProtoCodecErrorSpec::TensorDataMismatch {
            name: Seq::empty(),
            detail: tensor_error_text(e),
        },
    }
}

impl ProtoCodecError {
    /// The codec error for a tensor error.
    pub fn from_tensor_error(e: TensorError) -> (r: Self)
        ensures
            r.deep_view() == spec_from_tensor_error(e.deep_view()),
    {
        match e {
            TensorError::InvalidExternalData(m) => ProtoCodecError::InvalidExternalData {
                name: String::new(),
                detail: m,
            },
            other => {
                let detail = tensor_error_message(&other);
                ProtoCodecError::TensorDataMismatch { name: String::new(), detail }
            },
        }
    }
}

// ---------------------------------------------------------------------------
// Tensor data
// ---------------------------------------------------------------------------
/// The factor a dimension contributes to an element count: its size, or
/// zero when negative, as a `usize`.
pub open spec fn dim_factor(d: i64) -> usize {
    (if d < 0 {
        0i64
    } else {
        d
    }) as usize
}

/// The product of the factors of `dims` times `acc`, or `None` where a
/// partial product leaves `usize`.
pub open spec fn dims_product(acc: int, dims: Seq<i64>) -> Option<int>
    decreases dims.len(),
{
    if dims.len() == 0 {
        Some(acc)
    } else if acc * dim_factor(dims[0]) > usize::MAX {
        None
    } else {
        dims_product(acc * dim_factor(dims[0]), dims.drop_first())
    }
}

/// The element count that the dimensions of a tensor imply; `usize::MAX`
/// when it does not fit in `usize`.
pub open spec fn expected_count(dims: Seq<i64>) -> usize {
    match dims_product(1, dims) {
        Some(n) => n as usize,
        None => usize::MAX,
    }
}

/// The element count that the dimensions of a tensor imply.
pub fn dims_count(dims: &[i64]) -> (r: usize)
    ensures
        r == expected_count(dims@),
{
    let mut acc: usize = 1;
    let mut i: usize = 0;
    proof {
        assert(dims@.skip(0) =~= dims@);
    }
    while i < dims.len()
        invariant
            0 <= i <= dims@.len(),
            dims_product(1, dims@) == dims_product(acc as int, dims@.skip(i as int)),
        decreases dims@.len() - i,
    {
        let d = dims[i];
        let m: i64 = if d < 0 {
            0
        } else {
            d
        };
        let f = m as usize;
        proof {
            assert(dims@.skip(i as int)[0] == d);
            assert(dims@.skip(i as int).drop_first() =~= dims@.skip(i + 1));
        }
        match acc.checked_mul(f) {
            Some(p) => {
                acc = p;
            },
            None => {
                return usize::MAX;
            },
        }
        i = i + 1;
    }
    proof {
        assert(dims@.skip(i as int) =~= Seq::<i64>::empty());
    }
    acc
}

/// The bytes per element of a fixed-width element type in `raw_data`.
pub open spec fn raw_width(elem: ElemType) -> nat {
    match elem {
        ElemType::Float | ElemType::Int32 | ElemType::Uint32 | ElemType::Complex64 => 4,
        ElemType::Double | ElemType::Int64 | ElemType::Uint64 | ElemType::Complex128 => 8,
        ElemType::Int16 | ElemType::Uint16 | ElemType::Float16 | ElemType::Bfloat16 => 2,
        _ => 1,
    }
}

/// The bytes per element of a fixed-width element type in `raw_data`.
pub fn raw_elem_width(elem: ElemType) -> (r: usize)
    ensures
        r == raw_width(elem),
{
    match elem {
        ElemType::Float | ElemType::Int32 | ElemType::Uint32 | ElemType::Complex64 => 4,
        ElemType::Double | ElemType::Int64 | ElemType::Uint64 | ElemType::Complex128 => 8,
        ElemType::Int16 | ElemType::Uint16 | ElemType::Float16 | ElemType::Bfloat16 => 2,
        _ => 1,
    }
}

/// What `raw_data` holds, read as elements of the given type: fixed-width
/// types as little-endian values, others as the raw bytes; a length that is
/// not a whole number of elements is an error.
pub open spec fn spec_decode_raw(elem: ElemType, raw: Seq<u8>, name: Seq<char>) -> Result<
    TensorDataSpec,
    ProtoCodecErrorSpec,
> {
    if !elem.spec_is_fixed_width() {
        Ok(TensorDataSpec::RawBytes { elem, bytes: raw })
    } else if raw.len() % raw_width(elem) != 0 {
        Err(
            ProtoCodecErrorSpec::TensorSizeMismatch {
                name,
                expected: ((raw.len() + raw_width(elem) - 1) as int / raw_width(elem) as int) as usize,
                got: raw.len() as usize,
            },
        )
    } else {
        Ok(
            match elem {
                ElemType::Float => TensorDataSpec::F32(le_u32s(raw)),
                ElemType::Double => TensorDataSpec::F64(le_u64s(raw)),
                ElemType::Int8 => TensorDataSpec::I8(raw.map_values(|x: u8| x as i8)),
                ElemType::Int16 => TensorDataSpec::I16(le_u16s(raw).map_values(|x: u16| x as i16)),
                ElemType::Int32 => TensorDataSpec::I32(le_u32s(raw).map_values(|x: u32| x as i32)),
                ElemType::Int64 => TensorDataSpec::I64(le_u64s(raw).map_values(|x: u64| x as i64)),
                ElemType::Uint8 => TensorDataSpec::U8(raw),
                ElemType::Uint16 => TensorDataSpec::U16(le_u16s(raw)),
                ElemType::Uint32 => TensorDataSpec::U32(le_u32s(raw)),
                ElemType::Uint64 => TensorDataSpec::U64(le_u64s(raw)),
                ElemType::Bool => TensorDataSpec::Bool(raw.map_values(|x: u8| x != 0u8)),
                ElemType::Float16 => TensorDataSpec::F16(le_u16s(raw)),
                ElemType::Bfloat16 => TensorDataSpec::Bf16(le_u16s(raw)),
                ElemType::Complex64 => TensorDataSpec::Complex64(le_u32s(raw)),
                ElemType::Complex128 => TensorDataSpec::Complex128(le_u64s(raw)),
                _ => TensorDataSpec::RawBytes { elem, bytes: raw },
            },
        )
    }
}

/// Reading `raw_data` of a fixed-width numeric type whose length is a
/// whole number of elements gives data of that type with one element per
/// element width of bytes (1 for 8-bit and `BOOL`, 2 for 16-bit, 4 for
/// 32-bit and `COMPLEX64` numbers, 8 for 64-bit and `COMPLEX128` numbers);
/// any other length is a size error. `FLOAT` and `DOUBLE` elements are the
/// little-endian numbers of their bytes, and `UINT8` elements the bytes.
pub proof fn lemma_raw_data_law(elem: ElemType, raw: Seq<u8>, name: Seq<char>)
    ensures
        elem == ElemType::Float && raw.len() % 4 == 0 ==> (spec_decode_raw(elem, raw, name) matches Ok(d)
            && d.elem() == ElemType::Float && d.count() == Some(raw.len() / 4)),
        elem == ElemType::Float && raw.len() % 4 != 0 ==> (spec_decode_raw(elem, raw, name) matches Err(e)
            && e is TensorSizeMismatch),
        elem == ElemType::Double && raw.len() % 8 == 0 ==> (spec_decode_raw(elem, raw, name) matches Ok(d)
            && d.elem() == ElemType::Double && d.count() == Some(raw.len() / 8)),
        elem == ElemType::Double && raw.len() % 8 != 0 ==> (spec_decode_raw(elem, raw, name) matches Err(e)
            && e is TensorSizeMismatch),
        elem == ElemType::Int8 && raw.len() % 1 == 0 ==> (spec_decode_raw(elem, raw, name) matches Ok(d)
            && d.elem() == ElemType::Int8 && d.count() == Some(raw.len() / 1)),
        elem == ElemType::Int8 && raw.len() % 1 != 0 ==> (spec_decode_raw(elem, raw, name) matches Err(e)
            && e is TensorSizeMismatch),
        elem == ElemType::Int16 && raw.len() % 2 == 0 ==> (spec_decode_raw(elem, raw, name) matches Ok(d)
            && d.elem() == ElemType::Int16 && d.count() == Some(raw.len() / 2)),
        elem == ElemType::Int16 && raw.len() % 2 != 0 ==> (spec_decode_raw(elem, raw, name) matches Err(e)
            && e is TensorSizeMismatch),
        elem == ElemType::Int32 && raw.len() % 4 == 0 ==> (spec_decode_raw(elem, raw, name) matches Ok(d)
            && d.elem() == ElemType::Int32 && d.count() == Some(raw.len() / 4)),
        elem == ElemType::Int32 && raw.len() % 4 != 0 ==> (spec_decode_raw(elem, raw, name) matches Err(e)
            && e is TensorSizeMismatch),
        elem == ElemType::Int64 && raw.len() % 8 == 0 ==> (spec_decode_raw(elem, raw, name) matches Ok(d)
            && d.elem() == ElemType::Int64 && d.count() == Some(raw.len() / 8)),
        elem == ElemType::Int64 && raw.len() % 8 != 0 ==> (spec_decode_raw(elem, raw, name) matches Err(e)
            && e is TensorSizeMismatch),
        elem == ElemType::Uint8 && raw.len() % 1 == 0 ==> (spec_decode_raw(elem, raw, name) matches Ok(d)
            && d.elem() == ElemType::Uint8 && d.count() == Some(raw.len() / 1)),
        elem == ElemType::Uint8 && raw.len() % 1 != 0 ==> (spec_decode_raw(elem, raw, name) matches Err(e)
            && e is TensorSizeMismatch),
        elem == ElemType::Uint16 && raw.len() % 2 == 0 ==> (spec_decode_raw(elem, raw, name) matches Ok(d)
            && d.elem() == ElemType::Uint16 && d.count() == Some(raw.len() / 2)),
        elem == ElemType::Uint16 && raw.len() % 2 != 0 ==> (spec_decode_raw(elem, raw, name) matches Err(e)
            && e is TensorSizeMismatch),
        elem == ElemType::Uint32 && raw.len() % 4 == 0 ==> (spec_decode_raw(elem, raw, name) matches Ok(d)
            && d.elem() == ElemType::Uint32 && d.count() == Some(raw.len() / 4)),
        elem == ElemType::Uint32 && raw.len() % 4 != 0 ==> (spec_decode_raw(elem, raw, name) matches Err(e)
            && e is TensorSizeMismatch),
        elem == ElemType::Uint64 && raw.len() % 8 == 0 ==> (spec_decode_raw(elem, raw, name) matches Ok(d)
            && d.elem() == ElemType::Uint64 && d.count() == Some(raw.len() / 8)),
        elem == ElemType::Uint64 && raw.len() % 8 != 0 ==> (spec_decode_raw(elem, raw, name) matches Err(e)
            && e is TensorSizeMismatch),
        elem == ElemType::Bool && raw.len() % 1 == 0 ==> (spec_decode_raw(elem, raw, name) matches Ok(d)
            && d.elem() == ElemType::Bool && d.count() == Some(raw.len() / 1)),
        elem == ElemType::Bool && raw.len() % 1 != 0 ==> (spec_decode_raw(elem, raw, name) matches Err(e)
            && e is TensorSizeMismatch),
        elem == ElemType::Float16 && raw.len() % 2 == 0 ==> (spec_decode_raw(elem, raw, name) matches Ok(d)
            && d.elem() == ElemType::Float16 && d.count() == Some(raw.len() / 2)),
        elem == ElemType::Float16 && raw.len() % 2 != 0 ==> (spec_decode_raw(elem, raw, name) matches Err(e)
            && e is TensorSizeMismatch),
        elem == ElemType::Bfloat16 && raw.len() % 2 == 0 ==> (spec_decode_raw(elem, raw, name) matches Ok(d)
            && d.elem() == ElemType::Bfloat16 && d.count() == Some(raw.len() / 2)),
        elem == ElemType::Bfloat16 && raw.len() % 2 != 0 ==> (spec_decode_raw(elem, raw, name) matches Err(e)
            && e is TensorSizeMismatch),
        elem == ElemType::Complex64 && raw.len() % 4 == 0 ==> (spec_decode_raw(elem, raw, name) matches Ok(d)
            && d.elem() == ElemType::Complex64 && d.count() == Some(raw.len() / 4)),
        elem == ElemType::Complex64 && raw.len() % 4 != 0 ==> (spec_decode_raw(elem, raw, name) matches Err(e)
            && e is TensorSizeMismatch),
        elem == ElemType::Complex128 && raw.len() % 8 == 0 ==> (spec_decode_raw(elem, raw, name) matches Ok(d)
            && d.elem() == ElemType::Complex128 && d.count() == Some(raw.len() / 8)),
        elem == ElemType::Complex128 && raw.len() % 8 != 0 ==> (spec_decode_raw(elem, raw, name) matches Err(e)
            && e is TensorSizeMismatch),
        elem == ElemType::Float && raw.len() % 4 == 0 ==> spec_decode_raw(elem, raw, name) == Ok::<
            TensorDataSpec,
            ProtoCodecErrorSpec,
        >(
            TensorDataSpec::F32(
                Seq::new(
                    raw.len() / 4,
                    |k: int| vstd::bytes::spec_u32_from_le_bytes(raw.subrange(4 * k, 4 * k + 4)),
                ),
            ),
        ),
        elem == ElemType::Double && raw.len() % 8 == 0 ==> spec_decode_raw(elem, raw, name) == Ok::<
            TensorDataSpec,
            ProtoCodecErrorSpec,
        >(
            TensorDataSpec::F64(
                Seq::new(
                    raw.len() / 8,
                    |k: int| vstd::bytes::spec_u64_from_le_bytes(raw.subrange(8 * k, 8 * k + 8)),
                ),
            ),
        ),
        elem == ElemType::Uint8 ==> spec_decode_raw(elem, raw, name) == Ok::<
            TensorDataSpec,
            ProtoCodecErrorSpec,
        >(TensorDataSpec::U8(raw)),
{
}

/// Element `k` of the data read from `raw_data` of a fixed-width integer,
/// boolean, half-precision or complex type is the little-endian number in
/// the `k`-th group of element-width bytes (for signed types taken as
/// two's complement, for `BOOL` whether the byte is non-zero).
pub proof fn lemma_raw_data_elements(elem: ElemType, raw: Seq<u8>, name: Seq<char>, k: int)
    ensures
        elem == ElemType::Int8 && raw.len() % 1 == 0 && 0 <= k < raw.len() / 1 ==> (spec_decode_raw(
            elem,
            raw,
            name,
        ) matches Ok(TensorDataSpec::I8(v)) && v.len() == raw.len() / 1 && v[k] == raw[k] as i8),
        elem == ElemType::Int16 && raw.len() % 2 == 0 && 0 <= k < raw.len() / 2 ==> (spec_decode_raw(
            elem,
            raw,
            name,
        ) matches Ok(TensorDataSpec::I16(v)) && v.len() == raw.len() / 2 && v[k] == vstd::bytes::spec_u16_from_le_bytes(raw.subrange(2 * k, 2 * k + 2)) as i16),
        elem == ElemType::Int32 && raw.len() % 4 == 0 && 0 <= k < raw.len() / 4 ==> (spec_decode_raw(
            elem,
            raw,
            name,
        ) matches Ok(TensorDataSpec::I32(v)) && v.len() == raw.len() / 4 && v[k] == vstd::bytes::spec_u32_from_le_bytes(raw.subrange(4 * k, 4 * k + 4)) as i32),
        elem == ElemType::Int64 && raw.len() % 8 == 0 && 0 <= k < raw.len() / 8 ==> (spec_decode_raw(
            elem,
            raw,
            name,
        ) matches Ok(TensorDataSpec::I64(v)) && v.len() == raw.len() / 8 && v[k] == vstd::bytes::spec_u64_from_le_bytes(raw.subrange(8 * k, 8 * k + 8)) as i64),
        elem == ElemType::Uint16 && raw.len() % 2 == 0 && 0 <= k < raw.len() / 2 ==> (spec_decode_raw(
            elem,
            raw,
            name,
        ) matches Ok(TensorDataSpec::U16(v)) && v.len() == raw.len() / 2 && v[k] == vstd::bytes::spec_u16_from_le_bytes(raw.subrange(2 * k, 2 * k + 2))),
        elem == ElemType::Uint32 && raw.len() % 4 == 0 && 0 <= k < raw.len() / 4 ==> (spec_decode_raw(
            elem,
            raw,
            name,
        ) matches Ok(TensorDataSpec::U32(v)) && v.len() == raw.len() / 4 && v[k] == vstd::bytes::spec_u32_from_le_bytes(raw.subrange(4 * k, 4 * k + 4))),
        elem == ElemType::Uint64 && raw.len() % 8 == 0 && 0 <= k < raw.len() / 8 ==> (spec_decode_raw(
            elem,
            raw,
            name,
        ) matches Ok(TensorDataSpec::U64(v)) && v.len() == raw.len() / 8 && v[k] == vstd::bytes::spec_u64_from_le_bytes(raw.subrange(8 * k, 8 * k + 8))),
        elem == ElemType::Bool && raw.len() % 1 == 0 && 0 <= k < raw.len() / 1 ==> (spec_decode_raw(
            elem,
            raw,
            name,
        ) matches Ok(TensorDataSpec::Bool(v)) && v.len() == raw.len() / 1 && v[k] == (raw[k] != 0u8)),
        elem == ElemType::Float16 && raw.len() % 2 == 0 && 0 <= k < raw.len() / 2 ==> (spec_decode_raw(
            elem,
            raw,
            name,
        ) matches Ok(TensorDataSpec::F16(v)) && v.len() == raw.len() / 2 && v[k] == vstd::bytes::spec_u16_from_le_bytes(raw.subrange(2 * k, 2 * k + 2))),
        elem == ElemType::Bfloat16 && raw.len() % 2 == 0 && 0 <= k < raw.len() / 2 ==> (spec_decode_raw(
            elem,
            raw,
            name,
        ) matches Ok(TensorDataSpec::Bf16(v)) && v.len() == raw.len() / 2 && v[k] == vstd::bytes::spec_u16_from_le_bytes(raw.subrange(2 * k, 2 * k + 2))),
        elem == ElemType::Complex64 && raw.len() % 4 == 0 && 0 <= k < raw.len() / 4 ==> (spec_decode_raw(
            elem,
            raw,
            name,
        ) matches Ok(TensorDataSpec::Complex64(v)) && v.len() == raw.len() / 4 && v[k] == vstd::bytes::spec_u32_from_le_bytes(raw.subrange(4 * k, 4 * k + 4))),
        elem == ElemType::Complex128 && raw.len() % 8 == 0 && 0 <= k < raw.len() / 8 ==> (spec_decode_raw(
            elem,
            raw,
            name,
        ) matches Ok(TensorDataSpec::Complex128(v)) && v.len() == raw.len() / 8 && v[k] == vstd::bytes::spec_u64_from_le_bytes(raw.subrange(8 * k, 8 * k + 8))),
{
}

/// Whether `raw_data` of this element type is read into typed elements.
pub open spec fn reads_typed(elem: ElemType) -> bool {
    ||| elem is Float
    ||| elem is Double
    ||| elem is Int8
    ||| elem is Int16
    ||| elem is Int32
    ||| elem is Int64
    ||| elem is Uint8
    ||| elem is Uint16
    ||| elem is Uint32
    ||| elem is Uint64
    ||| elem is Bool
    ||| elem is Float16
    ||| elem is Bfloat16
    ||| elem is Complex64
    ||| elem is Complex128
}

/// `raw_data` of any other element type (strings, 8-bit and sub-byte
/// floats and integers, undefined) is kept as it is, whatever its length.
pub proof fn lemma_raw_data_kept(elem: ElemType, raw: Seq<u8>, name: Seq<char>)
    requires
        !reads_typed(elem),
    ensures
        spec_decode_raw(elem, raw, name) == Ok::<TensorDataSpec, ProtoCodecErrorSpec>(
            TensorDataSpec::RawBytes { elem, bytes: raw },
        ),
{
}

/// Reads `raw_data` as elements of the given type.
pub fn decode_raw_data(elem: ElemType, raw: &[u8], name: &str) -> (r: Result<
    TensorData,
    ProtoCodecError,
>)
    ensures
        outcome(r, spec_decode_raw(elem, raw@, name@)),
{
    if !elem.is_fixed_width() {
        return Ok(TensorData::RawBytes { elem, bytes: vstd::slice::slice_to_vec(raw) });
    }
    let width = raw_elem_width(elem);
    if raw.len() % width != 0 {
        proof {
            let l = raw@.len() as int;
            let w = width as int;
            assert((l + w - 1) / w == l / w + 1) by (nonlinear_arith)
                requires
                    w > 0,
                    l % w != 0,
                    l >= 0,
            ;
        }
        return Err(
            ProtoCodecError::TensorSizeMismatch {
                name: String::from_str(name),
                expected: raw.len() / width + 1,
                got: raw.len(),
            },
        );
    }
    let data = match elem {
        ElemType::Float => TensorData::F32(read_le_u32s(raw)),
        ElemType::Double => TensorData::F64(read_le_u64s(raw)),
        ElemType::Int8 => TensorData::I8(bytes_to_i8(raw)),
        ElemType::Int16 => {
            let v = read_le_u16s(raw);
            TensorData::I16(u16s_to_i16(v.as_slice()))
        },
        ElemType::Int32 => {
            let v = read_le_u32s(raw);
            TensorData::I32(u32s_to_i32(v.as_slice()))
        },
        ElemType::Int64 => {
            let v = read_le_u64s(raw);
            TensorData::I64(u64s_to_i64(v.as_slice()))
        },
        ElemType::Uint8 => TensorData::U8(vstd::slice::slice_to_vec(raw)),
        ElemType::Uint16 => TensorData::U16(read_le_u16s(raw)),
        ElemType::Uint32 => TensorData::U32(read_le_u32s(raw)),
        ElemType::Uint64 => TensorData::U64(read_le_u64s(raw)),
        ElemType::Bool => TensorData::Bool(bytes_to_bool(raw)),
        ElemType::Float16 => TensorData::F16(read_le_u16s(raw)),
        ElemType::Bfloat16 => TensorData::Bf16(read_le_u16s(raw)),
        ElemType::Complex64 => TensorData::Complex64(read_le_u32s(raw)),
        ElemType::Complex128 => TensorData::Complex128(read_le_u64s(raw)),
        _ => TensorData::RawBytes { elem, bytes: vstd::slice::slice_to_vec(raw) },
    };
    Ok(data)
}

/// An inconsistent-data error for a tensor.
pub open spec fn data_mismatch(name: Seq<char>, detail: Seq<char>) -> ProtoCodecErrorSpec {
    ProtoCodecErrorSpec::TensorDataMismatch { name, detail }
}

/// The size error for `got` elements where the dimensions imply another
/// count; none when the tensor has no dimensions.
pub open spec fn size_error(dims: Seq<i64>, got: nat, name: Seq<char>) -> Option<
    ProtoCodecErrorSpec,
> {
    if dims.len() > 0 && got != expected_count(dims) {
        Some(
            ProtoCodecErrorSpec::TensorSizeMismatch {
                name,
                expected: expected_count(dims),
                got: got as usize,
            },
        )
    } else {
        None
    }
}

/// Data after a size check.
pub open spec fn sized(
    dims: Seq<i64>,
    got: nat,
    name: Seq<char>,
    d: TensorDataSpec,
) -> Result<TensorDataSpec, ProtoCodecErrorSpec> {
    match size_error(dims, got, name) {
        Some(e) => Err(e),
        None => Ok(d),
    }
}

/// The size error of decoded data against the dimensions: complex data
/// holds two numbers per element, so it must hold an even count of them and
/// is counted in pairs; data of raw bytes is not counted.
pub open spec fn data_size_error(dims: Seq<i64>, d: TensorDataSpec, name: Seq<char>) -> Option<
    ProtoCodecErrorSpec,
> {
    match d {
        TensorDataSpec::Complex64(v) => complex_size_error(dims, v.len(), name),
        TensorDataSpec::Complex128(v) => complex_size_error(dims, v.len(), name),
        _ => match d.count() {
            Some(n) => size_error(dims, n, name),
            None => None,
        },
    }
}

/// The size error of complex data holding `numbers` numbers.
pub open spec fn complex_size_error(dims: Seq<i64>, numbers: nat, name: Seq<char>) -> Option<
    ProtoCodecErrorSpec,
> {
    if numbers % 2 != 0 {
        Some(data_mismatch(name, "complex data holds an odd count of numbers"@))
    } else {
        size_error(dims, numbers / 2, name)
    }
}

/// Decoded data after a size check.
pub open spec fn sized_data(dims: Seq<i64>, d: TensorDataSpec, name: Seq<char>) -> Result<
    TensorDataSpec,
    ProtoCodecErrorSpec,
> {
    match data_size_error(dims, d, name) {
        Some(e) => Err(e),
        None => Ok(d),
    }
}

/// What `int32_data` holds, read as elements of a type that it carries:
/// each value cut to the element's width.
pub open spec fn spec_decode_int32(elem: ElemType, data: Seq<i32>, name: Seq<char>) -> Result<
    TensorDataSpec,
    ProtoCodecErrorSpec,
> {
    match elem {
        ElemType::Int8 => Ok(TensorDataSpec::I8(data.map_values(|v: i32| v as i8))),
        ElemType::Int16 => Ok(TensorDataSpec::I16(data.map_values(|v: i32| v as i16))),
        ElemType::Int32 => Ok(TensorDataSpec::I32(data)),
        ElemType::Uint8 => Ok(TensorDataSpec::U8(data.map_values(|v: i32| v as u8))),
        ElemType::Uint16 => Ok(TensorDataSpec::U16(data.map_values(|v: i32| v as u16))),
        ElemType::Bool => Ok(TensorDataSpec::Bool(data.map_values(|v: i32| v != 0i32))),
        ElemType::Float16 => Ok(TensorDataSpec::F16(data.map_values(|v: i32| v as u16))),
        ElemType::Bfloat16 => Ok(TensorDataSpec::Bf16(data.map_values(|v: i32| v as u16))),
        ElemType::Float8e4m3fn => Ok(
            TensorDataSpec::Float8e4m3fn(data.map_values(|v: i32| v as u8)),
        ),
        ElemType::Float8e4m3fnuz => Ok(
            TensorDataSpec::Float8e4m3fnuz(data.map_values(|v: i32| v as u8)),
        ),
        ElemType::Float8e5m2 => Ok(TensorDataSpec::Float8e5m2(data.map_values(|v: i32| v as u8))),
        ElemType::Float8e5m2fnuz => Ok(
            TensorDataSpec::Float8e5m2fnuz(data.map_values(|v: i32| v as u8)),
        ),
        ElemType::Float8e8m0 => Ok(TensorDataSpec::Float8e8m0(data.map_values(|v: i32| v as u8))),
        ElemType::Uint4 => Ok(TensorDataSpec::Uint4(data.map_values(|v: i32| v as u8))),
        ElemType::Int4 => Ok(TensorDataSpec::Int4(data.map_values(|v: i32| v as u8))),
        ElemType::Float4e2m1 => Ok(TensorDataSpec::Float4e2m1(data.map_values(|v: i32| v as u8))),
        ElemType::Uint2 => Ok(TensorDataSpec::Uint2(data.map_values(|v: i32| v as u8))),
        ElemType::Int2 => Ok(TensorDataSpec::Int2(data.map_values(|v: i32| v as u8))),
        _ => Err(
            data_mismatch(name, "dtype "@ + elem.spec_name() + " cannot be carried in int32_data"@),
        ),
    }
}

/// Reads `int32_data` as elements of a type that it carries.
pub fn decode_int32_data(elem: ElemType, data: &[i32], name: &str) -> (r: Result<
    TensorData,
    ProtoCodecError,
>)
    ensures
        outcome(r, spec_decode_int32(elem, data@, name@)),
{
    let d = match elem {
        ElemType::Int8 => TensorData::I8(i32s_to_i8(data)),
        ElemType::Int16 => TensorData::I16(i32s_to_i16(data)),
        ElemType::Int32 => TensorData::I32(vstd::slice::slice_to_vec(data)),
        ElemType::Uint8 => TensorData::U8(i32s_to_u8(data)),
        ElemType::Uint16 => TensorData::U16(i32s_to_u16(data)),
        ElemType::Bool => TensorData::Bool(i32s_to_bool(data)),
        ElemType::Float16 => TensorData::F16(i32s_to_u16(data)),
        ElemType::Bfloat16 => TensorData::Bf16(i32s_to_u16(data)),
        ElemType::Float8e4m3fn => TensorData::Float8e4m3fn(i32s_to_u8(data)),
        ElemType::Float8e4m3fnuz => TensorData::Float8e4m3fnuz(i32s_to_u8(data)),
        ElemType::Float8e5m2 => TensorData::Float8e5m2(i32s_to_u8(data)),
        ElemType::Float8e5m2fnuz => TensorData::Float8e5m2fnuz(i32s_to_u8(data)),
        ElemType::Float8e8m0 => TensorData::Float8e8m0(i32s_to_u8(data)),
        ElemType::Uint4 => TensorData::Uint4(i32s_to_u8(data)),
        ElemType::Int4 => TensorData::Int4(i32s_to_u8(data)),
        ElemType::Float4e2m1 => TensorData::Float4e2m1(i32s_to_u8(data)),
        ElemType::Uint2 => TensorData::Uint2(i32s_to_u8(data)),
        ElemType::Int2 => TensorData::Int2(i32s_to_u8(data)),
        _ => {
            let a = concat("dtype ", elem.name());
            let detail = concat(a.as_str(), " cannot be carried in int32_data");
            return Err(
                ProtoCodecError::TensorDataMismatch { name: String::from_str(name), detail },
            );
        },
    };
    Ok(d)
}

/// What the data fields of a tensor message hold, read as elements of the
/// given type: `raw_data` first, then `string_data`, then the typed field
/// that carries the type. The element count must match the dimensions;
/// complex data holds two numbers per element.
pub open spec fn spec_decode_tensor_data(elem: ElemType, p: TensorProtoSpec, name: Seq<char>) -> Result<
    TensorDataSpec,
    ProtoCodecErrorSpec,
> {
    if p.raw_data.len() > 0 {
        if elem == ElemType::String {
            Err(data_mismatch(name, "STRING tensors must use string_data, not raw_data"@))
        } else {
            match spec_decode_raw(elem, p.raw_data, name) {
                Err(e) => Err(e),
                Ok(d) => sized_data(p.dims, d, name),
            }
        }
    } else if p.string_data.len() > 0 {
        if elem != ElemType::String {
            Err(
                data_mismatch(
                    name,
                    "string_data present but dtype is "@ + elem.spec_name() + " ("@
                        + elem.spec_debug_name() + ")"@,
                ),
            )
        } else {
            sized(
                p.dims,
                p.string_data.len(),
                name,
                TensorDataSpec::String(p.string_data.map_values(|b: Seq<u8>| lenient_utf8(b))),
            )
        }
    } else {
        match elem {
            ElemType::Float => sized(
                p.dims,
                p.float_data.len(),
                name,
                TensorDataSpec::F32(p.float_data),
            ),
            ElemType::Double => sized(
                p.dims,
                p.double_data.len(),
                name,
                TensorDataSpec::F64(p.double_data),
            ),
            ElemType::Complex64 => sized_data(p.dims, TensorDataSpec::Complex64(p.float_data), name),
            ElemType::Complex128 => sized_data(
                p.dims,
                TensorDataSpec::Complex128(p.double_data),
                name,
            ),
            ElemType::Int64 => sized(
                p.dims,
                p.int64_data.len(),
                name,
                TensorDataSpec::I64(p.int64_data),
            ),
            ElemType::Uint32 => sized(
                p.dims,
                p.uint64_data.len(),
                name,
                TensorDataSpec::U32(p.uint64_data.map_values(|x: u64| x as u32)),
            ),
            ElemType::Uint64 => sized(
                p.dims,
                p.uint64_data.len(),
                name,
                TensorDataSpec::U64(p.uint64_data),
            ),
            ElemType::String => Err(data_mismatch(name, "STRING tensor carries no string_data"@)),
            ElemType::Undefined => Err(data_mismatch(name, "tensor with UNDEFINED data type"@)),
            _ => match spec_decode_int32(elem, p.int32_data, name) {
                Ok(d) => sized(p.dims, p.int32_data.len(), name, d),
                Err(e) => Err(e),
            },
        }
    }
}

/// Checks an element count against the dimensions.
fn check_len(dims: &[i64], got: usize, name: &str) -> (r: Result<(), ProtoCodecError>)
    ensures
        match size_error(dims@, got as nat, name@) {
            Some(e) => r matches Err(x) && x.deep_view() == e,
            None => r is Ok,
        },
{
    if dims.len() > 0 {
        let expected = dims_count(dims);
        if got != expected {
            return Err(
                ProtoCodecError::TensorSizeMismatch { name: String::from_str(name), expected, got },
            );
        }
    }
    Ok(())
}

/// Checks the count of complex data holding `numbers` numbers against the
/// dimensions.
fn check_complex_len(dims: &[i64], numbers: usize, name: &str) -> (r: Result<(), ProtoCodecError>)
    ensures
        match complex_size_error(dims@, numbers as nat, name@) {
            Some(e) => r matches Err(x) && x.deep_view() == e,
            None => r is Ok,
        },
{
    if numbers % 2 != 0 {
        return Err(
            ProtoCodecError::TensorDataMismatch {
                name: String::from_str(name),
                detail: String::from_str("complex data holds an odd count of numbers"),
            },
        );
    }
    check_len(dims, numbers / 2, name)
}

/// Checks the count of decoded data against the dimensions.
fn check_data_len(dims: &[i64], d: &TensorData, name: &str) -> (r: Result<(), ProtoCodecError>)
    ensures
        match data_size_error(dims@, d.deep_view(), name@) {
            Some(e) => r matches Err(x) && x.deep_view() == e,
            None => r is Ok,
        },
{
    match d {
        TensorData::Complex64(v) => check_complex_len(dims, v.len(), name),
        TensorData::Complex128(v) => check_complex_len(dims, v.len(), name),
        _ => match d.len() {
            Some(n) => check_len(dims, n, name),
            None => Ok(()),
        },
    }
}

/// Decodes each byte string as UTF-8, replacing invalid sequences.
pub(crate) fn lossy_strings(v: &Vec<Vec<u8>>) -> (r: Vec<String>)
    ensures
        r.deep_view() == v.deep_view().map_values(|b: Seq<u8>| lenient_utf8(b)),
{
    let mut r: Vec<String> = Vec::new();
    let mut i: usize = 0;
    while i < v.len()
        invariant
            0 <= i <= v@.len(),
            r.deep_view() == v.deep_view().take(i as int).map_values(|b: Seq<u8>| lenient_utf8(b)),
        decreases v@.len() - i,
    {
        let ghost before = r.deep_view();
        let s = utf8_lossy(v[i].as_slice());
        proof {
            assert(s@ == lenient_utf8(v@[i as int]@));
        }
        r.push(s);
        proof {
            assert(r.deep_view() =~= before.push(lenient_utf8(v@[i as int]@)));
            assert(v@[i as int].deep_view() =~= v@[i as int]@);
            assert(v.deep_view().take(i + 1) =~= v.deep_view().take(i as int).push(v@[i as int]@));
            assert(r.deep_view() =~= v.deep_view().take(i + 1).map_values(
                |b: Seq<u8>| lenient_utf8(b),
            ));
        }
        i = i + 1;
    }
    proof {
        assert(v.deep_view().take(i as int) =~= v.deep_view());
    }
    r
}

/// Reads the data fields of a tensor message as elements of the given type.
#[verifier::rlimit(50)]
pub fn decode_tensor_data(elem: ElemType, proto: &TensorProto, name: &str) -> (r: Result<
    TensorData,
    ProtoCodecError,
>)
    ensures
        outcome(r, spec_decode_tensor_data(elem, proto.deep_view(), name@)),
{
    let dims = proto.dims.as_slice();
    if proto.raw_data.len() > 0 {
        if elem == ElemType::String {
            return Err(
                ProtoCodecError::TensorDataMismatch {
                    name: String::from_str(name),
                    detail: String::from_str("STRING tensors must use string_data, not raw_data"),
                },
            );
        }
        let data = match decode_raw_data(elem, proto.raw_data.as_slice(), name) {
            Ok(d) => d,
            Err(e) => {
                return Err(e);
            },
        };
        match check_data_len(dims, &data, name) {
            Err(e) => {
                return Err(e);
            },
            Ok(()) => {},
        }
        return Ok(data);
    }
    if proto.string_data.len() > 0 {
        if elem != ElemType::String {
            let a = concat("string_data present but dtype is ", elem.name());
            let b = concat(a.as_str(), " (");
            let c = concat(b.as_str(), elem.debug_name());
            let detail = concat(c.as_str(), ")");
            return Err(ProtoCodecError::TensorDataMismatch { name: String::from_str(name), detail });
        }
        let strings = lossy_strings(&proto.string_data);
        match check_len(dims, proto.string_data.len(), name) {
            Err(e) => {
                return Err(e);
            },
            Ok(()) => {},
        }
        return Ok(TensorData::String(strings));
    }
    match elem {
        ElemType::Float => {
            match check_len(dims, proto.float_data.len(), name) {
                Err(e) => Err(e),
                Ok(()) => Ok(TensorData::F32(clone_u32s(&proto.float_data))),
            }
        },
        ElemType::Double => {
            match check_len(dims, proto.double_data.len(), name) {
                Err(e) => Err(e),
                Ok(()) => Ok(TensorData::F64(clone_u64s(&proto.double_data))),
            }
        },
        ElemType::Complex64 => {
            match check_complex_len(dims, proto.float_data.len(), name) {
                Err(e) => Err(e),
                Ok(()) => Ok(TensorData::Complex64(clone_u32s(&proto.float_data))),
            }
        },
        ElemType::Complex128 => {
            match check_complex_len(dims, proto.double_data.len(), name) {
                Err(e) => Err(e),
                Ok(()) => Ok(TensorData::Complex128(clone_u64s(&proto.double_data))),
            }
        },
        ElemType::Int64 => {
            match check_len(dims, proto.int64_data.len(), name) {
                Err(e) => Err(e),
                Ok(()) => Ok(TensorData::I64(vstd::slice::slice_to_vec(proto.int64_data.as_slice()))),
            }
        },
        ElemType::Uint32 => {
            match check_len(dims, proto.uint64_data.len(), name) {
                Err(e) => Err(e),
                Ok(()) => Ok(TensorData::U32(narrow_u64(proto.uint64_data.as_slice()))),
            }
        },
        ElemType::Uint64 => {
            match check_len(dims, proto.uint64_data.len(), name) {
                Err(e) => Err(e),
                Ok(()) => Ok(TensorData::U64(clone_u64s(&proto.uint64_data))),
            }
        },
        ElemType::String => Err(
            ProtoCodecError::TensorDataMismatch {
                name: String::from_str(name),
                detail: String::from_str("STRING tensor carries no string_data"),
            },
        ),
        ElemType::Undefined => Err(
            ProtoCodecError::TensorDataMismatch {
                name: String::from_str(name),
                detail: String::from_str("tensor with UNDEFINED data type"),
            },
        ),
        _ => match decode_int32_data(elem, proto.int32_data.as_slice(), name) {
            Err(e) => Err(e),
            Ok(d) => match check_len(dims, proto.int32_data.len(), name) {
                Err(e) => Err(e),
                Ok(()) => Ok(d),
            },
        },
    }
}

pub(crate) fn clone_u32s(v: &Vec<u32>) -> (r: Vec<u32>)
    ensures
        r@ == v@,
{
    vstd::slice::slice_to_vec(v.as_slice())
}

pub(crate) fn clone_u64s(v: &Vec<u64>) -> (r: Vec<u64>)
    ensures
        r@ == v@,
{
    vstd::slice::slice_to_vec(v.as_slice())
}

/// A tensor message that carries only a name, a type, dimensions and
/// documentation.
pub open spec fn blank_tensor_proto(
    dims: Seq<i64>,
    data_type: i32,
    name: Seq<char>,
    doc_string: Seq<char>,
) -> TensorProtoSpec {
    TensorProtoSpec {
        dims,
        data_type,
        float_data: Seq::empty(),
        int32_data: Seq::empty(),
        string_data: Seq::empty(),
        int64_data: Seq::empty(),
        name,
        doc_string,
        raw_data: Seq::empty(),
        external_data: Seq::empty(),
        data_location: 0,
        double_data: Seq::empty(),
        uint64_data: Seq::empty(),
    }
}

/// The message with the data written into the field that carries it.
pub open spec fn spec_encode_data(d: TensorDataSpec, p: TensorProtoSpec) -> TensorProtoSpec {
    match d {
        TensorDataSpec::F32(v) => TensorProtoSpec { float_data: v, ..p },
        TensorDataSpec::F64(v) => TensorProtoSpec { double_data: v, ..p },
        TensorDataSpec::I64(v) => TensorProtoSpec { int64_data: v, ..p },
        TensorDataSpec::U32(v) => TensorProtoSpec {
            uint64_data: v.map_values(|x: u32| x as u64),
            ..p
        },
        TensorDataSpec::U64(v) => TensorProtoSpec { uint64_data: v, ..p },
        TensorDataSpec::Complex64(v) => TensorProtoSpec { float_data: v, ..p },
        TensorDataSpec::Complex128(v) => TensorProtoSpec { double_data: v, ..p },
        TensorDataSpec::String(v) => TensorProtoSpec {
            string_data: v.map_values(|s: Seq<char>| encode_utf8(s)),
            ..p
        },
        TensorDataSpec::Bool(v) => TensorProtoSpec {
            int32_data: v.map_values(|x: bool| if x { 1i32 } else { 0i32 }),
            ..p
        },
        TensorDataSpec::I8(v) => TensorProtoSpec { int32_data: v.map_values(|x: i8| x as i32), ..p },
        TensorDataSpec::I16(v) => TensorProtoSpec {
            int32_data: v.map_values(|x: i16| x as i32),
            ..p
        },
        TensorDataSpec::I32(v) => TensorProtoSpec { int32_data: v, ..p },
        TensorDataSpec::U8(v) => TensorProtoSpec { int32_data: v.map_values(|x: u8| x as i32), ..p },
        TensorDataSpec::U16(v) => TensorProtoSpec {
            int32_data: v.map_values(|x: u16| x as i32),
            ..p
        },
        TensorDataSpec::F16(v) => TensorProtoSpec {
            int32_data: v.map_values(|x: u16| x as i32),
            ..p
        },
        TensorDataSpec::Bf16(v) => TensorProtoSpec {
            int32_data: v.map_values(|x: u16| x as i32),
            ..p
        },
        TensorDataSpec::Float8e4m3fn(v) | TensorDataSpec::Float8e4m3fnuz(v)
        | TensorDataSpec::Float8e5m2(v) | TensorDataSpec::Float8e5m2fnuz(v)
        | TensorDataSpec::Float8e8m0(v) | TensorDataSpec::Uint4(v) | TensorDataSpec::Int4(v)
        | TensorDataSpec::Float4e2m1(v) | TensorDataSpec::Uint2(v) | TensorDataSpec::Int2(v) =>
            TensorProtoSpec { int32_data: v.map_values(|x: u8| x as i32), ..p },
        TensorDataSpec::RawBytes { bytes, .. } => TensorProtoSpec { raw_data: bytes, ..p },
    }
}

/// The UTF-8 bytes of each string.
pub(crate) fn encode_strings(v: &Vec<String>) -> (r: Vec<Vec<u8>>)
    ensures
        r.deep_view() == v.deep_view().map_values(|s: Seq<char>| encode_utf8(s)),
{
    let mut r: Vec<Vec<u8>> = Vec::new();
    let mut i: usize = 0;
    while i < v.len()
        invariant
            0 <= i <= v@.len(),
            r.deep_view() == v.deep_view().take(i as int).map_values(
                |s: Seq<char>| encode_utf8(s),
            ),
        decreases v@.len() - i,
    {
        let ghost before = r.deep_view();
        let b = string_bytes(&v[i]);
        proof {
            assert(b.deep_view() =~= b@);
        }
        r.push(b);
        proof {
            assert(r.deep_view() =~= before.push(encode_utf8(v@[i as int]@)));
            assert(v.deep_view().take(i + 1) =~= v.deep_view().take(i as int).push(v@[i as int]@));
            assert(r.deep_view() =~= v.deep_view().take(i + 1).map_values(
                |s: Seq<char>| encode_utf8(s),
            ));
        }
        i = i + 1;
    }
    proof {
        assert(v.deep_view().take(i as int) =~= v.deep_view());
    }
    r
}

/// Writes tensor data into the field of the message that carries it.
#[verifier::rlimit(50)]
pub fn encode_tensor_data(data: &TensorData, proto: &mut TensorProto)
    ensures
        final(proto).deep_view() == spec_encode_data(data.deep_view(), old(proto).deep_view()),
{
    match data {
        TensorData::F32(v) => {
            proto.float_data = clone_u32s(v);
        },
        TensorData::F64(v) => {
            proto.double_data = clone_u64s(v);
        },
        TensorData::I64(v) => {
            proto.int64_data = vstd::slice::slice_to_vec(v.as_slice());
        },
        TensorData::U32(v) => {
            proto.uint64_data = widen_u32(v.as_slice());
        },
        TensorData::U64(v) => {
            proto.uint64_data = clone_u64s(v);
        },
        TensorData::Complex64(v) => {
            proto.float_data = clone_u32s(v);
        },
        TensorData::Complex128(v) => {
            proto.double_data = clone_u64s(v);
        },
        TensorData::String(v) => {
            proto.string_data = encode_strings(v);
        },
        TensorData::Bool(v) => {
            proto.int32_data = bools_to_i32(v.as_slice());
        },
        TensorData::I8(v) => {
            proto.int32_data = i8s_to_i32(v.as_slice());
        },
        TensorData::I16(v) => {
            proto.int32_data = i16s_to_i32(v.as_slice());
        },
        TensorData::I32(v) => {
            proto.int32_data = vstd::slice::slice_to_vec(v.as_slice());
        },
        TensorData::U8(v) => {
            proto.int32_data = u8s_to_i32(v.as_slice());
        },
        TensorData::U16(v) => {
            proto.int32_data = u16s_to_i32(v.as_slice());
        },
        TensorData::F16(v) => {
            proto.int32_data = u16s_to_i32(v.as_slice());
        },
        TensorData::Bf16(v) => {
            proto.int32_data = u16s_to_i32(v.as_slice());
        },
        TensorData::Float8e4m3fn(v) | TensorData::Float8e4m3fnuz(v) | TensorData::Float8e5m2(v)
        | TensorData::Float8e5m2fnuz(v) | TensorData::Float8e8m0(v) | TensorData::Uint4(v)
        | TensorData::Int4(v) | TensorData::Float4e2m1(v) | TensorData::Uint2(v)
        | TensorData::Int2(v) => {
            proto.int32_data = u8s_to_i32(v.as_slice());
        },
        TensorData::RawBytes { bytes, .. } => {
            proto.raw_data = vstd::slice::slice_to_vec(bytes.as_slice());
        },
    }
}

/// The sizes of the fixed dimensions of a shape, in order.
pub open spec fn fixed_dims(shape: Seq<DimSpec>) -> Seq<i64>
    decreases shape.len(),
{
    if shape.len() == 0 {
        Seq::empty()
    } else {
        fixed_dims(shape.drop_last()) + match shape.last() {
            DimSpec::Fixed(v) => seq![v],
            _ => Seq::empty(),
        }
    }
}

/// The sizes of the fixed dimensions of a shape, in order.
pub fn fixed_dim_sizes(shape: &Vec<crate::ir::Dim>) -> (r: Vec<i64>)
    ensures
        r@ == fixed_dims(shape.deep_view()),
{
    let mut r: Vec<i64> = Vec::new();
    let mut i: usize = 0;
    while i < shape.len()
        invariant
            0 <= i <= shape@.len(),
            r@ == fixed_dims(shape.deep_view().take(i as int)),
        decreases shape@.len() - i,
    {
        proof {
            assert(shape.deep_view().take(i + 1).drop_last() =~= shape.deep_view().take(i as int));
            assert(shape.deep_view().take(i + 1).last() == shape@[i as int].deep_view());
        }
        match &shape[i] {
            crate::ir::Dim::Fixed(v) => {
                r.push(*v);
            },
            _ => {},
        }
        proof {
            assert(r@ =~= fixed_dims(shape.deep_view().take(i + 1)));
        }
        i = i + 1;
    }
    proof {
        assert(shape.deep_view().take(i as int) =~= shape.deep_view());
    }
    r
}

/// The message of a tensor: its fixed dimensions, type, name and
/// documentation, and its data in the field that carries it, or its
/// external data reference.
pub open spec fn spec_encode_tensor(t: crate::ir::TensorSpec) -> TensorProtoSpec {
    let base = blank_tensor_proto(fixed_dims(t.shape), t.elem.code(), t.name, t.doc_string);
    match t.data {
        crate::ir::TensorStorageSpec::Inline(d) => spec_encode_data(d, base),
        crate::ir::TensorStorageSpec::External(e) => TensorProtoSpec {
            data_location: DATA_LOCATION_EXTERNAL,
            external_data: crate::ir::tensor::spec_external_to_entries(e),
            ..base
        },
    }
}

/// The message of a tensor.
pub fn encode_tensor(t: &crate::ir::Tensor) -> (r: TensorProto)
    ensures
        r.deep_view() == spec_encode_tensor(t.deep_view()),
{
    let mut proto = TensorProto {
        dims: fixed_dim_sizes(&t.shape),
        data_type: t.elem.disc(),
        float_data: Vec::new(),
        int32_data: Vec::new(),
        string_data: Vec::new(),
        int64_data: Vec::new(),
        name: t.name.clone(),
        doc_string: t.doc_string.clone(),
        raw_data: Vec::new(),
        external_data: Vec::new(),
        data_location: 0,
        double_data: Vec::new(),
        uint64_data: Vec::new(),
    };
    proof {
        assert(proto.string_data.deep_view() =~= Seq::<Seq<u8>>::empty());
        assert(proto.external_data.deep_view() =~= Seq::<(Seq<char>, Seq<char>)>::empty());
        assert(proto.deep_view() =~= blank_tensor_proto(
            fixed_dims(t.shape.deep_view()),
            t.elem.code(),
            t.name@,
            t.doc_string@,
        ));
    }
    match &t.data {
        crate::ir::TensorStorage::Inline(data) => {
            encode_tensor_data(data, &mut proto);
        },
        crate::ir::TensorStorage::External(external) => {
            proto.data_location = DATA_LOCATION_EXTERNAL;
            let entries = external.to_entries();
            proof {
                assert(entries.deep_view() =~= crate::ir::tensor::entries_view(entries@));
            }
            proto.external_data = entries;
        },
    }
    proof {
        assert(proto.deep_view() =~= spec_encode_tensor(t.deep_view()));
    }
    proto
}

/// Every size as a fixed dimension.
pub open spec fn fixed_shape(dims: Seq<i64>) -> Seq<DimSpec> {
    dims.map_values(|d: i64| DimSpec::Fixed(d))
}

/// The tensor of a message: the element type named by `data_type`, fixed
/// dimensions, and the external data reference when the message has one,
/// else the data that its fields carry.
pub open spec fn spec_decode_tensor(p: TensorProtoSpec) -> Result<
    crate::ir::TensorSpec,
    ProtoCodecErrorSpec,
> {
    match ElemType::spec_from_code(p.data_type) {
        None => Err(
            data_mismatch(
                p.name,
                "unknown element type discriminant "@ + signed_decimal(p.data_type as int),
            ),
        ),
        Some(elem) => if p.external_data.len() > 0 || p.data_location == DATA_LOCATION_EXTERNAL {
            match crate::ir::tensor::spec_external_from_entries(p.external_data) {
                Err(m) => Err(
                    ProtoCodecErrorSpec::InvalidExternalData {
                        name: p.name,
                        detail: "invalid external data: "@ + m,
                    },
                ),
                Ok(e) => Ok(
                    crate::ir::TensorSpec {
                        name: p.name,
                        elem,
                        shape: fixed_shape(p.dims),
                        data: crate::ir::TensorStorageSpec::External(e),
                        doc_string: p.doc_string,
                    },
                ),
            }
        } else {
            match spec_decode_tensor_data(elem, p, p.name) {
                Err(e) => Err(e),
                Ok(d) => Ok(
                    crate::ir::TensorSpec {
                        name: p.name,
                        elem,
                        shape: fixed_shape(p.dims),
                        data: crate::ir::TensorStorageSpec::Inline(d),
                        doc_string: p.doc_string,
                    },
                ),
            }
        },
    }
}

/// Every size as a fixed dimension.
fn fixed_shape_of(dims: &Vec<i64>) -> (r: Vec<crate::ir::Dim>)
    ensures
        r.deep_view() == fixed_shape(dims@),
{
    let mut r: Vec<crate::ir::Dim> = Vec::new();
    let mut i: usize = 0;
    while i < dims.len()
        invariant
            0 <= i <= dims@.len(),
            r.deep_view() == fixed_shape(dims@.take(i as int)),
        decreases dims@.len() - i,
    {
        let ghost before = r.deep_view();
        r.push(crate::ir::Dim::Fixed(dims[i]));
        proof {
            assert(r.deep_view() =~= before.push(DimSpec::Fixed(dims@[i as int])));
            assert(dims@.take(i + 1) =~= dims@.take(i as int).push(dims@[i as int]));
            assert(r.deep_view() =~= fixed_shape(dims@.take(i + 1)));
        }
        i = i + 1;
    }
    proof {
        assert(dims@.take(i as int) =~= dims@);
    }
    r
}

/// The tensor of a message.
pub fn decode_tensor(proto: &TensorProto) -> (r: Result<crate::ir::Tensor, ProtoCodecError>)
    ensures
        outcome(r, spec_decode_tensor(proto.deep_view())),
{
    let name = proto.name.clone();
    let elem = match ElemType::from_disc(proto.data_type) {
        Some(e) => e,
        None => {
            let detail = concat(
                "unknown element type discriminant ",
                i64_to_string(proto.data_type as i64).as_str(),
            );
            return Err(ProtoCodecError::TensorDataMismatch { name, detail });
        },
    };
    let shape = fixed_shape_of(&proto.dims);
    if proto.external_data.len() > 0 || proto.data_location == DATA_LOCATION_EXTERNAL {
        proof {
            assert(proto.external_data.deep_view() =~= crate::ir::tensor::entries_view(
                proto.external_data@,
            ));
        }
        return match ExternalData::from_entries(proto.external_data.as_slice()) {
            Ok(external) => Ok(
                crate::ir::Tensor {
                    name,
                    elem,
                    shape,
                    data: crate::ir::TensorStorage::External(external),
                    doc_string: proto.doc_string.clone(),
                },
            ),
            Err(e) => Err(
                ProtoCodecError::InvalidExternalData {
                    name,
                    detail: tensor_error_message(&e),
                },
            ),
        };
    }
    match decode_tensor_data(elem, proto, proto.name.as_str()) {
        Ok(data) => Ok(
            crate::ir::Tensor {
                name,
                elem,
                shape,
                data: crate::ir::TensorStorage::Inline(data),
                doc_string: proto.doc_string.clone(),
            },
        ),
        Err(e) => Err(e),
    }
}

// ---------------------------------------------------------------------------
// Value types
// ---------------------------------------------------------------------------
/// The dimensions of a shape message.
pub open spec fn spec_encode_shape(shape: Seq<DimSpec>) -> Seq<DimensionSpec> {
    shape.map_values(
        |d: DimSpec|
            match d {
                DimSpec::Fixed(v) => DimensionSpec::Value(v),
                DimSpec::Param(p) => DimensionSpec::Param(p),
                DimSpec::Unknown => DimensionSpec::Unset,
            },
    )
}

/// The shape of a shape message.
pub open spec fn spec_decode_shape(dims: Seq<DimensionSpec>) -> Seq<DimSpec> {
    dims.map_values(
        |d: DimensionSpec|
            match d {
                DimensionSpec::Value(v) => DimSpec::Fixed(v),
                DimensionSpec::Param(p) => DimSpec::Param(p),
                DimensionSpec::Unset => DimSpec::Unknown,
            },
    )
}

/// An optional text, empty when absent.
pub open spec fn text_or_empty(t: Option<Seq<char>>) -> Seq<char> {
    match t {
        Some(x) => x,
        None => Seq::empty(),
    }
}

/// An optional text, absent when empty.
pub open spec fn nonempty_text(t: Seq<char>) -> Option<Seq<char>> {
    if t.len() == 0 {
        None
    } else {
        Some(t)
    }
}

/// The type message of a value type.
pub open spec fn spec_encode_value_type(vt: ValueTypeSpec) -> TypeProtoSpec
    decreases vt,
{
    match vt {
        ValueTypeSpec::Tensor(t) => TypeProtoSpec::Tensor {
            elem_type: t.elem.code(),
            shape: match t.shape {
                Some(s) => Some(spec_encode_shape(s)),
                None => None,
            },
        },
        ValueTypeSpec::SparseTensor(t) => TypeProtoSpec::SparseTensor {
            elem_type: t.elem.code(),
            shape: match t.shape {
                Some(s) => Some(spec_encode_shape(s)),
                None => None,
            },
        },
        ValueTypeSpec::Sequence(inner) => TypeProtoSpec::Sequence(
            Some(Box::new(spec_encode_value_type(*inner))),
        ),
        ValueTypeSpec::MapType { key, value } => TypeProtoSpec::MapType {
            key_type: key.code(),
            value_type: Some(Box::new(spec_encode_value_type(*value))),
        },
        ValueTypeSpec::Optional(inner) => TypeProtoSpec::Optional(
            Some(Box::new(spec_encode_value_type(*inner))),
        ),
        ValueTypeSpec::Opaque { domain, name } => TypeProtoSpec::Opaque {
            domain: text_or_empty(domain),
            name: text_or_empty(name),
        },
    }
}

/// The error text for a number that names no element type.
pub open spec fn unknown_elem_text(v: i32) -> Seq<char> {
    "unknown element type discriminant "@ + signed_decimal(v as int)
}

/// The value type of a type message, or what is wrong with it.
pub open spec fn spec_decode_value_type(p: TypeProtoSpec) -> Result<ValueTypeSpec, Seq<char>>
    decreases p,
{
    match p {
        TypeProtoSpec::Tensor { elem_type, shape } => match ElemType::spec_from_code(elem_type) {
            None => Err(unknown_elem_text(elem_type)),
            Some(elem) => Ok(
                ValueTypeSpec::Tensor(
                    TensorTypeSpec {
                        elem,
                        shape: match shape {
                            Some(s) => Some(spec_decode_shape(s)),
                            None => None,
                        },
                    },
                ),
            ),
        },
        TypeProtoSpec::SparseTensor { elem_type, shape } => match ElemType::spec_from_code(
            elem_type,
        ) {
            None => Err(unknown_elem_text(elem_type)),
            Some(elem) => Ok(
                ValueTypeSpec::SparseTensor(
                    TensorTypeSpec {
                        elem,
                        shape: match shape {
                            Some(s) => Some(spec_decode_shape(s)),
                            None => None,
                        },
                    },
                ),
            ),
        },
        TypeProtoSpec::Sequence(inner) => match inner {
            None => Err("sequence without element type"@),
            Some(b) => match spec_decode_value_type(*b) {
                Err(e) => Err(e),
                Ok(v) => Ok(ValueTypeSpec::Sequence(Box::new(v))),
            },
        },
        TypeProtoSpec::MapType { key_type, value_type } => match ElemType::spec_from_code(
            key_type,
        ) {
            None => Err(unknown_elem_text(key_type)),
            Some(key) => match value_type {
                None => Err("map without value type"@),
                Some(b) => match spec_decode_value_type(*b) {
                    Err(e) => Err(e),
                    Ok(v) => Ok(ValueTypeSpec::MapType { key, value: Box::new(v) }),
                },
            },
        },
        TypeProtoSpec::Optional(inner) => match inner {
            None => Err("optional without element type"@),
            Some(b) => match spec_decode_value_type(*b) {
                Err(e) => Err(e),
                Ok(v) => Ok(ValueTypeSpec::Optional(Box::new(v))),
            },
        },
        TypeProtoSpec::Opaque { domain, name } => Ok(
            ValueTypeSpec::Opaque { domain: nonempty_text(domain), name: nonempty_text(name) },
        ),
        TypeProtoSpec::Unset => Err("type proto without value"@),
    }
}

/// The dimensions of a shape message.
pub fn encode_shape(shape: &Vec<Dim>) -> (r: Vec<Dimension>)
    ensures
        r.deep_view() == spec_encode_shape(shape.deep_view()),
{
    let mut r: Vec<Dimension> = Vec::new();
    let mut i: usize = 0;
    while i < shape.len()
        invariant
            0 <= i <= shape@.len(),
            r.deep_view() == spec_encode_shape(shape.deep_view().take(i as int)),
        decreases shape@.len() - i,
    {
        let ghost before = r.deep_view();
        let d = match &shape[i] {
            Dim::Fixed(v) => Dimension::Value(*v),
            Dim::Param(p) => Dimension::Param(p.clone()),
            Dim::Unknown => Dimension::Unset,
        };
        let ghost dv = d.deep_view();
        r.push(d);
        proof {
            assert(r.deep_view() =~= before.push(dv));
            assert(shape.deep_view().take(i + 1) =~= shape.deep_view().take(i as int).push(
                shape@[i as int].deep_view(),
            ));
            assert(r.deep_view() =~= spec_encode_shape(shape.deep_view().take(i + 1)));
        }
        i = i + 1;
    }
    proof {
        assert(shape.deep_view().take(i as int) =~= shape.deep_view());
    }
    r
}

/// The shape of a shape message.
pub fn decode_shape(dims: &Vec<Dimension>) -> (r: Vec<Dim>)
    ensures
        r.deep_view() == spec_decode_shape(dims.deep_view()),
{
    let mut r: Vec<Dim> = Vec::new();
    let mut i: usize = 0;
    while i < dims.len()
        invariant
            0 <= i <= dims@.len(),
            r.deep_view() == spec_decode_shape(dims.deep_view().take(i as int)),
        decreases dims@.len() - i,
    {
        let ghost before = r.deep_view();
        let d = match &dims[i] {
            Dimension::Value(v) => Dim::Fixed(*v),
            Dimension::Param(p) => Dim::Param(p.clone()),
            Dimension::Unset => Dim::Unknown,
        };
        let ghost dv = d.deep_view();
        r.push(d);
        proof {
            assert(r.deep_view() =~= before.push(dv));
            assert(dims.deep_view().take(i + 1) =~= dims.deep_view().take(i as int).push(
                dims@[i as int].deep_view(),
            ));
            assert(r.deep_view() =~= spec_decode_shape(dims.deep_view().take(i + 1)));
        }
        i = i + 1;
    }
    proof {
        assert(dims.deep_view().take(i as int) =~= dims.deep_view());
    }
    r
}

fn encode_opt_shape(shape: &Option<Vec<Dim>>) -> (r: Option<Vec<Dimension>>)
    ensures
        (match r {
            Some(s) => Some(s.deep_view()),
            None => None::<Seq<DimensionSpec>>,
        }) == (match shape.deep_view() {
            Some(s) => Some(spec_encode_shape(s)),
            None => None,
        }),
{
    match shape {
        Some(s) => Some(encode_shape(s)),
        None => None,
    }
}

fn decode_opt_shape(shape: &Option<Vec<Dimension>>) -> (r: Option<Vec<Dim>>)
    ensures
        r.deep_view() == (match shape {
            Some(s) => Some(spec_decode_shape(s.deep_view())),
            None => None,
        }),
{
    match shape {
        Some(s) => Some(decode_shape(s)),
        None => None,
    }
}

pub(crate) fn opt_text(t: &Option<String>) -> (r: String)
    ensures
        r@ == text_or_empty(t.deep_view()),
{
    match t {
        Some(x) => x.clone(),
        None => String::new(),
    }
}

pub(crate) fn nonempty(t: &String) -> (r: Option<String>)
    ensures
        r.deep_view() == nonempty_text(t@),
{
    if t.as_str().is_empty() {
        None
    } else {
        Some(t.clone())
    }
}

/// The type message of a value type.
pub fn encode_value_type(vt: &ValueType) -> (r: TypeProto)
    ensures
        r.deep_view() == spec_encode_value_type(vt.deep_view()),
    decreases vt,
{
    match vt {
        ValueType::Tensor(t) => TypeProto::Tensor {
            elem_type: t.elem.disc(),
            shape: encode_opt_shape(&t.shape),
        },
        ValueType::SparseTensor(t) => TypeProto::SparseTensor {
            elem_type: t.elem.disc(),
            shape: encode_opt_shape(&t.shape),
        },
        ValueType::Sequence(inner) => TypeProto::Sequence(
            Some(Box::new(encode_value_type(inner))),
        ),
        ValueType::MapType { key, value } => TypeProto::MapType {
            key_type: key.disc(),
            value_type: Some(Box::new(encode_value_type(value))),
        },
        ValueType::Optional(inner) => TypeProto::Optional(
            Some(Box::new(encode_value_type(inner))),
        ),
        ValueType::Opaque { domain, name } => TypeProto::Opaque {
            domain: opt_text(domain),
            name: opt_text(name),
        },
    }
}

fn unknown_elem(v: i32) -> (r: String)
    ensures
        r@ == unknown_elem_text(v),
{
    concat("unknown element type discriminant ", i64_to_string(v as i64).as_str())
}

/// The value type of a type message, or what is wrong with it.
pub fn decode_value_type(p: &TypeProto) -> (r: Result<ValueType, String>)
    ensures
        match (r, spec_decode_value_type(p.deep_view())) {
            (Ok(x), Ok(y)) => x.deep_view() == y,
            (Err(e), Err(f)) => e@ == f,
            _ => false,
        },
    decreases p,
{
    match p {
        TypeProto::Tensor { elem_type, shape } => match ElemType::from_disc(*elem_type) {
            None => Err(unknown_elem(*elem_type)),
            Some(elem) => Ok(ValueType::Tensor(TensorType { elem, shape: decode_opt_shape(shape) })),
        },
        TypeProto::SparseTensor { elem_type, shape } => match ElemType::from_disc(*elem_type) {
            None => Err(unknown_elem(*elem_type)),
            Some(elem) => Ok(
                ValueType::SparseTensor(TensorType { elem, shape: decode_opt_shape(shape) }),
            ),
        },
        TypeProto::Sequence(inner) => match inner {
            None => Err(String::from_str("sequence without element type")),
            Some(b) => match decode_value_type(b) {
                Err(e) => Err(e),
                Ok(v) => Ok(ValueType::Sequence(Box::new(v))),
            },
        },
        TypeProto::MapType { key_type, value_type } => match ElemType::from_disc(*key_type) {
            None => Err(unknown_elem(*key_type)),
            Some(key) => match value_type {
                None => Err(String::from_str("map without value type")),
                Some(b) => match decode_value_type(b) {
                    Err(e) => Err(e),
                    Ok(v) => Ok(ValueType::MapType { key, value: Box::new(v) }),
                },
            },
        },
        TypeProto::Optional(inner) => match inner {
            None => Err(String::from_str("optional without element type")),
            Some(b) => match decode_value_type(b) {
                Err(e) => Err(e),
                Ok(v) => Ok(ValueType::Optional(Box::new(v))),
            },
        },
        TypeProto::Opaque { domain, name } => Ok(
            ValueType::Opaque { domain: nonempty(domain), name: nonempty(name) },
        ),
        TypeProto::Unset => Err(String::from_str("type proto without value")),
    }
}

/// The message of a value info.
pub open spec fn spec_encode_value_info(vi: ValueInfoSpec) -> ValueInfoProtoSpec {
    ValueInfoProtoSpec {
        name: vi.name,
        type_proto: match vi.value_type {
            Some(t) => Some(spec_encode_value_type(t)),
            None => None,
        },
        doc_string: vi.doc_string,
    }
}

/// The value info of a message; a type that cannot be read is an error
/// naming the value.
pub open spec fn spec_decode_value_info(p: ValueInfoProtoSpec) -> Result<
    ValueInfoSpec,
    ProtoCodecErrorSpec,
> {
    match p.type_proto {
        Some(t) => match spec_decode_value_type(t) {
            Err(detail) => Err(ProtoCodecErrorSpec::InvalidTypeProto { name: p.name, detail }),
            Ok(vt) => Ok(ValueInfoSpec { name: p.name, value_type: Some(vt), doc_string: p.doc_string }),
        },
        None => Ok(ValueInfoSpec { name: p.name, value_type: None, doc_string: p.doc_string }),
    }
}

/// The message of a value info.
pub fn encode_value_info(vi: &ValueInfo) -> (r: ValueInfoProto)
    ensures
        r.deep_view() == spec_encode_value_info(vi.deep_view()),
{
    ValueInfoProto {
        name: vi.name.clone(),
        type_proto: match &vi.value_type {
            Some(t) => Some(encode_value_type(t)),
            None => None,
        },
        doc_string: vi.doc_string.clone(),
    }
}

/// The value info of a message.
pub fn decode_value_info(p: &ValueInfoProto) -> (r: Result<ValueInfo, ProtoCodecError>)
    ensures
        outcome(r, spec_decode_value_info(p.deep_view())),
{
    let value_type = match &p.type_proto {
        Some(t) => match decode_value_type(t) {
            Ok(vt) => Some(vt),
            Err(detail) => {
                return Err(ProtoCodecError::InvalidTypeProto { name: p.name.clone(), detail });
            },
        },
        None => None,
    };
    Ok(ValueInfo { name: p.name.clone(), value_type, doc_string: p.doc_string.clone() })
}

/// Whether a value type reads back from its message: no opaque part names
/// an empty domain or an empty name.
pub open spec fn type_roundtrips(vt: ValueTypeSpec) -> bool
    decreases vt,
{
    match vt {
        ValueTypeSpec::Tensor(_) => true,
        ValueTypeSpec::SparseTensor(_) => true,
        ValueTypeSpec::Sequence(inner) => type_roundtrips(*inner),
        ValueTypeSpec::MapType { value, .. } => type_roundtrips(*value),
        ValueTypeSpec::Optional(inner) => type_roundtrips(*inner),
        ValueTypeSpec::Opaque { domain, name } => domain != Some(Seq::<char>::empty()) && name
            != Some(Seq::<char>::empty()),
    }
}

/// Reading a number an element type is written as gives the element type.
pub proof fn lemma_from_code(e: ElemType)
    ensures
        ElemType::spec_from_code(e.code()) == Some(e),
{
}

/// Reading back the shape of a shape message gives the shape.
pub proof fn lemma_shape_roundtrip(s: Seq<DimSpec>)
    ensures
        spec_decode_shape(spec_encode_shape(s)) == s,
{
    assert(spec_decode_shape(spec_encode_shape(s)) =~= s);
}

/// Reading back the type message of a value type gives the value type, when
/// no opaque part of it names an empty domain or name.
pub proof fn lemma_value_type_roundtrip(vt: ValueTypeSpec)
    requires
        type_roundtrips(vt),
    ensures
        spec_decode_value_type(spec_encode_value_type(vt)) == Ok::<ValueTypeSpec, Seq<char>>(vt),
    decreases vt,
{
    match vt {
        ValueTypeSpec::Tensor(t) => {
            lemma_from_code(t.elem);
            match t.shape {
                Some(s) => {
                    lemma_shape_roundtrip(s);
                    assert(spec_decode_value_type(spec_encode_value_type(vt)) == Ok::<
                        ValueTypeSpec,
                        Seq<char>,
                    >(ValueTypeSpec::Tensor(TensorTypeSpec { elem: t.elem, shape: Some(s) })));
                },
                None => {
                    assert(spec_decode_value_type(spec_encode_value_type(vt)) == Ok::<
                        ValueTypeSpec,
                        Seq<char>,
                    >(ValueTypeSpec::Tensor(TensorTypeSpec { elem: t.elem, shape: None })));
                },
            }
        },
        ValueTypeSpec::SparseTensor(t) => {
            lemma_from_code(t.elem);
            match t.shape {
                Some(s) => lemma_shape_roundtrip(s),
                None => {},
            }
        },
        ValueTypeSpec::Sequence(inner) => {
            lemma_value_type_roundtrip(*inner);
        },
        ValueTypeSpec::MapType { key, value } => {
            lemma_from_code(key);
            lemma_value_type_roundtrip(*value);
        },
        ValueTypeSpec::Optional(inner) => {
            lemma_value_type_roundtrip(*inner);
        },
        ValueTypeSpec::Opaque { domain, name } => {
            match domain {
                Some(d) => {
                    if d.len() == 0 {
                        assert(d =~= Seq::<char>::empty());
                    }
                },
                None => {},
            }
            match name {
                Some(n) => {
                    if n.len() == 0 {
                        assert(n =~= Seq::<char>::empty());
                    }
                },
                None => {},
            }
        },
    }
}

/// The results of a conversion applied to each element, or the first error
/// it gives.
pub open spec fn collect_results<A, B>(
    s: Seq<A>,
    f: spec_fn(A) -> Result<B, ProtoCodecErrorSpec>,
) -> Result<Seq<B>, ProtoCodecErrorSpec>
    decreases s.len(),
{
    if s.len() == 0 {
        Ok(Seq::empty())
    } else {
        match collect_results(s.drop_last(), f) {
            Err(e) => Err(e),
            Ok(v) => match f(s.last()) {
                Err(e) => Err(e),
                Ok(x) => Ok(v.push(x)),
            },
        }
    }
}

/// Extending a prefix whose conversions all succeed by one that succeeds.
pub proof fn lemma_collect_step<A, B>(
    s: Seq<A>,
    f: spec_fn(A) -> Result<B, ProtoCodecErrorSpec>,
    i: int,
    done: Seq<B>,
    x: B,
)
    requires
        0 <= i < s.len(),
        collect_results(s.take(i), f) == Ok::<Seq<B>, ProtoCodecErrorSpec>(done),
        f(s[i]) == Ok::<B, ProtoCodecErrorSpec>(x),
    ensures
        collect_results(s.take(i + 1), f) == Ok::<Seq<B>, ProtoCodecErrorSpec>(done.push(x)),
{
    assert(s.take(i + 1).drop_last() =~= s.take(i));
    assert(s.take(i + 1).last() == s[i]);
}

/// The first failing conversion decides the outcome of the whole sequence.
pub proof fn lemma_collect_error<A, B>(
    s: Seq<A>,
    f: spec_fn(A) -> Result<B, ProtoCodecErrorSpec>,
    i: int,
    done: Seq<B>,
    e: ProtoCodecErrorSpec,
)
    requires
        0 <= i < s.len(),
        collect_results(s.take(i), f) == Ok::<Seq<B>, ProtoCodecErrorSpec>(done),
        f(s[i]) == Err::<B, ProtoCodecErrorSpec>(e),
    ensures
        collect_results(s, f) == Err::<Seq<B>, ProtoCodecErrorSpec>(e),
    decreases s.len(),
{
    if s.len() == i + 1 {
        assert(s.drop_last() =~= s.take(i));
    } else {
        assert(s.drop_last().take(i) =~= s.take(i));
        assert(s.drop_last()[i] == s[i]);
        lemma_collect_error(s.drop_last(), f, i, done, e);
    }
}

} // verus!
