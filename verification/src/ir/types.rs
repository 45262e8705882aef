use vstd::prelude::*;

verus! {

/// IR version written into models this library builds.
pub const IR_VERSION: i64 = 10;

/// Default-domain (`ai.onnx`) opset version the typed IR targets.
pub const ONNX_OPSET_VERSION: i64 = 21;

/// `ai.onnx.ml` opset version the typed IR targets.
pub const ML_OPSET_VERSION: i64 = 5;

/// Element type of a tensor, numbered as `TensorProto.DataType`.
#[derive(Debug, Clone, Copy, PartialEq, Eq, Structural, Hash, PartialOrd, Ord)]
pub enum ElemType {
    Undefined,
    Float,
    Uint8,
    Int8,
    Uint16,
    Int16,
    Int32,
    Int64,
    String,
    Bool,
    Float16,
    Double,
    Uint32,
    Uint64,
    Complex64,
    Complex128,
    Bfloat16,
    Float8e4m3fn,
    Float8e4m3fnuz,
    Float8e5m2,
    Float8e5m2fnuz,
    Uint4,
    Int4,
    Float4e2m1,
    Float8e8m0,
    Uint2,
    Int2,
}

impl ElemType {
    /// The `TensorProto.DataType` number of the element type.
    pub open spec fn code(self) -> i32 {
        match self {
            ElemType::Undefined => 0i32,
            ElemType::Float => 1i32,
            ElemType::Uint8 => 2i32,
            ElemType::Int8 => 3i32,
            ElemType::Uint16 => 4i32,
            ElemType::Int16 => 5i32,
            ElemType::Int32 => 6i32,
            ElemType::Int64 => 7i32,
            ElemType::String => 8i32,
            ElemType::Bool => 9i32,
            ElemType::Float16 => 10i32,
            ElemType::Double => 11i32,
            ElemType::Uint32 => 12i32,
            ElemType::Uint64 => 13i32,
            ElemType::Complex64 => 14i32,
            ElemType::Complex128 => 15i32,
            ElemType::Bfloat16 => 16i32,
            ElemType::Float8e4m3fn => 17i32,
            ElemType::Float8e4m3fnuz => 18i32,
            ElemType::Float8e5m2 => 19i32,
            ElemType::Float8e5m2fnuz => 20i32,
            ElemType::Uint4 => 21i32,
            ElemType::Int4 => 22i32,
            ElemType::Float4e2m1 => 23i32,
            ElemType::Float8e8m0 => 24i32,
            ElemType::Uint2 => 25i32,
            ElemType::Int2 => 26i32,
        }
    }

    /// The `TensorProto.DataType` number of the element type.
    #[verifier::allow_in_spec]
    pub fn disc(self) -> i32
        returns
            self.code(),
    {
        match self {
            ElemType::Undefined => 0,
            ElemType::Float => 1,
            ElemType::Uint8 => 2,
            ElemType::Int8 => 3,
            ElemType::Uint16 => 4,
            ElemType::Int16 => 5,
            ElemType::Int32 => 6,
            ElemType::Int64 => 7,
            ElemType::String => 8,
            ElemType::Bool => 9,
            ElemType::Float16 => 10,
            ElemType::Double => 11,
            ElemType::Uint32 => 12,
            ElemType::Uint64 => 13,
            ElemType::Complex64 => 14,
            ElemType::Complex128 => 15,
            ElemType::Bfloat16 => 16,
            ElemType::Float8e4m3fn => 17,
            ElemType::Float8e4m3fnuz => 18,
            ElemType::Float8e5m2 => 19,
            ElemType::Float8e5m2fnuz => 20,
            ElemType::Uint4 => 21,
            ElemType::Int4 => 22,
            ElemType::Float4e2m1 => 23,
            ElemType::Float8e8m0 => 24,
            ElemType::Uint2 => 25,
            ElemType::Int2 => 26,
        }
    }

    /// The element type numbered `v`, if any.
    pub open spec fn spec_from_code(v: i32) -> Option<ElemType> {
        match v {
            0i32 => Some(ElemType::Undefined),
            1i32 => Some(ElemType::Float),
            2i32 => Some(ElemType::Uint8),
            3i32 => Some(ElemType::Int8),
            4i32 => Some(ElemType::Uint16),
            5i32 => Some(ElemType::Int16),
            6i32 => Some(ElemType::Int32),
            7i32 => Some(ElemType::Int64),
            8i32 => Some(ElemType::String),
            9i32 => Some(ElemType::Bool),
            10i32 => Some(ElemType::Float16),
            11i32 => Some(ElemType::Double),
            12i32 => Some(ElemType::Uint32),
            13i32 => Some(ElemType::Uint64),
            14i32 => Some(ElemType::Complex64),
            15i32 => Some(ElemType::Complex128),
            16i32 => Some(ElemType::Bfloat16),
            17i32 => Some(ElemType::Float8e4m3fn),
            18i32 => Some(ElemType::Float8e4m3fnuz),
            19i32 => Some(ElemType::Float8e5m2),
            20i32 => Some(ElemType::Float8e5m2fnuz),
            21i32 => Some(ElemType::Uint4),
            22i32 => Some(ElemType::Int4),
            23i32 => Some(ElemType::Float4e2m1),
            24i32 => Some(ElemType::Float8e8m0),
            25i32 => Some(ElemType::Uint2),
            26i32 => Some(ElemType::Int2),
            _ => None,
        }
    }

    /// The name of the variant, as `Debug` writes it.
    pub open spec fn spec_debug_name(self) -> Seq<char> {
        match self {
            ElemType::Undefined => "Undefined"@,
            ElemType::Float => "Float"@,
            ElemType::Uint8 => "Uint8"@,
            ElemType::Int8 => "Int8"@,
            ElemType::Uint16 => "Uint16"@,
            ElemType::Int16 => "Int16"@,
            ElemType::Int32 => "Int32"@,
            ElemType::Int64 => "Int64"@,
            ElemType::String => "String"@,
            ElemType::Bool => "Bool"@,
            ElemType::Float16 => "Float16"@,
            ElemType::Double => "Double"@,
            ElemType::Uint32 => "Uint32"@,
            ElemType::Uint64 => "Uint64"@,
            ElemType::Complex64 => "Complex64"@,
            ElemType::Complex128 => "Complex128"@,
            ElemType::Bfloat16 => "Bfloat16"@,
            ElemType::Float8e4m3fn => "Float8e4m3fn"@,
            ElemType::Float8e4m3fnuz => "Float8e4m3fnuz"@,
            ElemType::Float8e5m2 => "Float8e5m2"@,
            ElemType::Float8e5m2fnuz => "Float8e5m2fnuz"@,
            ElemType::Uint4 => "Uint4"@,
            ElemType::Int4 => "Int4"@,
            ElemType::Float4e2m1 => "Float4e2m1"@,
            ElemType::Float8e8m0 => "Float8e8m0"@,
            ElemType::Uint2 => "Uint2"@,
            ElemType::Int2 => "Int2"@,
        }
    }

    /// The name of the variant, as `Debug` writes it.
    pub fn debug_name(self) -> (r: &'static str)
        ensures
            r@ == self.spec_debug_name(),
    {
        proof {
            reveal_strlit("Undefined");
            reveal_strlit("Float");
            reveal_strlit("Uint8");
            reveal_strlit("Int8");
            reveal_strlit("Uint16");
            reveal_strlit("Int16");
            reveal_strlit("Int32");
            reveal_strlit("Int64");
            reveal_strlit("String");
            reveal_strlit("Bool");
            reveal_strlit("Float16");
            reveal_strlit("Double");
            reveal_strlit("Uint32");
            reveal_strlit("Uint64");
            reveal_strlit("Complex64");
            reveal_strlit("Complex128");
            reveal_strlit("Bfloat16");
            reveal_strlit("Float8e4m3fn");
            reveal_strlit("Float8e4m3fnuz");
            reveal_strlit("Float8e5m2");
            reveal_strlit("Float8e5m2fnuz");
            reveal_strlit("Uint4");
            reveal_strlit("Int4");
            reveal_strlit("Float4e2m1");
            reveal_strlit("Float8e8m0");
            reveal_strlit("Uint2");
            reveal_strlit("Int2");
        }
        match self {
            ElemType::Undefined => "Undefined",
            ElemType::Float => "Float",
            ElemType::Uint8 => "Uint8",
            ElemType::Int8 => "Int8",
            ElemType::Uint16 => "Uint16",
            ElemType::Int16 => "Int16",
            ElemType::Int32 => "Int32",
            ElemType::Int64 => "Int64",
            ElemType::String => "String",
            ElemType::Bool => "Bool",
            ElemType::Float16 => "Float16",
            ElemType::Double => "Double",
            ElemType::Uint32 => "Uint32",
            ElemType::Uint64 => "Uint64",
            ElemType::Complex64 => "Complex64",
            ElemType::Complex128 => "Complex128",
            ElemType::Bfloat16 => "Bfloat16",
            ElemType::Float8e4m3fn => "Float8e4m3fn",
            ElemType::Float8e4m3fnuz => "Float8e4m3fnuz",
            ElemType::Float8e5m2 => "Float8e5m2",
            ElemType::Float8e5m2fnuz => "Float8e5m2fnuz",
            ElemType::Uint4 => "Uint4",
            ElemType::Int4 => "Int4",
            ElemType::Float4e2m1 => "Float4e2m1",
            ElemType::Float8e8m0 => "Float8e8m0",
            ElemType::Uint2 => "Uint2",
            ElemType::Int2 => "Int2",
        }
    }

    /// The element type numbered `v`, or `None` where `v` names no data type.
    pub fn from_disc(v: i32) -> (r: Option<Self>)
        ensures
            r == Self::spec_from_code(v),
            r is Some <==> 0 <= v <= 26,
            r matches Some(e) ==> e.code() == v,
    {
        match v {
            0 => Some(ElemType::Undefined),
            1 => Some(ElemType::Float),
            2 => Some(ElemType::Uint8),
            3 => Some(ElemType::Int8),
            4 => Some(ElemType::Uint16),
            5 => Some(ElemType::Int16),
            6 => Some(ElemType::Int32),
            7 => Some(ElemType::Int64),
            8 => Some(ElemType::String),
            9 => Some(ElemType::Bool),
            10 => Some(ElemType::Float16),
            11 => Some(ElemType::Double),
            12 => Some(ElemType::Uint32),
            13 => Some(ElemType::Uint64),
            14 => Some(ElemType::Complex64),
            15 => Some(ElemType::Complex128),
            16 => Some(ElemType::Bfloat16),
            17 => Some(ElemType::Float8e4m3fn),
            18 => Some(ElemType::Float8e4m3fnuz),
            19 => Some(ElemType::Float8e5m2),
            20 => Some(ElemType::Float8e5m2fnuz),
            21 => Some(ElemType::Uint4),
            22 => Some(ElemType::Int4),
            23 => Some(ElemType::Float4e2m1),
            24 => Some(ElemType::Float8e8m0),
            25 => Some(ElemType::Uint2),
            26 => Some(ElemType::Int2),
            _ => None,
        }
    }

    /// Whether the element type occupies a whole number of bytes per element.
    pub open spec fn spec_is_fixed_width(self) -> bool {
        !(self is Undefined || self is Uint4 || self is Int4 || self is Float4e2m1
            || self is Uint2 || self is Int2)
    }

    /// Whether every element occupies a whole number of bytes.
    #[verifier::when_used_as_spec(spec_is_fixed_width)]
    pub fn is_fixed_width(self) -> (r: bool)
        ensures
            r == self.spec_is_fixed_width(),
    {
        match self {
            ElemType::Undefined | ElemType::Uint4 | ElemType::Int4 | ElemType::Float4e2m1
            | ElemType::Uint2 | ElemType::Int2 => false,
            _ => true,
        }
    }

    /// Whether the element type is neither `UNDEFINED` nor `STRING`.
    pub fn is_numeric(self) -> (r: bool)
        ensures
            r == !(self is Undefined || self is String),
    {
        match self {
            ElemType::Undefined | ElemType::String => false,
            _ => true,
        }
    }

    /// Whether the element type is an integer type usable for quantization.
    pub fn is_quantized_integer(self) -> (r: bool)
        ensures
            r == (self is Uint2 || self is Int2 || self is Uint4 || self is Int4 || self is Uint8
                || self is Int8 || self is Uint16 || self is Int16 || self is Int32
                || self is Int64),
    {
        match self {
            ElemType::Uint2 | ElemType::Int2 | ElemType::Uint4 | ElemType::Int4
            | ElemType::Uint8 | ElemType::Int8 | ElemType::Uint16 | ElemType::Int16
            | ElemType::Int32 | ElemType::Int64 => true,
            _ => false,
        }
    }

    /// The upper-case `TensorProto.DataType` name of the element type.
    pub open spec fn spec_name(self) -> Seq<char> {
        match self {
            ElemType::Undefined => "UNDEFINED"@,
            ElemType::Float => "FLOAT"@,
            ElemType::Uint8 => "UINT8"@,
            ElemType::Int8 => "INT8"@,
            ElemType::Uint16 => "UINT16"@,
            ElemType::Int16 => "INT16"@,
            ElemType::Int32 => "INT32"@,
            ElemType::Int64 => "INT64"@,
            ElemType::String => "STRING"@,
            ElemType::Bool => "BOOL"@,
            ElemType::Float16 => "FLOAT16"@,
            ElemType::Double => "DOUBLE"@,
            ElemType::Uint32 => "UINT32"@,
            ElemType::Uint64 => "UINT64"@,
            ElemType::Complex64 => "COMPLEX64"@,
            ElemType::Complex128 => "COMPLEX128"@,
            ElemType::Bfloat16 => "BFLOAT16"@,
            ElemType::Float8e4m3fn => "FLOAT8E4M3FN"@,
            ElemType::Float8e4m3fnuz => "FLOAT8E4M3FNUZ"@,
            ElemType::Float8e5m2 => "FLOAT8E5M2"@,
            ElemType::Float8e5m2fnuz => "FLOAT8E5M2FNUZ"@,
            ElemType::Uint4 => "UINT4"@,
            ElemType::Int4 => "INT4"@,
            ElemType::Float4e2m1 => "FLOAT4E2M1"@,
            ElemType::Float8e8m0 => "FLOAT8E8M0"@,
            ElemType::Uint2 => "UINT2"@,
            ElemType::Int2 => "INT2"@,
        }
    }

    /// The upper-case `TensorProto.DataType` name of the element type.
    pub fn name(self) -> (r: &'static str)
        ensures
            r@ == self.spec_name(),
    {
        match self {
            ElemType::Undefined => "UNDEFINED",
            ElemType::Float => "FLOAT",
            ElemType::Uint8 => "UINT8",
            ElemType::Int8 => "INT8",
            ElemType::Uint16 => "UINT16",
            ElemType::Int16 => "INT16",
            ElemType::Int32 => "INT32",
            ElemType::Int64 => "INT64",
            ElemType::String => "STRING",
            ElemType::Bool => "BOOL",
            ElemType::Float16 => "FLOAT16",
            ElemType::Double => "DOUBLE",
            ElemType::Uint32 => "UINT32",
            ElemType::Uint64 => "UINT64",
            ElemType::Complex64 => "COMPLEX64",
            ElemType::Complex128 => "COMPLEX128",
            ElemType::Bfloat16 => "BFLOAT16",
            ElemType::Float8e4m3fn => "FLOAT8E4M3FN",
            ElemType::Float8e4m3fnuz => "FLOAT8E4M3FNUZ",
            ElemType::Float8e5m2 => "FLOAT8E5M2",
            ElemType::Float8e5m2fnuz => "FLOAT8E5M2FNUZ",
            ElemType::Uint4 => "UINT4",
            ElemType::Int4 => "INT4",
            ElemType::Float4e2m1 => "FLOAT4E2M1",
            ElemType::Float8e8m0 => "FLOAT8E8M0",
            ElemType::Uint2 => "UINT2",
            ElemType::Int2 => "INT2",
        }
    }
}

/// Each element type has its `TensorProto.DataType` number of the ONNX
/// standard (`FLOAT` 1, `FLOAT16` 10, `BFLOAT16` 16, ...), and each of
/// those numbers names that element type.
pub proof fn lemma_elem_type_onnx_codes()
    ensures
        ElemType::Undefined.code() == 0,
        ElemType::spec_from_code(0) == Some(ElemType::Undefined),
        ElemType::Float.code() == 1,
        ElemType::spec_from_code(1) == Some(ElemType::Float),
        ElemType::Uint8.code() == 2,
        ElemType::spec_from_code(2) == Some(ElemType::Uint8),
        ElemType::Int8.code() == 3,
        ElemType::spec_from_code(3) == Some(ElemType::Int8),
        ElemType::Uint16.code() == 4,
        ElemType::spec_from_code(4) == Some(ElemType::Uint16),
        ElemType::Int16.code() == 5,
        ElemType::spec_from_code(5) == Some(ElemType::Int16),
        ElemType::Int32.code() == 6,
        ElemType::spec_from_code(6) == Some(ElemType::Int32),
        ElemType::Int64.code() == 7,
        ElemType::spec_from_code(7) == Some(ElemType::Int64),
        ElemType::String.code() == 8,
        ElemType::spec_from_code(8) == Some(ElemType::String),
        ElemType::Bool.code() == 9,
        ElemType::spec_from_code(9) == Some(ElemType::Bool),
        ElemType::Float16.code() == 10,
        ElemType::spec_from_code(10) == Some(ElemType::Float16),
        ElemType::Double.code() == 11,
        ElemType::spec_from_code(11) == Some(ElemType::Double),
        ElemType::Uint32.code() == 12,
        ElemType::spec_from_code(12) == Some(ElemType::Uint32),
        ElemType::Uint64.code() == 13,
        ElemType::spec_from_code(13) == Some(ElemType::Uint64),
        ElemType::Complex64.code() == 14,
        ElemType::spec_from_code(14) == Some(ElemType::Complex64),
        ElemType::Complex128.code() == 15,
        ElemType::spec_from_code(15) == Some(ElemType::Complex128),
        ElemType::Bfloat16.code() == 16,
        ElemType::spec_from_code(16) == Some(ElemType::Bfloat16),
        ElemType::Float8e4m3fn.code() == 17,
        ElemType::spec_from_code(17) == Some(ElemType::Float8e4m3fn),
        ElemType::Float8e4m3fnuz.code() == 18,
        ElemType::spec_from_code(18) == Some(ElemType::Float8e4m3fnuz),
        ElemType::Float8e5m2.code() == 19,
        ElemType::spec_from_code(19) == Some(ElemType::Float8e5m2),
        ElemType::Float8e5m2fnuz.code() == 20,
        ElemType::spec_from_code(20) == Some(ElemType::Float8e5m2fnuz),
        ElemType::Uint4.code() == 21,
        ElemType::spec_from_code(21) == Some(ElemType::Uint4),
        ElemType::Int4.code() == 22,
        ElemType::spec_from_code(22) == Some(ElemType::Int4),
        ElemType::Float4e2m1.code() == 23,
        ElemType::spec_from_code(23) == Some(ElemType::Float4e2m1),
        ElemType::Float8e8m0.code() == 24,
        ElemType::spec_from_code(24) == Some(ElemType::Float8e8m0),
        ElemType::Uint2.code() == 25,
        ElemType::spec_from_code(25) == Some(ElemType::Uint2),
        ElemType::Int2.code() == 26,
        ElemType::spec_from_code(26) == Some(ElemType::Int2),
        ElemType::spec_from_code(27) is None,
        ElemType::spec_from_code(-1i32) is None,
{
}

/// Decoding the number of an element type gives the element type back.
pub proof fn lemma_elem_type_code_roundtrip(e: ElemType)
    ensures
        0 <= e.code() <= 26,
        forall|f: ElemType| f.code() == e.code() ==> f == e,
{
}

/// The length, first, last and eighth characters of a text: enough to tell
/// the element type names apart.
pub open spec fn name_key(s: Seq<char>) -> (nat, char, char, char) {
    (s.len(), s[0], s[s.len() - 1], if s.len() > 7 {
        s[7]
    } else {
        ' '
    })
}

/// Different element types have different names.
#[verifier::rlimit(100)]
pub proof fn lemma_name_injective(a: ElemType, b: ElemType)
    ensures
        a.spec_name() == b.spec_name() ==> a == b,
{
        reveal_strlit("UNDEFINED");
        reveal_strlit("FLOAT");
        reveal_strlit("UINT8");
        reveal_strlit("INT8");
        reveal_strlit("UINT16");
        reveal_strlit("INT16");
        reveal_strlit("INT32");
        reveal_strlit("INT64");
        reveal_strlit("STRING");
        reveal_strlit("BOOL");
        reveal_strlit("FLOAT16");
        reveal_strlit("DOUBLE");
        reveal_strlit("UINT32");
        reveal_strlit("UINT64");
        reveal_strlit("COMPLEX64");
        reveal_strlit("COMPLEX128");
        reveal_strlit("BFLOAT16");
        reveal_strlit("FLOAT8E4M3FN");
        reveal_strlit("FLOAT8E4M3FNUZ");
        reveal_strlit("FLOAT8E5M2");
        reveal_strlit("FLOAT8E5M2FNUZ");
        reveal_strlit("UINT4");
        reveal_strlit("INT4");
        reveal_strlit("FLOAT4E2M1");
        reveal_strlit("FLOAT8E8M0");
        reveal_strlit("UINT2");
        reveal_strlit("INT2");
    if a.spec_name() == b.spec_name() {
        assert(name_key(a.spec_name()) == name_key(b.spec_name()));
    }
}

/// Mathematical model of a [`Dim`].
pub enum DimSpec {
    Fixed(i64),
    Param(Seq<char>),
    Unknown,
}

/// One dimension of a tensor shape.
#[derive(Debug, PartialEq)]
pub enum Dim {
    /// A dimension of known size.
    Fixed(i64),
    /// A symbolic dimension.
    Param(String),
    /// A dimension about which nothing is known.
    Unknown,
}

impl DeepView for Dim {
    type V = DimSpec;

    open spec fn deep_view(&self) -> DimSpec {
        match self {
            Dim::Fixed(v) => DimSpec::Fixed(*v),
            Dim::Param(p) => DimSpec::Param(p@),
            Dim::Unknown => DimSpec::Unknown,
        }
    }
}

impl Clone for Dim {
    fn clone(&self) -> (r: Self)
        ensures
            r.deep_view() == self.deep_view(),
    {
        match self {
            Dim::Fixed(v) => Dim::Fixed(*v),
            Dim::Param(p) => Dim::Param(p.clone()),
            Dim::Unknown => Dim::Unknown,
        }
    }
}

impl Dim {
    /// Whether the dimension has a known size.
    pub fn is_fixed(&self) -> (r: bool)
        ensures
            r == (self is Fixed),
    {
        match self {
            Dim::Fixed(_) => true,
            _ => false,
        }
    }

    /// The size of the dimension, where it is known.
    pub fn fixed_value(&self) -> (r: Option<i64>)
        ensures
            r == (match self {
                Dim::Fixed(v) => Some(*v),
                _ => None::<i64>,
            }),
    {
        match self {
            Dim::Fixed(v) => Some(*v),
            _ => None,
        }
    }
}

/// A tensor shape.
pub type Shape = Vec<Dim>;

/// A shape, or `None` for a tensor of unknown rank.
pub type MaybeRanked = Option<Shape>;

/// Mathematical model of a [`TensorType`].
pub struct TensorTypeSpec {
    pub elem: ElemType,
    pub shape: Option<Seq<DimSpec>>,
}

/// Element type and (possibly unknown) shape of a tensor value.
#[derive(Debug, PartialEq)]
pub struct TensorType {
    pub elem: ElemType,
    pub shape: MaybeRanked,
}

impl DeepView for TensorType {
    type V = TensorTypeSpec;

    open spec fn deep_view(&self) -> TensorTypeSpec {
        TensorTypeSpec { elem: self.elem, shape: self.shape.deep_view() }
    }
}

impl Clone for TensorType {
    fn clone(&self) -> (r: Self)
        ensures
            r.deep_view() == self.deep_view(),
    {
        let shape = match &self.shape {
            Some(s) => {
                let c = s.clone();
                proof {
                    assert(c.deep_view() =~= s.deep_view());
                }
                Some(c)
            },
            None => None,
        };
        TensorType { elem: self.elem, shape }
    }
}

impl TensorType {
    /// A rank-0 tensor type.
    pub fn scalar(elem: ElemType) -> (r: Self)
        ensures
            r.elem == elem,
            r.shape.deep_view() == Some(Seq::<DimSpec>::empty()),
    {
        let r = TensorType { elem, shape: Some(Vec::new()) };
        proof {
            assert(r.shape.deep_view()->0 =~= Seq::<DimSpec>::empty());
        }
        r
    }

    /// A tensor type of unknown rank.
    pub fn unranked(elem: ElemType) -> (r: Self)
        ensures
            r.elem == elem,
            r.shape is None,
    {
        TensorType { elem, shape: None }
    }

    /// A tensor type with the given dimensions.
    pub fn shaped(elem: ElemType, dims: Vec<Dim>) -> (r: Self)
        ensures
            r.elem == elem,
            r.shape.deep_view() == Some(dims.deep_view()),
    {
        TensorType { elem, shape: Some(dims) }
    }

    /// Whether the shape is known and has no dimension.
    pub fn is_scalar(&self) -> (r: bool)
        ensures
            r == (match self.shape {
                Some(s) => s@.len() == 0,
                None => false,
            }),
    {
        match &self.shape {
            Some(s) => s.len() == 0,
            None => false,
        }
    }

    /// The number of dimensions, where the shape is known.
    pub fn rank(&self) -> (r: Option<usize>)
        ensures
            r == (match self.shape {
                Some(s) => Some(s@.len() as usize),
                None => None::<usize>,
            }),
    {
        match &self.shape {
            Some(s) => Some(s.len()),
            None => None,
        }
    }
}

/// Mathematical model of a [`ValueType`].
pub enum ValueTypeSpec {
    Tensor(TensorTypeSpec),
    SparseTensor(TensorTypeSpec),
    Sequence(Box<ValueTypeSpec>),
    MapType { key: ElemType, value: Box<ValueTypeSpec> },
    Optional(Box<ValueTypeSpec>),
    Opaque { domain: Option<Seq<char>>, name: Option<Seq<char>> },
}

/// The type of a value flowing through a graph.
#[derive(Debug, PartialEq)]
pub enum ValueType {
    Tensor(TensorType),
    SparseTensor(TensorType),
    Sequence(Box<ValueType>),
    MapType { key: ElemType, value: Box<ValueType> },
    Optional(Box<ValueType>),
    Opaque { domain: Option<String>, name: Option<String> },
}

impl DeepView for ValueType {
    type V = ValueTypeSpec;

    open spec fn deep_view(&self) -> ValueTypeSpec
        decreases self,
    {
        match self {
            ValueType::Tensor(t) => ValueTypeSpec::Tensor(t.deep_view()),
            ValueType::SparseTensor(t) => ValueTypeSpec::SparseTensor(t.deep_view()),
            ValueType::Sequence(inner) => ValueTypeSpec::Sequence(
                Box::new((**inner).deep_view()),
            ),
            ValueType::MapType { key, value } => ValueTypeSpec::MapType {
                key: *key,
                value: Box::new((**value).deep_view()),
            },
            ValueType::Optional(inner) => ValueTypeSpec::Optional(
                Box::new((**inner).deep_view()),
            ),
            ValueType::Opaque { domain, name } => ValueTypeSpec::Opaque {
                domain: domain.deep_view(),
                name: name.deep_view(),
            },
        }
    }
}

impl Clone for ValueType {
    fn clone(&self) -> (r: Self)
        ensures
            r.deep_view() == self.deep_view(),
        decreases self,
    {
        match self {
            ValueType::Tensor(t) => ValueType::Tensor(t.clone()),
            ValueType::SparseTensor(t) => ValueType::SparseTensor(t.clone()),
            ValueType::Sequence(inner) => ValueType::Sequence(Box::new((**inner).clone())),
            ValueType::MapType { key, value } => ValueType::MapType {
                key: *key,
                value: Box::new((**value).clone()),
            },
            ValueType::Optional(inner) => ValueType::Optional(Box::new((**inner).clone())),
            ValueType::Opaque { domain, name } => ValueType::Opaque {
                domain: domain.clone(),
                name: name.clone(),
            },
        }
    }
}

impl ValueType {
    /// A dense tensor value type.
    pub fn tensor(elem: ElemType, shape: MaybeRanked) -> (r: Self)
        ensures
            r.deep_view() == ValueTypeSpec::Tensor(
                TensorTypeSpec { elem, shape: shape.deep_view() },
            ),
    {
        ValueType::Tensor(TensorType { elem, shape })
    }

    /// A sequence of values of type `inner`.
    pub fn sequence(inner: ValueType) -> (r: Self)
        ensures
            r.deep_view() == ValueTypeSpec::Sequence(Box::new(inner.deep_view())),
    {
        ValueType::Sequence(Box::new(inner))
    }

    /// An optional value of type `inner`.
    pub fn optional(inner: ValueType) -> (r: Self)
        ensures
            r.deep_view() == ValueTypeSpec::Optional(Box::new(inner.deep_view())),
    {
        ValueType::Optional(Box::new(inner))
    }
}

} // verus!
