//! Element types whose values the library holds as they are, and typed
//! access to tensor data.
use super::tensor::{Tensor, TensorData, TensorDataSpec, TensorError, TensorErrorSpec, TensorSpec, TensorStorageSpec};
use super::types::ElemType;
use vstd::prelude::*;

verus! {

/// Marks the types that may be [`Scalar`]s: no type outside the library
/// becomes one.
pub trait Sealed {}

impl Sealed for i8 {}

impl Sealed for i16 {}

impl Sealed for i32 {}

impl Sealed for i64 {}

impl Sealed for u8 {}

impl Sealed for u16 {}

impl Sealed for u32 {}

impl Sealed for u64 {}

impl Sealed for bool {}

/// An element type of tensor data that the library holds as values of a
/// Rust type: the integers and `bool`. Floating-point data is held as bit
/// patterns and has no such type.
pub trait Scalar: Sized + Sealed {
    /// The element type of data of this type.
    spec fn elem() -> ElemType;

    /// The element type of data of this type.
    fn elem_type() -> (r: ElemType)
        ensures
            r == Self::elem(),
    ;

    /// The values that data holds, when it holds values of this type.
    spec fn values_of(data: TensorDataSpec) -> Option<Seq<Self>>;

    /// The values that data holds, when it holds values of this type.
    fn slice_of(data: &TensorData) -> (r: Option<&[Self]>)
        ensures
            match Self::values_of(data.deep_view()) {
                Some(v) => r matches Some(x) && x@ == v,
                None => r is None,
            },
    ;

    /// Data holding the given values.
    spec fn data_of(values: Seq<Self>) -> TensorDataSpec;

    /// Data holding the given values.
    fn into_data(values: Vec<Self>) -> (r: TensorData)
        ensures
            r.deep_view() == Self::data_of(values@),
            r.deep_view().elem() == Self::elem(),
            Self::values_of(r.deep_view()) == Some(values@),
    ;

    /// The number of bytes of a value in little-endian form.
    spec fn width() -> nat;

    /// The number of bytes of a value in little-endian form.
    fn size() -> (r: usize)
        ensures
            r == Self::width(),
    ;

    /// The little-endian bytes of a value.
    spec fn le_bytes(self) -> Seq<u8>;

    /// The value that little-endian bytes encode, when they encode one.
    spec fn from_le(bytes: Seq<u8>) -> Option<Self>;

    /// The little-endian bytes of a value.
    fn to_le_bytes(self) -> (r: Vec<u8>)
        ensures
            r@ == self.le_bytes(),
    ;

    /// The value that little-endian bytes encode, when they encode one.
    fn from_le_bytes(bytes: &[u8]) -> (r: Option<Self>)
        ensures
            r == Self::from_le(bytes@),
    ;

    /// A value's little-endian bytes are a value's width, and read back as
    /// the value.
    proof fn lemma_le_roundtrip(x: Self)
        ensures
            x.le_bytes().len() == Self::width(),
            Self::from_le(x.le_bytes()) == Some(x),
    ;

    /// Data holds values of this type exactly when it is not raw bytes and
    /// carries this type's element type, and then it is the data of those
    /// values.
    proof fn lemma_values_of(d: TensorDataSpec)
        ensures
            Self::values_of(d) is Some <==> (d.elem() == Self::elem() && !(d is RawBytes)),
            Self::values_of(d) matches Some(v) ==> Self::data_of(v) == d,
    ;
}

impl Scalar for i8 {
    open spec fn elem() -> ElemType {
        ElemType::Int8
    }

    fn elem_type() -> (r: ElemType) {
        ElemType::Int8
    }

    open spec fn values_of(data: TensorDataSpec) -> Option<Seq<i8>> {
        match data {
            TensorDataSpec::I8(x) => Some(x),
            _ => None,
        }
    }

    fn slice_of(data: &TensorData) -> (r: Option<&[i8]>) {
        match data {
            TensorData::I8(x) => Some(x.as_slice()),
            _ => None,
        }
    }

    open spec fn data_of(values: Seq<i8>) -> TensorDataSpec {
        TensorDataSpec::I8(values)
    }

    fn into_data(values: Vec<i8>) -> (r: TensorData) {
        let r = TensorData::I8(values);
        proof {
            assert(r.deep_view() =~= TensorDataSpec::I8(values@));
        }
        r
    }

    open spec fn width() -> nat {
        1
    }

    fn size() -> (r: usize) {
        1
    }

    open spec fn le_bytes(self) -> Seq<u8> {
        seq![self as u8]
    }

    open spec fn from_le(bytes: Seq<u8>) -> Option<i8> {
        if bytes.len() == 1 {
            Some(bytes[0] as i8)
        } else {
            None
        }
    }

    fn to_le_bytes(self) -> (r: Vec<u8>) {
        let mut r = Vec::new();
        r.push(self as u8);
        proof {
            assert(r@ =~= seq![self as u8]);
        }
        r
    }

    fn from_le_bytes(bytes: &[u8]) -> (r: Option<i8>) {
        if bytes.len() == 1 {
            Some(bytes[0] as i8)
        } else {
            None
        }
    }

    proof fn lemma_le_roundtrip(x: i8) {
        assert((x as u8) as i8 == x) by (bit_vector);
    }

    proof fn lemma_values_of(d: TensorDataSpec) {
    }
}

impl Scalar for i16 {
    open spec fn elem() -> ElemType {
        ElemType::Int16
    }

    fn elem_type() -> (r: ElemType) {
        ElemType::Int16
    }

    open spec fn values_of(data: TensorDataSpec) -> Option<Seq<i16>> {
        match data {
            TensorDataSpec::I16(x) => Some(x),
            _ => None,
        }
    }

    fn slice_of(data: &TensorData) -> (r: Option<&[i16]>) {
        match data {
            TensorData::I16(x) => Some(x.as_slice()),
            _ => None,
        }
    }

    open spec fn data_of(values: Seq<i16>) -> TensorDataSpec {
        TensorDataSpec::I16(values)
    }

    fn into_data(values: Vec<i16>) -> (r: TensorData) {
        let r = TensorData::I16(values);
        proof {
            assert(r.deep_view() =~= TensorDataSpec::I16(values@));
        }
        r
    }

    open spec fn width() -> nat {
        2
    }

    fn size() -> (r: usize) {
        2
    }

    open spec fn le_bytes(self) -> Seq<u8> {
        vstd::bytes::spec_u16_to_le_bytes(self as u16)
    }

    open spec fn from_le(bytes: Seq<u8>) -> Option<i16> {
        if bytes.len() == 2 {
            Some(vstd::bytes::spec_u16_from_le_bytes(bytes) as i16)
        } else {
            None
        }
    }

    fn to_le_bytes(self) -> (r: Vec<u8>) {
        vstd::bytes::u16_to_le_bytes(self as u16)
    }

    fn from_le_bytes(bytes: &[u8]) -> (r: Option<i16>) {
        if bytes.len() == 2 {
            Some(vstd::bytes::u16_from_le_bytes(bytes) as i16)
        } else {
            None
        }
    }

    proof fn lemma_le_roundtrip(x: i16) {
        vstd::bytes::lemma_auto_spec_u16_to_from_le_bytes();
        assert((x as u16) as i16 == x) by (bit_vector);
    }

    proof fn lemma_values_of(d: TensorDataSpec) {
    }
}

impl Scalar for i32 {
    open spec fn elem() -> ElemType {
        ElemType::Int32
    }

    fn elem_type() -> (r: ElemType) {
        ElemType::Int32
    }

    open spec fn values_of(data: TensorDataSpec) -> Option<Seq<i32>> {
        match data {
            TensorDataSpec::I32(x) => Some(x),
            _ => None,
        }
    }

    fn slice_of(data: &TensorData) -> (r: Option<&[i32]>) {
        match data {
            TensorData::I32(x) => Some(x.as_slice()),
            _ => None,
        }
    }

    open spec fn data_of(values: Seq<i32>) -> TensorDataSpec {
        TensorDataSpec::I32(values)
    }

    fn into_data(values: Vec<i32>) -> (r: TensorData) {
        let r = TensorData::I32(values);
        proof {
            assert(r.deep_view() =~= TensorDataSpec::I32(values@));
        }
        r
    }

    open spec fn width() -> nat {
        4
    }

    fn size() -> (r: usize) {
        4
    }

    open spec fn le_bytes(self) -> Seq<u8> {
        vstd::bytes::spec_u32_to_le_bytes(self as u32)
    }

    open spec fn from_le(bytes: Seq<u8>) -> Option<i32> {
        if bytes.len() == 4 {
            Some(vstd::bytes::spec_u32_from_le_bytes(bytes) as i32)
        } else {
            None
        }
    }

    fn to_le_bytes(self) -> (r: Vec<u8>) {
        vstd::bytes::u32_to_le_bytes(self as u32)
    }

    fn from_le_bytes(bytes: &[u8]) -> (r: Option<i32>) {
        if bytes.len() == 4 {
            Some(vstd::bytes::u32_from_le_bytes(bytes) as i32)
        } else {
            None
        }
    }

    proof fn lemma_le_roundtrip(x: i32) {
        vstd::bytes::lemma_auto_spec_u32_to_from_le_bytes();
        assert((x as u32) as i32 == x) by (bit_vector);
    }

    proof fn lemma_values_of(d: TensorDataSpec) {
    }
}

impl Scalar for i64 {
    open spec fn elem() -> ElemType {
        ElemType::Int64
    }

    fn elem_type() -> (r: ElemType) {
        ElemType::Int64
    }

    open spec fn values_of(data: TensorDataSpec) -> Option<Seq<i64>> {
        match data {
            TensorDataSpec::I64(x) => Some(x),
            _ => None,
        }
    }

    fn slice_of(data: &TensorData) -> (r: Option<&[i64]>) {
        match data {
            TensorData::I64(x) => Some(x.as_slice()),
            _ => None,
        }
    }

    open spec fn data_of(values: Seq<i64>) -> TensorDataSpec {
        TensorDataSpec::I64(values)
    }

    fn into_data(values: Vec<i64>) -> (r: TensorData) {
        let r = TensorData::I64(values);
        proof {
            assert(r.deep_view() =~= TensorDataSpec::I64(values@));
        }
        r
    }

    open spec fn width() -> nat {
        8
    }

    fn size() -> (r: usize) {
        8
    }

    open spec fn le_bytes(self) -> Seq<u8> {
        vstd::bytes::spec_u64_to_le_bytes(self as u64)
    }

    open spec fn from_le(bytes: Seq<u8>) -> Option<i64> {
        if bytes.len() == 8 {
            Some(vstd::bytes::spec_u64_from_le_bytes(bytes) as i64)
        } else {
            None
        }
    }

    fn to_le_bytes(self) -> (r: Vec<u8>) {
        vstd::bytes::u64_to_le_bytes(self as u64)
    }

    fn from_le_bytes(bytes: &[u8]) -> (r: Option<i64>) {
        if bytes.len() == 8 {
            Some(vstd::bytes::u64_from_le_bytes(bytes) as i64)
        } else {
            None
        }
    }

    proof fn lemma_le_roundtrip(x: i64) {
        vstd::bytes::lemma_auto_spec_u64_to_from_le_bytes();
        assert((x as u64) as i64 == x) by (bit_vector);
    }

    proof fn lemma_values_of(d: TensorDataSpec) {
    }
}

impl Scalar for u8 {
    open spec fn elem() -> ElemType {
        ElemType::Uint8
    }

    fn elem_type() -> (r: ElemType) {
        ElemType::Uint8
    }

    open spec fn values_of(data: TensorDataSpec) -> Option<Seq<u8>> {
        match data {
            TensorDataSpec::U8(x) => Some(x),
            _ => None,
        }
    }

    fn slice_of(data: &TensorData) -> (r: Option<&[u8]>) {
        match data {
            TensorData::U8(x) => Some(x.as_slice()),
            _ => None,
        }
    }

    open spec fn data_of(values: Seq<u8>) -> TensorDataSpec {
        TensorDataSpec::U8(values)
    }

    fn into_data(values: Vec<u8>) -> (r: TensorData) {
        let r = TensorData::U8(values);
        proof {
            assert(r.deep_view() =~= TensorDataSpec::U8(values@));
        }
        r
    }

    open spec fn width() -> nat {
        1
    }

    fn size() -> (r: usize) {
        1
    }

    open spec fn le_bytes(self) -> Seq<u8> {
        seq![self]
    }

    open spec fn from_le(bytes: Seq<u8>) -> Option<u8> {
        if bytes.len() == 1 {
            Some(bytes[0])
        } else {
            None
        }
    }

    fn to_le_bytes(self) -> (r: Vec<u8>) {
        let mut r = Vec::new();
        r.push(self);
        proof {
            assert(r@ =~= seq![self]);
        }
        r
    }

    fn from_le_bytes(bytes: &[u8]) -> (r: Option<u8>) {
        if bytes.len() == 1 {
            Some(bytes[0])
        } else {
            None
        }
    }

    proof fn lemma_le_roundtrip(x: u8) {
    }

    proof fn lemma_values_of(d: TensorDataSpec) {
    }
}

impl Scalar for u16 {
    open spec fn elem() -> ElemType {
        ElemType::Uint16
    }

    fn elem_type() -> (r: ElemType) {
        ElemType::Uint16
    }

    open spec fn values_of(data: TensorDataSpec) -> Option<Seq<u16>> {
        match data {
            TensorDataSpec::U16(x) => Some(x),
            _ => None,
        }
    }

    fn slice_of(data: &TensorData) -> (r: Option<&[u16]>) {
        match data {
            TensorData::U16(x) => Some(x.as_slice()),
            _ => None,
        }
    }

    open spec fn data_of(values: Seq<u16>) -> TensorDataSpec {
        TensorDataSpec::U16(values)
    }

    fn into_data(values: Vec<u16>) -> (r: TensorData) {
        let r = TensorData::U16(values);
        proof {
            assert(r.deep_view() =~= TensorDataSpec::U16(values@));
        }
        r
    }

    open spec fn width() -> nat {
        2
    }

    fn size() -> (r: usize) {
        2
    }

    open spec fn le_bytes(self) -> Seq<u8> {
        vstd::bytes::spec_u16_to_le_bytes(self)
    }

    open spec fn from_le(bytes: Seq<u8>) -> Option<u16> {
        if bytes.len() == 2 {
            Some(vstd::bytes::spec_u16_from_le_bytes(bytes))
        } else {
            None
        }
    }

    fn to_le_bytes(self) -> (r: Vec<u8>) {
        vstd::bytes::u16_to_le_bytes(self)
    }

    fn from_le_bytes(bytes: &[u8]) -> (r: Option<u16>) {
        if bytes.len() == 2 {
            Some(vstd::bytes::u16_from_le_bytes(bytes))
        } else {
            None
        }
    }

    proof fn lemma_le_roundtrip(x: u16) {
        vstd::bytes::lemma_auto_spec_u16_to_from_le_bytes();
    }

    proof fn lemma_values_of(d: TensorDataSpec) {
    }
}

impl Scalar for u32 {
    open spec fn elem() -> ElemType {
        ElemType::Uint32
    }

    fn elem_type() -> (r: ElemType) {
        ElemType::Uint32
    }

    open spec fn values_of(data: TensorDataSpec) -> Option<Seq<u32>> {
        match data {
            TensorDataSpec::U32(x) => Some(x),
            _ => None,
        }
    }

    fn slice_of(data: &TensorData) -> (r: Option<&[u32]>) {
        match data {
            TensorData::U32(x) => Some(x.as_slice()),
            _ => None,
        }
    }

    open spec fn data_of(values: Seq<u32>) -> TensorDataSpec {
        TensorDataSpec::U32(values)
    }

    fn into_data(values: Vec<u32>) -> (r: TensorData) {
        let r = TensorData::U32(values);
        proof {
            assert(r.deep_view() =~= TensorDataSpec::U32(values@));
        }
        r
    }

    open spec fn width() -> nat {
        4
    }

    fn size() -> (r: usize) {
        4
    }

    open spec fn le_bytes(self) -> Seq<u8> {
        vstd::bytes::spec_u32_to_le_bytes(self)
    }

    open spec fn from_le(bytes: Seq<u8>) -> Option<u32> {
        if bytes.len() == 4 {
            Some(vstd::bytes::spec_u32_from_le_bytes(bytes))
        } else {
            None
        }
    }

    fn to_le_bytes(self) -> (r: Vec<u8>) {
        vstd::bytes::u32_to_le_bytes(self)
    }

    fn from_le_bytes(bytes: &[u8]) -> (r: Option<u32>) {
        if bytes.len() == 4 {
            Some(vstd::bytes::u32_from_le_bytes(bytes))
        } else {
            None
        }
    }

    proof fn lemma_le_roundtrip(x: u32) {
        vstd::bytes::lemma_auto_spec_u32_to_from_le_bytes();
    }

    proof fn lemma_values_of(d: TensorDataSpec) {
    }
}

impl Scalar for u64 {
    open spec fn elem() -> ElemType {
        ElemType::Uint64
    }

    fn elem_type() -> (r: ElemType) {
        ElemType::Uint64
    }

    open spec fn values_of(data: TensorDataSpec) -> Option<Seq<u64>> {
        match data {
            TensorDataSpec::U64(x) => Some(x),
            _ => None,
        }
    }

    fn slice_of(data: &TensorData) -> (r: Option<&[u64]>) {
        match data {
            TensorData::U64(x) => Some(x.as_slice()),
            _ => None,
        }
    }

    open spec fn data_of(values: Seq<u64>) -> TensorDataSpec {
        TensorDataSpec::U64(values)
    }

    fn into_data(values: Vec<u64>) -> (r: TensorData) {
        let r = TensorData::U64(values);
        proof {
            assert(r.deep_view() =~= TensorDataSpec::U64(values@));
        }
        r
    }

    open spec fn width() -> nat {
        8
    }

    fn size() -> (r: usize) {
        8
    }

    open spec fn le_bytes(self) -> Seq<u8> {
        vstd::bytes::spec_u64_to_le_bytes(self)
    }

    open spec fn from_le(bytes: Seq<u8>) -> Option<u64> {
        if bytes.len() == 8 {
            Some(vstd::bytes::spec_u64_from_le_bytes(bytes))
        } else {
            None
        }
    }

    fn to_le_bytes(self) -> (r: Vec<u8>) {
        vstd::bytes::u64_to_le_bytes(self)
    }

    fn from_le_bytes(bytes: &[u8]) -> (r: Option<u64>) {
        if bytes.len() == 8 {
            Some(vstd::bytes::u64_from_le_bytes(bytes))
        } else {
            None
        }
    }

    proof fn lemma_le_roundtrip(x: u64) {
        vstd::bytes::lemma_auto_spec_u64_to_from_le_bytes();
    }

    proof fn lemma_values_of(d: TensorDataSpec) {
    }
}

impl Scalar for bool {
    open spec fn elem() -> ElemType {
        ElemType::Bool
    }

    fn elem_type() -> (r: ElemType) {
        ElemType::Bool
    }

    open spec fn values_of(data: TensorDataSpec) -> Option<Seq<bool>> {
        match data {
            TensorDataSpec::Bool(x) => Some(x),
            _ => None,
        }
    }

    fn slice_of(data: &TensorData) -> (r: Option<&[bool]>) {
        match data {
            TensorData::Bool(x) => Some(x.as_slice()),
            _ => None,
        }
    }

    open spec fn data_of(values: Seq<bool>) -> TensorDataSpec {
        TensorDataSpec::Bool(values)
    }

    fn into_data(values: Vec<bool>) -> (r: TensorData) {
        let r = TensorData::Bool(values);
        proof {
            assert(r.deep_view() =~= TensorDataSpec::Bool(values@));
        }
        r
    }

    open spec fn width() -> nat {
        1
    }

    fn size() -> (r: usize) {
        1
    }

    open spec fn le_bytes(self) -> Seq<u8> {
        seq![if self { 1u8 } else { 0u8 }]
    }

    open spec fn from_le(bytes: Seq<u8>) -> Option<bool> {
        if bytes.len() == 0 {
            None
        } else {
            Some(bytes[0] != 0u8)
        }
    }

    fn to_le_bytes(self) -> (r: Vec<u8>) {
        let b: u8 = if self { 1 } else { 0 };
        let mut r = Vec::new();
        r.push(b);
        proof {
            assert(r@ =~= seq![if self { 1u8 } else { 0u8 }]);
        }
        r
    }

    fn from_le_bytes(bytes: &[u8]) -> (r: Option<bool>) {
        if bytes.len() == 0 {
            None
        } else {
            Some(bytes[0] != 0)
        }
    }

    proof fn lemma_le_roundtrip(x: bool) {
    }

    proof fn lemma_values_of(d: TensorDataSpec) {
    }
}

/// The little-endian bytes of values, one after another.
pub open spec fn le_concat<T: Scalar>(values: Seq<T>) -> Seq<u8>
    decreases values.len(),
{
    if values.len() == 0 {
        Seq::empty()
    } else {
        le_concat(values.drop_last()) + values.last().le_bytes()
    }
}

/// Values written one after another as little-endian bytes read back, a
/// value's width at a time, as the same values.
pub proof fn le_concat_roundtrip<T: Scalar>(values: Seq<T>)
    ensures
        le_concat(values).len() == values.len() * T::width(),
        forall|k: int|
            0 <= k < values.len() ==> T::from_le(
                #[trigger] le_concat(values).subrange(k * T::width(), (k + 1) * T::width()),
            ) == Some(values[k]),
    decreases values.len(),
{
    let w = T::width() as int;
    let n = values.len() as int;
    if n > 0 {
        let prev = values.drop_last();
        le_concat_roundtrip(prev);
        T::lemma_le_roundtrip(values.last());
        let c = le_concat(prev);
        let all = le_concat(values);
        assert(all == c + values.last().le_bytes());
        assert(n * w == (n - 1) * w + w) by (nonlinear_arith);
        assert forall|k: int| 0 <= k < n implies T::from_le(
            #[trigger] all.subrange(k * w, (k + 1) * w),
        ) == Some(values[k]) by {
            if k < n - 1 {
                assert((k + 1) * w <= (n - 1) * w) by (nonlinear_arith)
                    requires
                        k + 1 <= n - 1,
                        w >= 0,
                ;
                assert(0 <= k * w) by (nonlinear_arith)
                    requires
                        k >= 0,
                        w >= 0,
                ;
                assert((k + 1) * w == k * w + w) by (nonlinear_arith);
                assert(all.subrange(k * w, (k + 1) * w) =~= c.subrange(k * w, (k + 1) * w));
                assert(prev[k] == values[k]);
            } else {
                assert(k == n - 1);
                assert(all.subrange(k * w, (k + 1) * w) =~= values.last().le_bytes());
            }
        }
    }
}

/// The values of a tensor's inline data as values of type `T`; a type
/// error names `T`'s element type and the one found, the tensor's own when
/// its data is external.
pub open spec fn spec_as_slice<T: Scalar>(t: TensorSpec) -> Result<Seq<T>, TensorErrorSpec> {
    match t.data {
        TensorStorageSpec::External(_) => Err(
            TensorErrorSpec::TypeError { expected: T::elem(), got: t.elem },
        ),
        TensorStorageSpec::Inline(d) => match T::values_of(d) {
            Some(v) => Ok(v),
            None => Err(TensorErrorSpec::TypeError { expected: T::elem(), got: d.elem() }),
        },
    }
}

/// Reading a tensor's data as values of type `T` succeeds exactly when the
/// data is inline, is not raw bytes and carries `T`'s element type, and
/// then gives the values that make the data. Otherwise the type error names
/// `T`'s element type and the data's, the tensor's own when the data is
/// external.
pub proof fn lemma_as_slice_law<T: Scalar>(t: TensorSpec)
    ensures
        spec_as_slice::<T>(t) is Ok <==> (match t.data {
            TensorStorageSpec::Inline(d) => d.elem() == T::elem() && !(d is RawBytes),
            TensorStorageSpec::External(_) => false,
        }),
        spec_as_slice::<T>(t) matches Ok(v) ==> (t.data == TensorStorageSpec::Inline(
            T::data_of(v),
        )),
        spec_as_slice::<T>(t) matches Err(e) ==> (e == (TensorErrorSpec::TypeError {
            expected: T::elem(),
            got: match t.data {
                TensorStorageSpec::External(_) => t.elem,
                TensorStorageSpec::Inline(d) => d.elem(),
            },
        })),
{
    match t.data {
        TensorStorageSpec::Inline(d) => {
            T::lemma_values_of(d);
        },
        TensorStorageSpec::External(_) => {},
    }
}

impl Tensor {
    /// The tensor's inline data as values of type `T`.
    pub fn as_slice<T: Scalar>(&self) -> (r: Result<&[T], TensorError>)
        ensures
            match spec_as_slice::<T>(self.deep_view()) {
                Ok(v) => r matches Ok(x) && x@ == v,
                Err(e) => r matches Err(x) && x.deep_view() == e,
            },
    {
        match self.data() {
            None => Err(TensorError::TypeError { expected: T::elem_type(), got: self.elem }),
            Some(d) => match T::slice_of(d) {
                Some(v) => Ok(v),
                None => Err(TensorError::TypeError { expected: T::elem_type(), got: d.elem_type() }),
            },
        }
    }
}

} // verus!
