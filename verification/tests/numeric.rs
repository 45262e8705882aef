use serde_onnx::ir::{Dim, ElemType, ExternalData, Scalar, Tensor, TensorData, TensorError};

#[test]
fn to_vec_bool_exact() {
    let tensor = Tensor::new("t".to_string(), ElemType::Bool, vec![], TensorData::Bool(vec![true, false]));
    assert_eq!(tensor.as_slice::<bool>().unwrap(), &[true, false]);
}

#[test]
fn as_slice_of_another_integer_type_fails() {
    let tensor = Tensor::new("t".to_string(), ElemType::Int32, vec![Dim::Fixed(2)], TensorData::I32(vec![1, 2]));
    assert_eq!(tensor.as_slice::<i32>().unwrap(), &[1, 2]);
    assert_eq!(
        tensor.as_slice::<i64>().unwrap_err(),
        TensorError::TypeError { expected: ElemType::Int64, got: ElemType::Int32 }
    );
}

#[test]
fn as_slice_of_external_data_names_the_tensor_type() {
    let tensor = Tensor::external(
        "w".to_string(),
        ElemType::Uint8,
        vec![Dim::Fixed(4)],
        ExternalData { location: "w.bin".to_string(), offset: None, length: None, checksum: None },
    );
    assert_eq!(
        tensor.as_slice::<u8>().unwrap_err(),
        TensorError::TypeError { expected: ElemType::Uint8, got: ElemType::Uint8 }
    );
}

#[test]
fn scalar_data_carries_its_element_type() {
    let data = u16::into_data(vec![7, 9]);
    assert_eq!(data, TensorData::U16(vec![7, 9]));
    assert_eq!(data.elem_type(), ElemType::Uint16);
    assert_eq!(<bool as Scalar>::elem_type(), ElemType::Bool);
}

fn le_roundtrip<T: Scalar + PartialEq + std::fmt::Debug + Copy>(values: Vec<T>) {
    let mut bytes = Vec::with_capacity(values.len() * T::size());
    for v in &values {
        bytes.extend_from_slice(&v.to_le_bytes()[..T::size()]);
    }
    let mut decoded = Vec::with_capacity(values.len());
    for chunk in bytes.chunks(T::size()) {
        decoded.push(T::from_le_bytes(chunk).expect("decode must succeed"));
    }
    assert_eq!(decoded, values);
}

#[test]
fn le_roundtrip_integers_and_bool() {
    le_roundtrip(vec![i8::MIN, -1, 0, 1, i8::MAX]);
    le_roundtrip(vec![i16::MIN, -2, 0, 300, i16::MAX]);
    le_roundtrip(vec![i32::MIN, -70000, 0, 70000, i32::MAX]);
    le_roundtrip(vec![i64::MIN, -1, 0, 1 << 40, i64::MAX]);
    le_roundtrip(vec![0u8, 1, 255]);
    le_roundtrip(vec![0u16, 1, 0xABCD, u16::MAX]);
    le_roundtrip(vec![0u32, 0xDEADBEEF, u32::MAX]);
    le_roundtrip(vec![0u64, 0x0123_4567_89AB_CDEF, u64::MAX]);
    le_roundtrip(vec![true, false, true]);
    le_roundtrip::<u32>(vec![]);
}

#[test]
fn le_bytes_are_little_endian_and_sized() {
    assert_eq!(<i16 as Scalar>::to_le_bytes(-2), vec![0xFE, 0xFF]);
    assert_eq!(<u32 as Scalar>::to_le_bytes(0x0102_0304), vec![4, 3, 2, 1]);
    assert_eq!(<bool as Scalar>::to_le_bytes(true), vec![1]);
    assert_eq!(<u64 as Scalar>::size(), 8);
    assert_eq!(<i8 as Scalar>::size(), 1);
    assert_eq!(<u32 as Scalar>::from_le_bytes(&[1, 2, 3]), None);
    assert_eq!(<u16 as Scalar>::from_le_bytes(&[0x34, 0x12]), Some(0x1234));
    assert_eq!(<i32 as Scalar>::from_le_bytes(&[0xFF, 0xFF, 0xFF, 0xFF]), Some(-1));
    assert_eq!(<bool as Scalar>::from_le_bytes(&[]), None);
    assert_eq!(<bool as Scalar>::from_le_bytes(&[0, 7]), Some(false));
    assert_eq!(<bool as Scalar>::from_le_bytes(&[2]), Some(true));
}
