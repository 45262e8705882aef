//! Strongly typed ONNX models: a typed intermediate representation, typed
//! `ai.onnx.ml` operators, and the conversion between the intermediate
//! representation and the ONNX protobuf message structures.

pub mod ir;
pub mod text;
pub mod ml;
pub mod proto;
pub mod export;
pub mod import;
