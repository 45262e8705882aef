//! The ONNX protobuf message structures, as plain data, and the conversion
//! between them and the intermediate representation.
//!
//! Sub-messages that the intermediate representation keeps as encoded bytes
//! (subgraphs, sparse tensors, training information, sharding specs) are
//! held here as those bytes; the wire encoding itself is done by the caller.
pub mod codec;
pub mod elems;
pub mod nodes;
pub mod model;
pub mod laws;
pub mod external;

pub use codec::{
    supported_opset, ProtoCodecError, ProtoCodecErrorSpec, SUPPORTED_IR_VERSION,
    SUPPORTED_ML_OPSET, SUPPORTED_ONNX_OPSET,
};

use crate::ir::{DeviceConfigurationSpec, NodeDeviceConfigurationSpec, OpsetIdSpec};
use vstd::prelude::*;

verus! {

/// `TensorProto.DataLocation.EXTERNAL`.
pub const DATA_LOCATION_EXTERNAL: i32 = 1;

/// Model of [`TensorProto`].
#[verifier::ext_equal]
pub struct TensorProtoSpec {
    pub dims: Seq<i64>,
    pub data_type: i32,
    pub float_data: Seq<u32>,
    pub int32_data: Seq<i32>,
    pub string_data: Seq<Seq<u8>>,
    pub int64_data: Seq<i64>,
    pub name: Seq<char>,
    pub doc_string: Seq<char>,
    pub raw_data: Seq<u8>,
    pub external_data: Seq<(Seq<char>, Seq<char>)>,
    pub data_location: i32,
    pub double_data: Seq<u64>,
    pub uint64_data: Seq<u64>,
}

/// `TensorProto`. `float_data` and `double_data` hold IEEE-754 bit patterns.
#[derive(Debug, PartialEq)]
pub struct TensorProto {
    pub dims: Vec<i64>,
    pub data_type: i32,
    pub float_data: Vec<u32>,
    pub int32_data: Vec<i32>,
    pub string_data: Vec<Vec<u8>>,
    pub int64_data: Vec<i64>,
    pub name: String,
    pub doc_string: String,
    pub raw_data: Vec<u8>,
    pub external_data: Vec<(String, String)>,
    pub data_location: i32,
    pub double_data: Vec<u64>,
    pub uint64_data: Vec<u64>,
}

impl DeepView for TensorProto {
    type V = TensorProtoSpec;

    open spec fn deep_view(&self) -> TensorProtoSpec {
        TensorProtoSpec {
            dims: self.dims@,
            data_type: self.data_type,
            float_data: self.float_data@,
            int32_data: self.int32_data@,
            string_data: self.string_data.deep_view(),
            int64_data: self.int64_data@,
            name: self.name@,
            doc_string: self.doc_string@,
            raw_data: self.raw_data@,
            external_data: self.external_data.deep_view(),
            data_location: self.data_location,
            double_data: self.double_data@,
            uint64_data: self.uint64_data@,
        }
    }
}

/// Model of [`Dimension`].
pub enum DimensionSpec {
    Value(i64),
    Param(Seq<char>),
    Unset,
}

/// `TensorShapeProto.Dimension`: a size, a symbolic name, or neither.
#[derive(Debug, PartialEq)]
pub enum Dimension {
    Value(i64),
    Param(String),
    Unset,
}

impl DeepView for Dimension {
    type V = DimensionSpec;

    open spec fn deep_view(&self) -> DimensionSpec {
        match self {
            Dimension::Value(v) => DimensionSpec::Value(*v),
            Dimension::Param(p) => DimensionSpec::Param(p@),
            Dimension::Unset => DimensionSpec::Unset,
        }
    }
}

/// Model of [`TypeProto`].
pub enum TypeProtoSpec {
    Tensor { elem_type: i32, shape: Option<Seq<DimensionSpec>> },
    SparseTensor { elem_type: i32, shape: Option<Seq<DimensionSpec>> },
    Sequence(Option<Box<TypeProtoSpec>>),
    MapType { key_type: i32, value_type: Option<Box<TypeProtoSpec>> },
    Optional(Option<Box<TypeProtoSpec>>),
    Opaque { domain: Seq<char>, name: Seq<char> },
    Unset,
}

/// `TypeProto`, by the case of its `value`; `Unset` when it has none. A
/// shape is the list of its dimensions.
#[derive(Debug, PartialEq)]
pub enum TypeProto {
    Tensor { elem_type: i32, shape: Option<Vec<Dimension>> },
    SparseTensor { elem_type: i32, shape: Option<Vec<Dimension>> },
    Sequence(Option<Box<TypeProto>>),
    MapType { key_type: i32, value_type: Option<Box<TypeProto>> },
    Optional(Option<Box<TypeProto>>),
    Opaque { domain: String, name: String },
    Unset,
}

impl DeepView for TypeProto {
    type V = TypeProtoSpec;

    open spec fn deep_view(&self) -> TypeProtoSpec
        decreases self,
    {
        match self {
            TypeProto::Tensor { elem_type, shape } => TypeProtoSpec::Tensor {
                elem_type: *elem_type,
                shape: match shape {
                    Some(s) => Some(s.deep_view()),
                    None => None,
                },
            },
            TypeProto::SparseTensor { elem_type, shape } => TypeProtoSpec::SparseTensor {
                elem_type: *elem_type,
                shape: match shape {
                    Some(s) => Some(s.deep_view()),
                    None => None,
                },
            },
            TypeProto::Sequence(inner) => TypeProtoSpec::Sequence(
                match inner {
                    Some(b) => Some(Box::new((**b).deep_view())),
                    None => None,
                },
            ),
            TypeProto::MapType { key_type, value_type } => TypeProtoSpec::MapType {
                key_type: *key_type,
                value_type: match value_type {
                    Some(b) => Some(Box::new((**b).deep_view())),
                    None => None,
                },
            },
            TypeProto::Optional(inner) => TypeProtoSpec::Optional(
                match inner {
                    Some(b) => Some(Box::new((**b).deep_view())),
                    None => None,
                },
            ),
            TypeProto::Opaque { domain, name } => TypeProtoSpec::Opaque {
                domain: domain@,
                name: name@,
            },
            TypeProto::Unset => TypeProtoSpec::Unset,
        }
    }
}

/// Model of [`ValueInfoProto`].
#[verifier::ext_equal]
pub struct ValueInfoProtoSpec {
    pub name: Seq<char>,
    pub type_proto: Option<TypeProtoSpec>,
    pub doc_string: Seq<char>,
}

/// `ValueInfoProto`.
#[derive(Debug, PartialEq)]
pub struct ValueInfoProto {
    pub name: String,
    pub type_proto: Option<TypeProto>,
    pub doc_string: String,
}

impl DeepView for ValueInfoProto {
    type V = ValueInfoProtoSpec;

    open spec fn deep_view(&self) -> ValueInfoProtoSpec {
        ValueInfoProtoSpec {
            name: self.name@,
            type_proto: match &self.type_proto {
                Some(t) => Some(t.deep_view()),
                None => None,
            },
            doc_string: self.doc_string@,
        }
    }
}

/// Model of [`EmbeddedMessage`].
#[verifier::ext_equal]
pub struct EmbeddedMessageSpec {
    pub name: Seq<char>,
    pub bytes: Seq<u8>,
}

/// A sub-message kept encoded: its bytes, with the name it carries.
#[derive(Debug, PartialEq)]
pub struct EmbeddedMessage {
    pub name: String,
    pub bytes: Vec<u8>,
}

impl DeepView for EmbeddedMessage {
    type V = EmbeddedMessageSpec;

    open spec fn deep_view(&self) -> EmbeddedMessageSpec {
        EmbeddedMessageSpec { name: self.name@, bytes: self.bytes@ }
    }
}

/// Model of [`AttributeProto`].
#[verifier::ext_equal]
pub struct AttributeProtoSpec {
    pub name: Seq<char>,
    pub doc_string: Seq<char>,
    pub attr_type: i32,
    pub f: u32,
    pub i: i64,
    pub s: Seq<u8>,
    pub t: Option<TensorProtoSpec>,
    pub g: Option<EmbeddedMessageSpec>,
    pub floats: Seq<u32>,
    pub ints: Seq<i64>,
    pub strings: Seq<Seq<u8>>,
    pub tensors: Seq<TensorProtoSpec>,
    pub graphs: Seq<EmbeddedMessageSpec>,
    pub sparse_tensor: Option<Seq<u8>>,
    pub tp: Option<TypeProtoSpec>,
    pub sparse_tensors: Seq<Seq<u8>>,
    pub type_protos: Seq<TypeProtoSpec>,
}

/// `AttributeProto`. `f` and `floats` hold IEEE-754 bit patterns; `g` and
/// `graphs` hold encoded subgraphs, the sparse tensors encoded messages.
#[derive(Debug, PartialEq)]
pub struct AttributeProto {
    pub name: String,
    pub doc_string: String,
    pub attr_type: i32,
    pub f: u32,
    pub i: i64,
    pub s: Vec<u8>,
    pub t: Option<TensorProto>,
    pub g: Option<EmbeddedMessage>,
    pub floats: Vec<u32>,
    pub ints: Vec<i64>,
    pub strings: Vec<Vec<u8>>,
    pub tensors: Vec<TensorProto>,
    pub graphs: Vec<EmbeddedMessage>,
    pub sparse_tensor: Option<Vec<u8>>,
    pub tp: Option<TypeProto>,
    pub sparse_tensors: Vec<Vec<u8>>,
    pub type_protos: Vec<TypeProto>,
}

impl DeepView for AttributeProto {
    type V = AttributeProtoSpec;

    open spec fn deep_view(&self) -> AttributeProtoSpec {
        AttributeProtoSpec {
            name: self.name@,
            doc_string: self.doc_string@,
            attr_type: self.attr_type,
            f: self.f,
            i: self.i,
            s: self.s@,
            t: match &self.t {
                Some(t) => Some(t.deep_view()),
                None => None,
            },
            g: match &self.g {
                Some(g) => Some(g.deep_view()),
                None => None,
            },
            floats: self.floats@,
            ints: self.ints@,
            strings: self.strings.deep_view(),
            tensors: self.tensors.deep_view(),
            graphs: self.graphs.deep_view(),
            sparse_tensor: match &self.sparse_tensor {
                Some(b) => Some(b@),
                None => None,
            },
            tp: match &self.tp {
                Some(t) => Some(t.deep_view()),
                None => None,
            },
            sparse_tensors: self.sparse_tensors.deep_view(),
            type_protos: self.type_protos.deep_view(),
        }
    }
}

/// Model of [`NodeDeviceConfigurationProto`]: the model of the
/// intermediate representation's configuration, which has the same parts.
/// `NodeDeviceConfigurationProto`, with its sharding specs encoded.
#[derive(Debug, PartialEq)]
pub struct NodeDeviceConfigurationProto {
    pub configuration_id: String,
    pub sharding_spec: Vec<Vec<u8>>,
    pub pipeline_stage: i32,
}

impl DeepView for NodeDeviceConfigurationProto {
    type V = NodeDeviceConfigurationSpec;

    open spec fn deep_view(&self) -> NodeDeviceConfigurationSpec {
        NodeDeviceConfigurationSpec {
            configuration_id: self.configuration_id@,
            pipeline_stage: self.pipeline_stage,
            sharding_specs_raw: self.sharding_spec.deep_view(),
        }
    }
}

/// Model of [`NodeProto`].
#[verifier::ext_equal]
pub struct NodeProtoSpec {
    pub input: Seq<Seq<char>>,
    pub output: Seq<Seq<char>>,
    pub name: Seq<char>,
    pub op_type: Seq<char>,
    pub domain: Seq<char>,
    pub overload: Seq<char>,
    pub attribute: Seq<AttributeProtoSpec>,
    pub doc_string: Seq<char>,
    pub metadata_props: Seq<(Seq<char>, Seq<char>)>,
    pub device_configurations: Seq<NodeDeviceConfigurationSpec>,
}

/// `NodeProto`.
#[derive(Debug, PartialEq)]
pub struct NodeProto {
    pub input: Vec<String>,
    pub output: Vec<String>,
    pub name: String,
    pub op_type: String,
    pub domain: String,
    pub overload: String,
    pub attribute: Vec<AttributeProto>,
    pub doc_string: String,
    pub metadata_props: Vec<(String, String)>,
    pub device_configurations: Vec<NodeDeviceConfigurationProto>,
}

impl DeepView for NodeProto {
    type V = NodeProtoSpec;

    open spec fn deep_view(&self) -> NodeProtoSpec {
        NodeProtoSpec {
            input: self.input.deep_view(),
            output: self.output.deep_view(),
            name: self.name@,
            op_type: self.op_type@,
            domain: self.domain@,
            overload: self.overload@,
            attribute: self.attribute.deep_view(),
            doc_string: self.doc_string@,
            metadata_props: self.metadata_props.deep_view(),
            device_configurations: self.device_configurations.deep_view(),
        }
    }
}

/// Model of [`GraphProto`].
#[verifier::ext_equal]
pub struct GraphProtoSpec {
    pub node: Seq<NodeProtoSpec>,
    pub name: Seq<char>,
    pub initializer: Seq<TensorProtoSpec>,
    pub sparse_initializer: Seq<EmbeddedMessageSpec>,
    pub doc_string: Seq<char>,
    pub input: Seq<ValueInfoProtoSpec>,
    pub output: Seq<ValueInfoProtoSpec>,
    pub value_info: Seq<ValueInfoProtoSpec>,
    pub quantization_annotation: Seq<Seq<(Seq<char>, Seq<char>)>>,
    pub metadata_props: Seq<(Seq<char>, Seq<char>)>,
}

/// `GraphProto`. Sparse initializers are encoded, with the name of their
/// values; each quantization annotation is its parameter list.
#[derive(Debug, PartialEq)]
pub struct GraphProto {
    pub node: Vec<NodeProto>,
    pub name: String,
    pub initializer: Vec<TensorProto>,
    pub sparse_initializer: Vec<EmbeddedMessage>,
    pub doc_string: String,
    pub input: Vec<ValueInfoProto>,
    pub output: Vec<ValueInfoProto>,
    pub value_info: Vec<ValueInfoProto>,
    pub quantization_annotation: Vec<Vec<(String, String)>>,
    pub metadata_props: Vec<(String, String)>,
}

impl DeepView for GraphProto {
    type V = GraphProtoSpec;

    open spec fn deep_view(&self) -> GraphProtoSpec {
        GraphProtoSpec {
            node: self.node.deep_view(),
            name: self.name@,
            initializer: self.initializer.deep_view(),
            sparse_initializer: self.sparse_initializer.deep_view(),
            doc_string: self.doc_string@,
            input: self.input.deep_view(),
            output: self.output.deep_view(),
            value_info: self.value_info.deep_view(),
            quantization_annotation: self.quantization_annotation.deep_view(),
            metadata_props: self.metadata_props.deep_view(),
        }
    }
}

/// `OperatorSetIdProto`, modelled as the intermediate representation's
/// opset id.
#[derive(Debug, PartialEq)]
pub struct OperatorSetIdProto {
    pub domain: String,
    pub version: i64,
}

impl DeepView for OperatorSetIdProto {
    type V = OpsetIdSpec;

    open spec fn deep_view(&self) -> OpsetIdSpec {
        OpsetIdSpec { domain: self.domain@, version: self.version }
    }
}

/// `DeviceConfigurationProto`, modelled as the intermediate
/// representation's device configuration.
#[derive(Debug, PartialEq)]
pub struct DeviceConfigurationProto {
    pub name: String,
    pub num_devices: i32,
    pub device: Vec<String>,
}

impl DeepView for DeviceConfigurationProto {
    type V = DeviceConfigurationSpec;

    open spec fn deep_view(&self) -> DeviceConfigurationSpec {
        DeviceConfigurationSpec {
            name: self.name@,
            num_devices: self.num_devices,
            devices: self.device.deep_view(),
        }
    }
}

/// Model of [`FunctionProtoRef`].
#[verifier::ext_equal]
pub struct FunctionProtoRefSpec {
    pub domain: Seq<char>,
    pub name: Seq<char>,
    pub overload: Seq<char>,
    pub encoded: Seq<u8>,
}

/// A `FunctionProto`: the parts the library reads, with the encoding of the
/// whole message (empty where there is none, and the message carries these
/// parts only).
#[derive(Debug, PartialEq)]
pub struct FunctionProtoRef {
    pub domain: String,
    pub name: String,
    pub overload: String,
    pub encoded: Vec<u8>,
}

impl DeepView for FunctionProtoRef {
    type V = FunctionProtoRefSpec;

    open spec fn deep_view(&self) -> FunctionProtoRefSpec {
        FunctionProtoRefSpec {
            domain: self.domain@,
            name: self.name@,
            overload: self.overload@,
            encoded: self.encoded@,
        }
    }
}

/// Model of [`ModelProto`].
#[verifier::ext_equal]
pub struct ModelProtoSpec {
    pub ir_version: i64,
    pub opset_import: Seq<OpsetIdSpec>,
    pub producer_name: Seq<char>,
    pub producer_version: Seq<char>,
    pub domain: Seq<char>,
    pub model_version: i64,
    pub doc_string: Seq<char>,
    pub graph: Option<GraphProtoSpec>,
    pub metadata_props: Seq<(Seq<char>, Seq<char>)>,
    pub training_info: Seq<Seq<u8>>,
    pub functions: Seq<FunctionProtoRefSpec>,
    pub configuration: Seq<DeviceConfigurationSpec>,
}

/// `ModelProto`, with its training information encoded.
#[derive(Debug, PartialEq)]
pub struct ModelProto {
    pub ir_version: i64,
    pub opset_import: Vec<OperatorSetIdProto>,
    pub producer_name: String,
    pub producer_version: String,
    pub domain: String,
    pub model_version: i64,
    pub doc_string: String,
    pub graph: Option<GraphProto>,
    pub metadata_props: Vec<(String, String)>,
    pub training_info: Vec<Vec<u8>>,
    pub functions: Vec<FunctionProtoRef>,
    pub configuration: Vec<DeviceConfigurationProto>,
}

impl DeepView for ModelProto {
    type V = ModelProtoSpec;

    open spec fn deep_view(&self) -> ModelProtoSpec {
        ModelProtoSpec {
            ir_version: self.ir_version,
            opset_import: self.opset_import.deep_view(),
            producer_name: self.producer_name@,
            producer_version: self.producer_version@,
            domain: self.domain@,
            model_version: self.model_version,
            doc_string: self.doc_string@,
            graph: match &self.graph {
                Some(g) => Some(g.deep_view()),
                None => None,
            },
            metadata_props: self.metadata_props.deep_view(),
            training_info: self.training_info.deep_view(),
            functions: self.functions.deep_view(),
            configuration: self.configuration.deep_view(),
        }
    }
}

} // verus!
