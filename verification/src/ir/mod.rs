//! The generic intermediate representation of an ONNX model.

pub mod types;

pub use types::{
    Dim, DimSpec, ElemType, MaybeRanked, Shape, TensorType, TensorTypeSpec, ValueType,
    ValueTypeSpec, IR_VERSION, ML_OPSET_VERSION, ONNX_OPSET_VERSION,
};
pub mod tensor;

pub use tensor::{
    CastLossReason, ExternalData, ExternalDataSpec, Tensor, TensorData, TensorDataSpec,
    TensorError, TensorErrorSpec, TensorSpec, TensorStorage, TensorStorageSpec,
};
pub mod attribute;

pub use attribute::{
    attribute_from_fields, spec_attribute, Attribute, AttributeError, AttributeErrorSpec,
    AttributeFields, AttributeFieldsSpec, AttributeSpec, AttributeValue, AttributeValueSpec,
    GraphRef, NamedBytesSpec, SparseRef,
};
pub mod graph;

pub use graph::{
    copy_pairs, first_named, lemma_first_named, DeviceConfiguration, DeviceConfigurationSpec, FunctionRaw,
    FunctionRawSpec, Graph, GraphSpec, Model, ModelSpec, Node, NodeDeviceConfiguration,
    NodeDeviceConfigurationSpec, NodeSpec, OpsetId, OpsetIdSpec, RawKvEntries, SparseTensorRaw,
    SparseTensorRawSpec, TrainingInfoRaw, ValueInfo, ValueInfoSpec, DEFAULT_DOMAIN, ML_DOMAIN,
    PRODUCER_VERSION,
};
pub mod numeric;

pub use numeric::{Scalar, Sealed};
pub mod cycle;
pub mod validate;
