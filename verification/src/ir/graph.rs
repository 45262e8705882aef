use super::attribute::{Attribute, AttributeSpec, GraphRef};
use super::tensor::{Tensor, TensorSpec};
use super::types::{ValueType, ValueTypeSpec, IR_VERSION};
use crate::text::str_eq;
use vstd::prelude::*;

verus! {

/// The default (`ai.onnx`) operator domain.
pub const DEFAULT_DOMAIN: &'static str = "";

/// The `ai.onnx.ml` operator domain.
pub const ML_DOMAIN: &'static str = "ai.onnx.ml";

/// Version written as the producer version of models this library builds.
pub const PRODUCER_VERSION: &'static str = "0.1.0";

/// Copies a list of string pairs.
pub fn copy_pairs(v: &Vec<(String, String)>) -> (r: Vec<(String, String)>)
    ensures
        r.deep_view() == v.deep_view(),
{
    let mut r: Vec<(String, String)> = Vec::with_capacity(v.len());
    let mut i: usize = 0;
    while i < v.len()
        invariant
            0 <= i <= v.len(),
            r.deep_view() == v.deep_view().take(i as int),
        decreases v.len() - i,
    {
        let (a, b) = &v[i];
        let ghost before = r.deep_view();
        let pair = (a.clone(), b.clone());
        proof {
            assert(pair.deep_view() == v.deep_view()[i as int]);
        }
        r.push(pair);
        proof {
            assert(r.deep_view() =~= before.push(pair.deep_view()));
            assert(r.deep_view() =~= v.deep_view().take(i + 1));
        }
        i = i + 1;
    }
    proof {
        assert(v.deep_view().take(i as int) =~= v.deep_view());
    }
    r
}

/// Copies a list of byte strings.
pub fn copy_byte_lists(v: &Vec<Vec<u8>>) -> (r: Vec<Vec<u8>>)
    ensures
        r.deep_view() == v.deep_view(),
{
    let mut r: Vec<Vec<u8>> = Vec::with_capacity(v.len());
    let mut i: usize = 0;
    while i < v.len()
        invariant
            0 <= i <= v.len(),
            r.deep_view() == v.deep_view().take(i as int),
        decreases v.len() - i,
    {
        let c = v[i].clone();
        let ghost before = r.deep_view();
        proof {
            assert(c.deep_view() =~= v[i as int].deep_view());
            assert(c.deep_view() == v.deep_view()[i as int]);
        }
        r.push(c);
        proof {
            assert(r.deep_view() =~= before.push(c.deep_view()));
            assert(r.deep_view() =~= v.deep_view().take(i + 1));
        }
        i = i + 1;
    }
    proof {
        assert(v.deep_view().take(i as int) =~= v.deep_view());
    }
    r
}

/// Mathematical model of [`NodeDeviceConfiguration`].
pub struct NodeDeviceConfigurationSpec {
    pub configuration_id: Seq<char>,
    pub pipeline_stage: i32,
    pub sharding_specs_raw: Seq<Seq<u8>>,
}

/// Device placement of a node; sharding specs are kept as raw proto bytes.
#[derive(Debug, PartialEq)]
pub struct NodeDeviceConfiguration {
    pub configuration_id: String,
    pub pipeline_stage: i32,
    pub sharding_specs_raw: Vec<Vec<u8>>,
}

impl DeepView for NodeDeviceConfiguration {
    type V = NodeDeviceConfigurationSpec;

    open spec fn deep_view(&self) -> NodeDeviceConfigurationSpec {
        NodeDeviceConfigurationSpec {
            configuration_id: self.configuration_id@,
            pipeline_stage: self.pipeline_stage,
            sharding_specs_raw: self.sharding_specs_raw.deep_view(),
        }
    }
}

impl Clone for NodeDeviceConfiguration {
    fn clone(&self) -> (r: Self)
        ensures
            r.deep_view() == self.deep_view(),
    {
        NodeDeviceConfiguration {
            configuration_id: self.configuration_id.clone(),
            pipeline_stage: self.pipeline_stage,
            sharding_specs_raw: copy_byte_lists(&self.sharding_specs_raw),
        }
    }
}

/// Mathematical model of [`Node`].
pub struct NodeSpec {
    pub name: Option<Seq<char>>,
    pub op_type: Seq<char>,
    pub domain: Seq<char>,
    pub inputs: Seq<Seq<char>>,
    pub outputs: Seq<Seq<char>>,
    pub attributes: Seq<AttributeSpec>,
    pub overload: Seq<char>,
    pub doc_string: Seq<char>,
    pub metadata: Seq<(Seq<char>, Seq<char>)>,
    pub device_configurations: Seq<NodeDeviceConfigurationSpec>,
}

/// An operator application in a graph.
#[derive(Debug, PartialEq)]
pub struct Node {
    pub name: Option<String>,
    pub op_type: String,
    pub domain: String,
    pub inputs: Vec<String>,
    pub outputs: Vec<String>,
    pub attributes: Vec<Attribute>,
    pub overload: String,
    pub doc_string: String,
    pub metadata: Vec<(String, String)>,
    pub device_configurations: Vec<NodeDeviceConfiguration>,
}

impl DeepView for Node {
    type V = NodeSpec;

    open spec fn deep_view(&self) -> NodeSpec {
        NodeSpec {
            name: self.name.deep_view(),
            op_type: self.op_type@,
            domain: self.domain@,
            inputs: self.inputs.deep_view(),
            outputs: self.outputs.deep_view(),
            attributes: self.attributes.deep_view(),
            overload: self.overload@,
            doc_string: self.doc_string@,
            metadata: self.metadata.deep_view(),
            device_configurations: self.device_configurations.deep_view(),
        }
    }
}

impl Clone for Node {
    fn clone(&self) -> (r: Self)
        ensures
            r.deep_view() == self.deep_view(),
    {
        let inputs = self.inputs.clone();
        let outputs = self.outputs.clone();
        let attributes = self.attributes.clone();
        let device_configurations = self.device_configurations.clone();
        proof {
            assert(inputs.deep_view() =~= self.inputs.deep_view());
            assert(outputs.deep_view() =~= self.outputs.deep_view());
            assert(attributes.deep_view() =~= self.attributes.deep_view());
            assert(device_configurations.deep_view() =~= self.device_configurations.deep_view());
        }
        Node {
            name: self.name.clone(),
            op_type: self.op_type.clone(),
            domain: self.domain.clone(),
            inputs,
            outputs,
            attributes,
            overload: self.overload.clone(),
            doc_string: self.doc_string.clone(),
            metadata: copy_pairs(&self.metadata),
            device_configurations,
        }
    }
}

/// The first element of `names` equal to `name`, as an index.
pub open spec fn first_named(names: Seq<Seq<char>>, name: Seq<char>) -> Option<int> {
    if exists|i: int| 0 <= i < names.len() && names[i] == name {
        Some(
            choose|i: int|
                0 <= i < names.len() && names[i] == name && forall|j: int|
                    0 <= j < i ==> names[j] != name,
        )
    } else {
        None
    }
}

/// Proves that the index found by a forward search is [`first_named`].
pub proof fn lemma_first_named(names: Seq<Seq<char>>, name: Seq<char>, k: int)
    requires
        0 <= k <= names.len(),
        forall|j: int| 0 <= j < k ==> names[j] != name,
        k < names.len() ==> names[k] == name,
    ensures
        first_named(names, name) == (if k < names.len() {
            Some(k)
        } else {
            None::<int>
        }),
{
    if k < names.len() {
        let c = choose|i: int|
            0 <= i < names.len() && names[i] == name && forall|j: int|
                0 <= j < i ==> names[j] != name;
        assert(0 <= c < names.len() && names[c] == name && forall|j: int|
            0 <= j < c ==> names[j] != name);
        if c < k {
        } else if c > k {
            assert(names[k] != name);
        }
    }
}

impl Node {
    /// A node with the given operator, wiring and attributes.
    pub fn new(
        op_type: String,
        domain: String,
        inputs: Vec<String>,
        outputs: Vec<String>,
        attributes: Vec<Attribute>,
    ) -> (r: Self)
        ensures
            r.deep_view() == (NodeSpec {
                name: None,
                op_type: op_type@,
                domain: domain@,
                inputs: inputs.deep_view(),
                outputs: outputs.deep_view(),
                attributes: attributes.deep_view(),
                overload: Seq::empty(),
                doc_string: Seq::empty(),
                metadata: Seq::empty(),
                device_configurations: Seq::empty(),
            }),
    {
        let r = Node {
            name: None,
            op_type,
            domain,
            inputs,
            outputs,
            attributes,
            overload: String::new(),
            doc_string: String::new(),
            metadata: Vec::new(),
            device_configurations: Vec::new(),
        };
        proof {
            assert(r.metadata.deep_view() =~= Seq::<(Seq<char>, Seq<char>)>::empty());
            assert(r.device_configurations.deep_view() =~= Seq::<
                NodeDeviceConfigurationSpec,
            >::empty());
        }
        r
    }

    /// The names of the node's attributes, in order.
    pub open spec fn attribute_names(self) -> Seq<Seq<char>> {
        self.attributes@.map_values(|a: Attribute| a.name@)
    }

    /// The first attribute with the given name.
    pub fn attr(&self, name: &str) -> (r: Option<&Attribute>)
        ensures
            match first_named(self.attribute_names(), name@) {
                Some(i) => r == Some(&self.attributes@[i]),
                None => r is None,
            },
    {
        let mut i: usize = 0;
        while i < self.attributes.len()
            invariant
                0 <= i <= self.attributes.len(),
                forall|j: int| 0 <= j < i ==> self.attribute_names()[j] != name@,
            decreases self.attributes.len() - i,
        {
            if str_eq(self.attributes[i].name.as_str(), name) {
                proof {
                    lemma_first_named(self.attribute_names(), name@, i as int);
                }
                return Some(&self.attributes[i]);
            }
            i = i + 1;
        }
        proof {
            lemma_first_named(self.attribute_names(), name@, i as int);
        }
        None
    }

    /// The position of the first attribute with the given name.
    fn attr_index(&self, name: &str) -> (r: Option<usize>)
        ensures
            match first_named(self.attribute_names(), name@) {
                Some(i) => r matches Some(k) && k == i,
                None => r is None,
            },
            r matches Some(k) ==> k < self.attributes@.len(),
    {
        let mut i: usize = 0;
        while i < self.attributes.len()
            invariant
                0 <= i <= self.attributes.len(),
                forall|j: int| 0 <= j < i ==> self.attribute_names()[j] != name@,
            decreases self.attributes.len() - i,
        {
            if str_eq(self.attributes[i].name.as_str(), name) {
                proof {
                    lemma_first_named(self.attribute_names(), name@, i as int);
                }
                return Some(i);
            }
            i = i + 1;
        }
        proof {
            lemma_first_named(self.attribute_names(), name@, i as int);
        }
        None
    }

    /// The first attribute with the given name, to be changed in place.
    pub fn attr_mut(&mut self, name: &str) -> (r: Option<&mut Attribute>)
        ensures
            first_named(old(self).attribute_names(), name@) is None ==> r is None
                && *final(self) == *old(self),
            first_named(old(self).attribute_names(), name@) matches Some(i) ==> r matches Some(a)
                && *a == old(self).attributes@[i]
                && final(self).attributes@ == old(self).attributes@.update(i, *final(a))
                && final(self).name == old(self).name
                && final(self).op_type == old(self).op_type
                && final(self).domain == old(self).domain
                && final(self).inputs == old(self).inputs
                && final(self).outputs == old(self).outputs
                && final(self).overload == old(self).overload
                && final(self).doc_string == old(self).doc_string
                && final(self).metadata == old(self).metadata
                && final(self).device_configurations == old(self).device_configurations,
    {
        match self.attr_index(name) {
            Some(i) => Some(&mut self.attributes[i]),
            None => None,
        }
    }
}

/// Mathematical model of [`ValueInfo`].
pub struct ValueInfoSpec {
    pub name: Seq<char>,
    pub value_type: Option<ValueTypeSpec>,
    pub doc_string: Seq<char>,
}

/// A named, optionally typed graph value.
#[derive(Debug, PartialEq)]
pub struct ValueInfo {
    pub name: String,
    pub value_type: Option<ValueType>,
    pub doc_string: String,
}

impl DeepView for ValueInfo {
    type V = ValueInfoSpec;

    open spec fn deep_view(&self) -> ValueInfoSpec {
        ValueInfoSpec {
            name: self.name@,
            value_type: self.value_type.deep_view(),
            doc_string: self.doc_string@,
        }
    }
}

impl Clone for ValueInfo {
    fn clone(&self) -> (r: Self)
        ensures
            r.deep_view() == self.deep_view(),
    {
        ValueInfo {
            name: self.name.clone(),
            value_type: self.value_type.clone(),
            doc_string: self.doc_string.clone(),
        }
    }
}

impl ValueInfo {
    /// A typed value with the given name.
    pub fn new(name: String, value_type: ValueType) -> (r: Self)
        ensures
            r.deep_view() == (ValueInfoSpec {
                name: name@,
                value_type: Some(value_type.deep_view()),
                doc_string: Seq::empty(),
            }),
    {
        ValueInfo { name, value_type: Some(value_type), doc_string: String::new() }
    }
}

/// Mathematical model of [`SparseTensorRaw`].
pub struct SparseTensorRawSpec {
    pub name: Seq<char>,
    pub proto: Seq<u8>,
}

/// A sparse initializer kept as raw `SparseTensorProto` bytes.
#[derive(Debug, PartialEq)]
pub struct SparseTensorRaw {
    pub name: String,
    pub proto: Vec<u8>,
}

impl DeepView for SparseTensorRaw {
    type V = SparseTensorRawSpec;

    open spec fn deep_view(&self) -> SparseTensorRawSpec {
        SparseTensorRawSpec { name: self.name@, proto: self.proto@ }
    }
}

impl Clone for SparseTensorRaw {
    fn clone(&self) -> (r: Self)
        ensures
            r.deep_view() == self.deep_view(),
    {
        let proto = self.proto.clone();
        proof {
            assert(proto@ =~= self.proto@);
        }
        SparseTensorRaw { name: self.name.clone(), proto }
    }
}

/// A list of key/value string entries kept verbatim.
#[derive(Debug, PartialEq)]
pub struct RawKvEntries {
    pub entries: Vec<(String, String)>,
}

impl DeepView for RawKvEntries {
    type V = Seq<(Seq<char>, Seq<char>)>;

    open spec fn deep_view(&self) -> Seq<(Seq<char>, Seq<char>)> {
        self.entries.deep_view()
    }
}

impl Clone for RawKvEntries {
    fn clone(&self) -> (r: Self)
        ensures
            r.deep_view() == self.deep_view(),
    {
        RawKvEntries { entries: copy_pairs(&self.entries) }
    }
}

/// Mathematical model of [`Graph`].
#[verifier::ext_equal]
pub struct GraphSpec {
    pub name: Seq<char>,
    pub nodes: Seq<NodeSpec>,
    pub initializers: Seq<TensorSpec>,
    pub sparse_initializers_raw: Seq<SparseTensorRawSpec>,
    pub inputs: Seq<ValueInfoSpec>,
    pub outputs: Seq<ValueInfoSpec>,
    pub value_info: Seq<ValueInfoSpec>,
    pub quantization_annotations_raw: Seq<Seq<(Seq<char>, Seq<char>)>>,
    pub metadata: Seq<(Seq<char>, Seq<char>)>,
    pub doc_string: Seq<char>,
}

/// A computation graph.
#[derive(Debug, PartialEq)]
pub struct Graph {
    pub name: String,
    pub nodes: Vec<Node>,
    pub initializers: Vec<Tensor>,
    pub sparse_initializers_raw: Vec<SparseTensorRaw>,
    pub inputs: Vec<ValueInfo>,
    pub outputs: Vec<ValueInfo>,
    pub value_info: Vec<ValueInfo>,
    pub quantization_annotations_raw: Vec<RawKvEntries>,
    pub metadata: Vec<(String, String)>,
    pub doc_string: String,
}

impl DeepView for Graph {
    type V = GraphSpec;

    open spec fn deep_view(&self) -> GraphSpec {
        GraphSpec {
            name: self.name@,
            nodes: self.nodes.deep_view(),
            initializers: self.initializers.deep_view(),
            sparse_initializers_raw: self.sparse_initializers_raw.deep_view(),
            inputs: self.inputs.deep_view(),
            outputs: self.outputs.deep_view(),
            value_info: self.value_info.deep_view(),
            quantization_annotations_raw: self.quantization_annotations_raw.deep_view(),
            metadata: self.metadata.deep_view(),
            doc_string: self.doc_string@,
        }
    }
}

impl Clone for Graph {
    fn clone(&self) -> (r: Self)
        ensures
            r.deep_view() == self.deep_view(),
    {
        let nodes = self.nodes.clone();
        let initializers = self.initializers.clone();
        let sparse = self.sparse_initializers_raw.clone();
        let inputs = self.inputs.clone();
        let outputs = self.outputs.clone();
        let value_info = self.value_info.clone();
        let quant = self.quantization_annotations_raw.clone();
        proof {
            assert(nodes.deep_view() =~= self.nodes.deep_view());
            assert(initializers.deep_view() =~= self.initializers.deep_view());
            assert(sparse.deep_view() =~= self.sparse_initializers_raw.deep_view());
            assert(inputs.deep_view() =~= self.inputs.deep_view());
            assert(outputs.deep_view() =~= self.outputs.deep_view());
            assert(value_info.deep_view() =~= self.value_info.deep_view());
            assert(quant.deep_view() =~= self.quantization_annotations_raw.deep_view());
        }
        Graph {
            name: self.name.clone(),
            nodes,
            initializers,
            sparse_initializers_raw: sparse,
            inputs,
            outputs,
            value_info,
            quantization_annotations_raw: quant,
            metadata: copy_pairs(&self.metadata),
            doc_string: self.doc_string.clone(),
        }
    }
}

/// A graph with the given name and nothing in it.
pub open spec fn spec_empty_graph(name: Seq<char>) -> GraphSpec {
    GraphSpec {
        name,
        nodes: Seq::empty(),
        initializers: Seq::empty(),
        sparse_initializers_raw: Seq::empty(),
        inputs: Seq::empty(),
        outputs: Seq::empty(),
        value_info: Seq::empty(),
        quantization_annotations_raw: Seq::empty(),
        metadata: Seq::empty(),
        doc_string: Seq::empty(),
    }
}

impl Graph {
    /// An empty graph with the given name.
    pub fn new(name: String) -> (r: Self)
        ensures
            r.deep_view() == spec_empty_graph(name@),
    {
        let r = Graph {
            name,
            nodes: Vec::new(),
            initializers: Vec::new(),
            sparse_initializers_raw: Vec::new(),
            inputs: Vec::new(),
            outputs: Vec::new(),
            value_info: Vec::new(),
            quantization_annotations_raw: Vec::new(),
            metadata: Vec::new(),
            doc_string: String::new(),
        };
        proof {
            assert(r.nodes.deep_view() =~= Seq::<NodeSpec>::empty());
            assert(r.initializers.deep_view() =~= Seq::<TensorSpec>::empty());
            assert(r.sparse_initializers_raw.deep_view() =~= Seq::<SparseTensorRawSpec>::empty());
            assert(r.inputs.deep_view() =~= Seq::<ValueInfoSpec>::empty());
            assert(r.outputs.deep_view() =~= Seq::<ValueInfoSpec>::empty());
            assert(r.value_info.deep_view() =~= Seq::<ValueInfoSpec>::empty());
            assert(r.quantization_annotations_raw.deep_view() =~= Seq::<
                Seq<(Seq<char>, Seq<char>)>,
            >::empty());
            assert(r.metadata.deep_view() =~= Seq::<(Seq<char>, Seq<char>)>::empty());
        }
        r
    }

    /// The names of the initializers, in order.
    pub open spec fn initializer_names(self) -> Seq<Seq<char>> {
        self.initializers@.map_values(|t: Tensor| t.name@)
    }

    /// The names of the `value_info` entries, in order.
    pub open spec fn value_info_names(self) -> Seq<Seq<char>> {
        self.value_info@.map_values(|v: ValueInfo| v.name@)
    }

    /// The first initializer with the given name.
    pub fn initializer(&self, name: &str) -> (r: Option<&Tensor>)
        ensures
            match first_named(self.initializer_names(), name@) {
                Some(i) => r == Some(&self.initializers@[i]),
                None => r is None,
            },
    {
        let mut i: usize = 0;
        while i < self.initializers.len()
            invariant
                0 <= i <= self.initializers.len(),
                forall|j: int| 0 <= j < i ==> self.initializer_names()[j] != name@,
            decreases self.initializers.len() - i,
        {
            if str_eq(self.initializers[i].name.as_str(), name) {
                proof {
                    lemma_first_named(self.initializer_names(), name@, i as int);
                }
                return Some(&self.initializers[i]);
            }
            i = i + 1;
        }
        proof {
            lemma_first_named(self.initializer_names(), name@, i as int);
        }
        None
    }

    /// The first `value_info` entry with the given name.
    pub fn value_info(&self, name: &str) -> (r: Option<&ValueInfo>)
        ensures
            match first_named(self.value_info_names(), name@) {
                Some(i) => r == Some(&self.value_info@[i]),
                None => r is None,
            },
    {
        let mut i: usize = 0;
        while i < self.value_info.len()
            invariant
                0 <= i <= self.value_info.len(),
                forall|j: int| 0 <= j < i ==> self.value_info_names()[j] != name@,
            decreases self.value_info.len() - i,
        {
            if str_eq(self.value_info[i].name.as_str(), name) {
                proof {
                    lemma_first_named(self.value_info_names(), name@, i as int);
                }
                return Some(&self.value_info[i]);
            }
            i = i + 1;
        }
        proof {
            lemma_first_named(self.value_info_names(), name@, i as int);
        }
        None
    }
}

/// Mathematical model of [`FunctionRaw`].
pub struct FunctionRawSpec {
    pub domain: Seq<char>,
    pub name: Seq<char>,
    pub overload: Seq<char>,
    pub proto: Seq<u8>,
}

/// A model-local function kept as raw `FunctionProto` bytes.
#[derive(Debug, PartialEq)]
pub struct FunctionRaw {
    pub domain: String,
    pub name: String,
    pub overload: String,
    pub proto: Vec<u8>,
}

impl DeepView for FunctionRaw {
    type V = FunctionRawSpec;

    open spec fn deep_view(&self) -> FunctionRawSpec {
        FunctionRawSpec {
            domain: self.domain@,
            name: self.name@,
            overload: self.overload@,
            proto: self.proto@,
        }
    }
}

impl Clone for FunctionRaw {
    fn clone(&self) -> (r: Self)
        ensures
            r.deep_view() == self.deep_view(),
    {
        let proto = self.proto.clone();
        proof {
            assert(proto@ =~= self.proto@);
        }
        FunctionRaw {
            domain: self.domain.clone(),
            name: self.name.clone(),
            overload: self.overload.clone(),
            proto,
        }
    }
}

/// A training-info entry kept as raw `TrainingInfoProto` bytes.
#[derive(Debug, PartialEq)]
pub struct TrainingInfoRaw {
    pub proto: Vec<u8>,
}

impl DeepView for TrainingInfoRaw {
    type V = Seq<u8>;

    open spec fn deep_view(&self) -> Seq<u8> {
        self.proto@
    }
}

impl Clone for TrainingInfoRaw {
    fn clone(&self) -> (r: Self)
        ensures
            r.deep_view() == self.deep_view(),
    {
        let proto = self.proto.clone();
        proof {
            assert(proto@ =~= self.proto@);
        }
        TrainingInfoRaw { proto }
    }
}

/// Mathematical model of [`DeviceConfiguration`].
pub struct DeviceConfigurationSpec {
    pub name: Seq<char>,
    pub num_devices: i32,
    pub devices: Seq<Seq<char>>,
}

/// A device configuration of the model.
#[derive(Debug, PartialEq)]
pub struct DeviceConfiguration {
    pub name: String,
    pub num_devices: i32,
    pub devices: Vec<String>,
}

impl DeepView for DeviceConfiguration {
    type V = DeviceConfigurationSpec;

    open spec fn deep_view(&self) -> DeviceConfigurationSpec {
        DeviceConfigurationSpec {
            name: self.name@,
            num_devices: self.num_devices,
            devices: self.devices.deep_view(),
        }
    }
}

impl Clone for DeviceConfiguration {
    fn clone(&self) -> (r: Self)
        ensures
            r.deep_view() == self.deep_view(),
    {
        let devices = self.devices.clone();
        proof {
            assert(devices.deep_view() =~= self.devices.deep_view());
        }
        DeviceConfiguration { name: self.name.clone(), num_devices: self.num_devices, devices }
    }
}

/// Mathematical model of [`OpsetId`].
pub struct OpsetIdSpec {
    pub domain: Seq<char>,
    pub version: i64,
}

/// An operator set a model imports.
#[derive(Debug, PartialEq, Eq, Hash)]
pub struct OpsetId {
    pub domain: String,
    pub version: i64,
}

impl DeepView for OpsetId {
    type V = OpsetIdSpec;

    open spec fn deep_view(&self) -> OpsetIdSpec {
        OpsetIdSpec { domain: self.domain@, version: self.version }
    }
}

impl Clone for OpsetId {
    fn clone(&self) -> (r: Self)
        ensures
            r.deep_view() == self.deep_view(),
    {
        OpsetId { domain: self.domain.clone(), version: self.version }
    }
}

/// Mathematical model of [`Model`].
#[verifier::ext_equal]
pub struct ModelSpec {
    pub ir_version: i64,
    pub opset_import: Seq<OpsetIdSpec>,
    pub producer_name: Seq<char>,
    pub producer_version: Seq<char>,
    pub domain: Seq<char>,
    pub model_version: i64,
    pub doc_string: Seq<char>,
    pub metadata: Seq<(Seq<char>, Seq<char>)>,
    pub graph: GraphSpec,
    pub functions_raw: Seq<FunctionRawSpec>,
    pub training_info_raw: Seq<Seq<u8>>,
    pub configurations: Seq<DeviceConfigurationSpec>,
}

/// An ONNX model: a main graph and the operator sets it imports.
#[derive(Debug, PartialEq)]
pub struct Model {
    pub ir_version: i64,
    pub opset_import: Vec<OpsetId>,
    pub producer_name: String,
    pub producer_version: String,
    pub domain: String,
    pub model_version: i64,
    pub doc_string: String,
    pub metadata: Vec<(String, String)>,
    pub graph: Graph,
    pub functions_raw: Vec<FunctionRaw>,
    pub training_info_raw: Vec<TrainingInfoRaw>,
    pub configurations: Vec<DeviceConfiguration>,
}

impl DeepView for Model {
    type V = ModelSpec;

    open spec fn deep_view(&self) -> ModelSpec {
        ModelSpec {
            ir_version: self.ir_version,
            opset_import: self.opset_import.deep_view(),
            producer_name: self.producer_name@,
            producer_version: self.producer_version@,
            domain: self.domain@,
            model_version: self.model_version,
            doc_string: self.doc_string@,
            metadata: self.metadata.deep_view(),
            graph: self.graph.deep_view(),
            functions_raw: self.functions_raw.deep_view(),
            training_info_raw: self.training_info_raw.deep_view(),
            configurations: self.configurations.deep_view(),
        }
    }
}

impl Clone for Model {
    fn clone(&self) -> (r: Self)
        ensures
            r.deep_view() == self.deep_view(),
    {
        let opset_import = self.opset_import.clone();
        let functions_raw = self.functions_raw.clone();
        let training_info_raw = self.training_info_raw.clone();
        let configurations = self.configurations.clone();
        proof {
            assert(opset_import.deep_view() =~= self.opset_import.deep_view());
            assert(functions_raw.deep_view() =~= self.functions_raw.deep_view());
            assert(training_info_raw.deep_view() =~= self.training_info_raw.deep_view());
            assert(configurations.deep_view() =~= self.configurations.deep_view());
        }
        Model {
            ir_version: self.ir_version,
            opset_import,
            producer_name: self.producer_name.clone(),
            producer_version: self.producer_version.clone(),
            domain: self.domain.clone(),
            model_version: self.model_version,
            doc_string: self.doc_string.clone(),
            metadata: copy_pairs(&self.metadata),
            graph: self.graph.clone(),
            functions_raw,
            training_info_raw,
            configurations,
        }
    }
}

impl Model {
    /// A model of the given graph importing the given operator sets, with
    /// this library as producer and the library's IR version.
    pub fn new(graph: Graph, opset_import: Vec<OpsetId>) -> (r: Self)
        ensures
            r.deep_view() == (ModelSpec {
                ir_version: IR_VERSION,
                opset_import: opset_import.deep_view(),
                producer_name: "serde-onnx"@,
                producer_version: PRODUCER_VERSION@,
                domain: Seq::empty(),
                model_version: 0,
                doc_string: Seq::empty(),
                metadata: Seq::empty(),
                graph: graph.deep_view(),
                functions_raw: Seq::empty(),
                training_info_raw: Seq::empty(),
                configurations: Seq::empty(),
            }),
    {
        let r = Model {
            ir_version: IR_VERSION,
            opset_import,
            producer_name: String::from_str("serde-onnx"),
            producer_version: String::from_str(PRODUCER_VERSION),
            domain: String::new(),
            model_version: 0,
            doc_string: String::new(),
            metadata: Vec::new(),
            graph,
            functions_raw: Vec::new(),
            training_info_raw: Vec::new(),
            configurations: Vec::new(),
        };
        proof {
            assert(r.metadata.deep_view() =~= Seq::<(Seq<char>, Seq<char>)>::empty());
            assert(r.functions_raw.deep_view() =~= Seq::<FunctionRawSpec>::empty());
            assert(r.training_info_raw.deep_view() =~= Seq::<Seq<u8>>::empty());
            assert(r.configurations.deep_view() =~= Seq::<DeviceConfigurationSpec>::empty());
        }
        r
    }

    /// The domains of the imported operator sets, in order.
    pub open spec fn opset_domains(self) -> Seq<Seq<char>> {
        self.opset_import@.map_values(|o: OpsetId| o.domain@)
    }

    /// The version of the first imported operator set of the given domain.
    pub fn opset(&self, domain: &str) -> (r: Option<i64>)
        ensures
            match first_named(self.opset_domains(), domain@) {
                Some(i) => r == Some(self.opset_import@[i].version),
                None => r is None,
            },
    {
        let mut i: usize = 0;
        while i < self.opset_import.len()
            invariant
                0 <= i <= self.opset_import.len(),
                forall|j: int| 0 <= j < i ==> self.opset_domains()[j] != domain@,
            decreases self.opset_import.len() - i,
        {
            if str_eq(self.opset_import[i].domain.as_str(), domain) {
                proof {
                    lemma_first_named(self.opset_domains(), domain@, i as int);
                }
                return Some(self.opset_import[i].version);
            }
            i = i + 1;
        }
        proof {
            lemma_first_named(self.opset_domains(), domain@, i as int);
        }
        None
    }
}

} // verus!
