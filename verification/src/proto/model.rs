//! Conversion of graphs and models between the intermediate representation
//! and their messages.
use super::codec::{
    collect_results, decode_value_info, encode_tensor, encode_value_info,
    lemma_collect_error, lemma_collect_step, outcome, spec_decode_value_info,
    spec_encode_value_info, spec_supported_opset, supported_opset, ProtoCodecError,
    ProtoCodecErrorSpec, SUPPORTED_IR_VERSION,
};
use super::nodes::{
    decode_node, decode_tensors, encode_node, spec_decode_node, spec_decode_tensors,
    spec_encode_node, spec_encode_tensors,
};
use super::{
    DeviceConfigurationProto, EmbeddedMessage, EmbeddedMessageSpec, FunctionProtoRef,
    FunctionProtoRefSpec, GraphProto, GraphProtoSpec, ModelProto, ModelProtoSpec, NodeProto,
    NodeProtoSpec, OperatorSetIdProto, TensorProto, ValueInfoProto, ValueInfoProtoSpec,
};
use crate::ir::{
    copy_pairs, DeviceConfiguration, FunctionRaw, FunctionRawSpec, Graph, GraphSpec, Model,
    ModelSpec, Node, NodeSpec, OpsetId, OpsetIdSpec, RawKvEntries, SparseTensorRaw,
    SparseTensorRawSpec, Tensor, TrainingInfoRaw, ValueInfo, ValueInfoSpec,
};
use vstd::prelude::*;

verus! {

/// The messages of a list of nodes.
pub open spec fn spec_encode_nodes(v: Seq<NodeSpec>) -> Seq<NodeProtoSpec> {
    v.map_values(|n: NodeSpec| spec_encode_node(n))
}

/// The messages of a list of value infos.
pub open spec fn spec_encode_value_infos(v: Seq<ValueInfoSpec>) -> Seq<ValueInfoProtoSpec> {
    v.map_values(|vi: ValueInfoSpec| spec_encode_value_info(vi))
}

/// The nodes of a list of messages, or the first error.
pub open spec fn spec_decode_nodes(ps: Seq<NodeProtoSpec>) -> Result<
    Seq<NodeSpec>,
    ProtoCodecErrorSpec,
> {
    collect_results(ps, |p: NodeProtoSpec| spec_decode_node(p))
}

/// The value infos of a list of messages, or the first error.
pub open spec fn spec_decode_value_infos(ps: Seq<ValueInfoProtoSpec>) -> Result<
    Seq<ValueInfoSpec>,
    ProtoCodecErrorSpec,
> {
    collect_results(ps, |p: ValueInfoProtoSpec| spec_decode_value_info(p))
}

/// A sparse initializer as an embedded message.
pub open spec fn sparse_message(s: SparseTensorRawSpec) -> EmbeddedMessageSpec {
    EmbeddedMessageSpec { name: s.name, bytes: s.proto }
}

/// A sparse initializer of an embedded message.
pub open spec fn sparse_raw(m: EmbeddedMessageSpec) -> SparseTensorRawSpec {
    SparseTensorRawSpec { name: m.name, proto: m.bytes }
}

/// The message of a graph: each part written as its message.
pub open spec fn spec_encode_graph(g: GraphSpec) -> GraphProtoSpec {
    GraphProtoSpec {
        node: spec_encode_nodes(g.nodes),
        name: g.name,
        initializer: spec_encode_tensors(g.initializers),
        sparse_initializer: g.sparse_initializers_raw.map_values(
            |s: SparseTensorRawSpec| sparse_message(s),
        ),
        doc_string: g.doc_string,
        input: spec_encode_value_infos(g.inputs),
        output: spec_encode_value_infos(g.outputs),
        value_info: spec_encode_value_infos(g.value_info),
        quantization_annotation: g.quantization_annotations_raw,
        metadata_props: g.metadata,
    }
}

/// The graph of a message. Its parts are read in this order, and the first
/// one that cannot be read is the error: initializers, nodes, inputs,
/// outputs, value infos.
pub open spec fn spec_decode_graph(p: GraphProtoSpec) -> Result<GraphSpec, ProtoCodecErrorSpec> {
    match spec_decode_tensors(p.initializer) {
        Err(e) => Err(e),
        Ok(initializers) => match spec_decode_nodes(p.node) {
            Err(e) => Err(e),
            Ok(nodes) => match spec_decode_value_infos(p.input) {
                Err(e) => Err(e),
                Ok(inputs) => match spec_decode_value_infos(p.output) {
                    Err(e) => Err(e),
                    Ok(outputs) => match spec_decode_value_infos(p.value_info) {
                        Err(e) => Err(e),
                        Ok(value_info) => Ok(
                            GraphSpec {
                                name: p.name,
                                nodes,
                                initializers,
                                sparse_initializers_raw: p.sparse_initializer.map_values(
                                    |m: EmbeddedMessageSpec| sparse_raw(m),
                                ),
                                inputs,
                                outputs,
                                value_info,
                                quantization_annotations_raw: p.quantization_annotation,
                                metadata: p.metadata_props,
                                doc_string: p.doc_string,
                            },
                        ),
                    },
                },
            },
        },
    }
}

/// The messages of a list of nodes.
fn encode_nodes(v: &Vec<Node>) -> (r: Vec<NodeProto>)
    ensures
        r.deep_view() == spec_encode_nodes(v.deep_view()),
{
    let mut r: Vec<NodeProto> = Vec::new();
    let mut i: usize = 0;
    while i < v.len()
        invariant
            0 <= i <= v@.len(),
            r.deep_view() == spec_encode_nodes(v.deep_view().take(i as int)),
        decreases v@.len() - i,
    {
        let ghost before = r.deep_view();
        let p = encode_node(&v[i]);
        r.push(p);
        proof {
            assert(r.deep_view() =~= before.push(spec_encode_node(v.deep_view()[i as int])));
            assert(v.deep_view().take(i + 1) =~= v.deep_view().take(i as int).push(
                v.deep_view()[i as int],
            ));
            assert(r.deep_view() =~= spec_encode_nodes(v.deep_view().take(i + 1)));
        }
        i = i + 1;
    }
    proof {
        assert(v.deep_view().take(i as int) =~= v.deep_view());
    }
    r
}

/// The messages of a list of tensors.
fn encode_initializers(v: &Vec<Tensor>) -> (r: Vec<TensorProto>)
    ensures
        r.deep_view() == spec_encode_tensors(v.deep_view()),
{
    let mut r: Vec<TensorProto> = Vec::new();
    let mut i: usize = 0;
    while i < v.len()
        invariant
            0 <= i <= v@.len(),
            r.deep_view() == spec_encode_tensors(v.deep_view().take(i as int)),
        decreases v@.len() - i,
    {
        let ghost before = r.deep_view();
        let p = encode_tensor(&v[i]);
        r.push(p);
        proof {
            assert(r.deep_view() =~= before.push(
                super::codec::spec_encode_tensor(v.deep_view()[i as int]),
            ));
            assert(v.deep_view().take(i + 1) =~= v.deep_view().take(i as int).push(
                v.deep_view()[i as int],
            ));
            assert(r.deep_view() =~= spec_encode_tensors(v.deep_view().take(i + 1)));
        }
        i = i + 1;
    }
    proof {
        assert(v.deep_view().take(i as int) =~= v.deep_view());
    }
    r
}

/// The messages of a list of value infos.
fn encode_value_infos(v: &Vec<ValueInfo>) -> (r: Vec<ValueInfoProto>)
    ensures
        r.deep_view() == spec_encode_value_infos(v.deep_view()),
{
    let mut r: Vec<ValueInfoProto> = Vec::new();
    let mut i: usize = 0;
    while i < v.len()
        invariant
            0 <= i <= v@.len(),
            r.deep_view() == spec_encode_value_infos(v.deep_view().take(i as int)),
        decreases v@.len() - i,
    {
        let ghost before = r.deep_view();
        let p = encode_value_info(&v[i]);
        r.push(p);
        proof {
            assert(r.deep_view() =~= before.push(spec_encode_value_info(v.deep_view()[i as int])));
            assert(v.deep_view().take(i + 1) =~= v.deep_view().take(i as int).push(
                v.deep_view()[i as int],
            ));
            assert(r.deep_view() =~= spec_encode_value_infos(v.deep_view().take(i + 1)));
        }
        i = i + 1;
    }
    proof {
        assert(v.deep_view().take(i as int) =~= v.deep_view());
    }
    r
}

/// The sparse initializers as embedded messages.
fn sparse_messages(v: &Vec<SparseTensorRaw>) -> (r: Vec<EmbeddedMessage>)
    ensures
        r.deep_view() == v.deep_view().map_values(|s: SparseTensorRawSpec| sparse_message(s)),
{
    let mut r: Vec<EmbeddedMessage> = Vec::new();
    let mut i: usize = 0;
    while i < v.len()
        invariant
            0 <= i <= v@.len(),
            r.deep_view() == v.deep_view().take(i as int).map_values(
                |s: SparseTensorRawSpec| sparse_message(s),
            ),
        decreases v@.len() - i,
    {
        let ghost before = r.deep_view();
        let m = EmbeddedMessage { name: v[i].name.clone(), bytes: v[i].proto.clone() };
        proof {
            assert(m.deep_view() == sparse_message(v.deep_view()[i as int]));
        }
        r.push(m);
        proof {
            assert(r.deep_view() =~= before.push(sparse_message(v.deep_view()[i as int])));
            assert(v.deep_view().take(i + 1) =~= v.deep_view().take(i as int).push(
                v.deep_view()[i as int],
            ));
            assert(r.deep_view() =~= v.deep_view().take(i + 1).map_values(
                |s: SparseTensorRawSpec| sparse_message(s),
            ));
        }
        i = i + 1;
    }
    proof {
        assert(v.deep_view().take(i as int) =~= v.deep_view());
    }
    r
}

/// The sparse initializers of embedded messages.
fn sparse_raws(v: &Vec<EmbeddedMessage>) -> (r: Vec<SparseTensorRaw>)
    ensures
        r.deep_view() == v.deep_view().map_values(|m: EmbeddedMessageSpec| sparse_raw(m)),
{
    let mut r: Vec<SparseTensorRaw> = Vec::new();
    let mut i: usize = 0;
    while i < v.len()
        invariant
            0 <= i <= v@.len(),
            r.deep_view() == v.deep_view().take(i as int).map_values(
                |m: EmbeddedMessageSpec| sparse_raw(m),
            ),
        decreases v@.len() - i,
    {
        let ghost before = r.deep_view();
        let s = SparseTensorRaw { name: v[i].name.clone(), proto: v[i].bytes.clone() };
        proof {
            assert(s.deep_view() == sparse_raw(v.deep_view()[i as int]));
        }
        r.push(s);
        proof {
            assert(r.deep_view() =~= before.push(sparse_raw(v.deep_view()[i as int])));
            assert(v.deep_view().take(i + 1) =~= v.deep_view().take(i as int).push(
                v.deep_view()[i as int],
            ));
            assert(r.deep_view() =~= v.deep_view().take(i + 1).map_values(
                |m: EmbeddedMessageSpec| sparse_raw(m),
            ));
        }
        i = i + 1;
    }
    proof {
        assert(v.deep_view().take(i as int) =~= v.deep_view());
    }
    r
}

/// The entries of each quantization annotation.
fn annotation_entries(v: &Vec<RawKvEntries>) -> (r: Vec<Vec<(String, String)>>)
    ensures
        r.deep_view() == v.deep_view(),
{
    let mut r: Vec<Vec<(String, String)>> = Vec::new();
    let mut i: usize = 0;
    while i < v.len()
        invariant
            0 <= i <= v@.len(),
            r.deep_view() == v.deep_view().take(i as int),
        decreases v@.len() - i,
    {
        let ghost before = r.deep_view();
        let e = copy_pairs(&v[i].entries);
        r.push(e);
        proof {
            assert(r.deep_view() =~= before.push(v.deep_view()[i as int]));
            assert(r.deep_view() =~= v.deep_view().take(i + 1));
        }
        i = i + 1;
    }
    proof {
        assert(v.deep_view().take(i as int) =~= v.deep_view());
    }
    r
}

/// Quantization annotations of their entries.
fn annotations_of(v: &Vec<Vec<(String, String)>>) -> (r: Vec<RawKvEntries>)
    ensures
        r.deep_view() == v.deep_view(),
{
    let mut r: Vec<RawKvEntries> = Vec::new();
    let mut i: usize = 0;
    while i < v.len()
        invariant
            0 <= i <= v@.len(),
            r.deep_view() == v.deep_view().take(i as int),
        decreases v@.len() - i,
    {
        let ghost before = r.deep_view();
        let e = RawKvEntries { entries: copy_pairs(&v[i]) };
        r.push(e);
        proof {
            assert(r.deep_view() =~= before.push(v.deep_view()[i as int]));
            assert(r.deep_view() =~= v.deep_view().take(i + 1));
        }
        i = i + 1;
    }
    proof {
        assert(v.deep_view().take(i as int) =~= v.deep_view());
    }
    r
}

/// The message of a graph.
pub fn encode_graph(g: &Graph) -> (r: GraphProto)
    ensures
        r.deep_view() == spec_encode_graph(g.deep_view()),
{
    let r = GraphProto {
        node: encode_nodes(&g.nodes),
        name: g.name.clone(),
        initializer: encode_initializers(&g.initializers),
        sparse_initializer: sparse_messages(&g.sparse_initializers_raw),
        doc_string: g.doc_string.clone(),
        input: encode_value_infos(&g.inputs),
        output: encode_value_infos(&g.outputs),
        value_info: encode_value_infos(&g.value_info),
        quantization_annotation: annotation_entries(&g.quantization_annotations_raw),
        metadata_props: copy_pairs(&g.metadata),
    };
    proof {
        assert(r.deep_view() =~= spec_encode_graph(g.deep_view()));
    }
    r
}

/// The nodes of a list of messages, or the first error.
fn decode_nodes(ps: &Vec<NodeProto>) -> (r: Result<Vec<Node>, ProtoCodecError>)
    ensures
        outcome(r, spec_decode_nodes(ps.deep_view())),
{
    let ghost f = |p: NodeProtoSpec| spec_decode_node(p);
    let mut out: Vec<Node> = Vec::new();
    let mut i: usize = 0;
    proof {
        assert(ps.deep_view().take(0) =~= Seq::<NodeProtoSpec>::empty());
        assert(out.deep_view() =~= Seq::<NodeSpec>::empty());
    }
    while i < ps.len()
        invariant
            0 <= i <= ps@.len(),
            f == (|p: NodeProtoSpec| spec_decode_node(p)),
            collect_results(ps.deep_view().take(i as int), f) == Ok::<
                Seq<NodeSpec>,
                ProtoCodecErrorSpec,
            >(out.deep_view()),
        decreases ps@.len() - i,
    {
        let ghost done = out.deep_view();
        match decode_node(&ps[i]) {
            Ok(n) => {
                proof {
                    lemma_collect_step(ps.deep_view(), f, i as int, done, n.deep_view());
                }
                out.push(n);
                proof {
                    assert(out.deep_view() =~= done.push(n.deep_view()));
                }
            },
            Err(e) => {
                proof {
                    lemma_collect_error(ps.deep_view(), f, i as int, done, e.deep_view());
                }
                return Err(e);
            },
        }
        i = i + 1;
    }
    proof {
        assert(ps.deep_view().take(i as int) =~= ps.deep_view());
    }
    Ok(out)
}

/// The value infos of a list of messages, or the first error.
fn decode_value_infos(ps: &Vec<ValueInfoProto>) -> (r: Result<Vec<ValueInfo>, ProtoCodecError>)
    ensures
        outcome(r, spec_decode_value_infos(ps.deep_view())),
{
    let ghost f = |p: ValueInfoProtoSpec| spec_decode_value_info(p);
    let mut out: Vec<ValueInfo> = Vec::new();
    let mut i: usize = 0;
    proof {
        assert(ps.deep_view().take(0) =~= Seq::<ValueInfoProtoSpec>::empty());
        assert(out.deep_view() =~= Seq::<ValueInfoSpec>::empty());
    }
    while i < ps.len()
        invariant
            0 <= i <= ps@.len(),
            f == (|p: ValueInfoProtoSpec| spec_decode_value_info(p)),
            collect_results(ps.deep_view().take(i as int), f) == Ok::<
                Seq<ValueInfoSpec>,
                ProtoCodecErrorSpec,
            >(out.deep_view()),
        decreases ps@.len() - i,
    {
        let ghost done = out.deep_view();
        match decode_value_info(&ps[i]) {
            Ok(v) => {
                proof {
                    lemma_collect_step(ps.deep_view(), f, i as int, done, v.deep_view());
                }
                out.push(v);
                proof {
                    assert(out.deep_view() =~= done.push(v.deep_view()));
                }
            },
            Err(e) => {
                proof {
                    lemma_collect_error(ps.deep_view(), f, i as int, done, e.deep_view());
                }
                return Err(e);
            },
        }
        i = i + 1;
    }
    proof {
        assert(ps.deep_view().take(i as int) =~= ps.deep_view());
    }
    Ok(out)
}

/// The graph of a message.
pub fn decode_graph(p: &GraphProto) -> (r: Result<Graph, ProtoCodecError>)
    ensures
        outcome(r, spec_decode_graph(p.deep_view())),
{
    let initializers = match decode_tensors(&p.initializer) {
        Ok(v) => v,
        Err(e) => {
            return Err(e);
        },
    };
    let nodes = match decode_nodes(&p.node) {
        Ok(v) => v,
        Err(e) => {
            return Err(e);
        },
    };
    let inputs = match decode_value_infos(&p.input) {
        Ok(v) => v,
        Err(e) => {
            return Err(e);
        },
    };
    let outputs = match decode_value_infos(&p.output) {
        Ok(v) => v,
        Err(e) => {
            return Err(e);
        },
    };
    let value_info = match decode_value_infos(&p.value_info) {
        Ok(v) => v,
        Err(e) => {
            return Err(e);
        },
    };
    let g = Graph {
        name: p.name.clone(),
        nodes,
        initializers,
        sparse_initializers_raw: sparse_raws(&p.sparse_initializer),
        inputs,
        outputs,
        value_info,
        quantization_annotations_raw: annotations_of(&p.quantization_annotation),
        metadata: copy_pairs(&p.metadata_props),
        doc_string: p.doc_string.clone(),
    };
    proof {
        let s = spec_decode_graph(p.deep_view());
        assert(s is Ok);
        assert(g.deep_view() =~= s->Ok_0);
    }
    Ok(g)
}

/// The message of a model-local function: its domain, name and overload,
/// and the encoding of the whole message that it was read from.
pub open spec fn function_message(f: FunctionRawSpec) -> FunctionProtoRefSpec {
    FunctionProtoRefSpec {
        domain: f.domain,
        name: f.name,
        overload: f.overload,
        encoded: f.proto,
    }
}

/// A model-local function of its message: its domain, name and overload,
/// and the encoding of the whole message.
pub open spec fn function_raw(m: FunctionProtoRefSpec) -> FunctionRawSpec {
    FunctionRawSpec { domain: m.domain, name: m.name, overload: m.overload, proto: m.encoded }
}

/// The message of a model: the graph and every other part written as its
/// message. A model-local function is written with the encoding of its
/// whole message.
pub open spec fn spec_encode_model(m: ModelSpec) -> ModelProtoSpec {
    ModelProtoSpec {
        ir_version: m.ir_version,
        opset_import: m.opset_import,
        producer_name: m.producer_name,
        producer_version: m.producer_version,
        domain: m.domain,
        model_version: m.model_version,
        doc_string: m.doc_string,
        graph: Some(spec_encode_graph(m.graph)),
        metadata_props: m.metadata,
        training_info: m.training_info_raw,
        functions: m.functions_raw.map_values(|f: FunctionRawSpec| function_message(f)),
        configuration: m.configurations,
    }
}

/// The error for an imported operator set whose domain the codec knows and
/// whose version is above the one it reads; the default domain is named
/// `ai.onnx`.
pub open spec fn opset_error(o: OpsetIdSpec) -> Option<ProtoCodecErrorSpec> {
    match spec_supported_opset(o.domain) {
        Some(supported) => if o.version > supported {
            Some(
                ProtoCodecErrorSpec::UnsupportedOpsetVersion {
                    domain: if o.domain.len() == 0 {
                        "ai.onnx"@
                    } else {
                        o.domain
                    },
                    declared: o.version,
                    supported,
                },
            )
        } else {
            None
        },
        None => None,
    }
}

/// The error of the first imported operator set that the codec does not
/// read, if any.
pub open spec fn first_opset_error(ops: Seq<OpsetIdSpec>) -> Option<ProtoCodecErrorSpec>
    decreases ops.len(),
{
    if ops.len() == 0 {
        None
    } else {
        match first_opset_error(ops.drop_last()) {
            Some(e) => Some(e),
            None => opset_error(ops.last()),
        }
    }
}

/// The model of a message. An IR version above the one the codec reads, then
/// an imported operator set it does not read, then a missing graph, then a
/// graph that cannot be read, is the error. A model-local function keeps the
/// encoding of its whole message.
pub open spec fn spec_decode_model(p: ModelProtoSpec) -> Result<ModelSpec, ProtoCodecErrorSpec> {
    if p.ir_version > SUPPORTED_IR_VERSION {
        Err(
            ProtoCodecErrorSpec::UnsupportedIrVersion {
                declared: p.ir_version,
                supported: SUPPORTED_IR_VERSION,
            },
        )
    } else if first_opset_error(p.opset_import) is Some {
        Err(first_opset_error(p.opset_import)->0)
    } else {
        match p.graph {
            None => Err(ProtoCodecErrorSpec::Protobuf("ModelProto without graph"@)),
            Some(g) => match spec_decode_graph(g) {
                Err(e) => Err(e),
                Ok(graph) => Ok(
                    ModelSpec {
                        ir_version: p.ir_version,
                        opset_import: p.opset_import,
                        producer_name: p.producer_name,
                        producer_version: p.producer_version,
                        domain: p.domain,
                        model_version: p.model_version,
                        doc_string: p.doc_string,
                        metadata: p.metadata_props,
                        graph,
                        functions_raw: p.functions.map_values(
                            |m: FunctionProtoRefSpec| function_raw(m),
                        ),
                        training_info_raw: p.training_info,
                        configurations: p.configuration,
                    },
                ),
            },
        }
    }
}

/// The messages of the imported operator sets, which carry the same parts.
fn opset_messages(v: &Vec<OpsetId>) -> (r: Vec<OperatorSetIdProto>)
    ensures
        r.deep_view() == v.deep_view(),
{
    let mut r: Vec<OperatorSetIdProto> = Vec::new();
    let mut i: usize = 0;
    while i < v.len()
        invariant
            0 <= i <= v@.len(),
            r.deep_view() == v.deep_view().take(i as int),
        decreases v@.len() - i,
    {
        let ghost before = r.deep_view();
        r.push(OperatorSetIdProto { domain: v[i].domain.clone(), version: v[i].version });
        proof {
            assert(r.deep_view() =~= before.push(v.deep_view()[i as int]));
            assert(r.deep_view() =~= v.deep_view().take(i + 1));
        }
        i = i + 1;
    }
    proof {
        assert(v.deep_view().take(i as int) =~= v.deep_view());
    }
    r
}

/// The imported operator sets of their messages.
fn opsets_of(v: &Vec<OperatorSetIdProto>) -> (r: Vec<OpsetId>)
    ensures
        r.deep_view() == v.deep_view(),
{
    let mut r: Vec<OpsetId> = Vec::new();
    let mut i: usize = 0;
    while i < v.len()
        invariant
            0 <= i <= v@.len(),
            r.deep_view() == v.deep_view().take(i as int),
        decreases v@.len() - i,
    {
        let ghost before = r.deep_view();
        r.push(OpsetId { domain: v[i].domain.clone(), version: v[i].version });
        proof {
            assert(r.deep_view() =~= before.push(v.deep_view()[i as int]));
            assert(r.deep_view() =~= v.deep_view().take(i + 1));
        }
        i = i + 1;
    }
    proof {
        assert(v.deep_view().take(i as int) =~= v.deep_view());
    }
    r
}

/// The messages of the device configurations, which carry the same parts.
fn configuration_messages(v: &Vec<DeviceConfiguration>) -> (r: Vec<DeviceConfigurationProto>)
    ensures
        r.deep_view() == v.deep_view(),
{
    let mut r: Vec<DeviceConfigurationProto> = Vec::new();
    let mut i: usize = 0;
    while i < v.len()
        invariant
            0 <= i <= v@.len(),
            r.deep_view() == v.deep_view().take(i as int),
        decreases v@.len() - i,
    {
        let ghost before = r.deep_view();
        let c = v[i].clone();
        r.push(DeviceConfigurationProto { name: c.name, num_devices: c.num_devices, device: c.devices });
        proof {
            assert(r.deep_view() =~= before.push(v.deep_view()[i as int]));
            assert(r.deep_view() =~= v.deep_view().take(i + 1));
        }
        i = i + 1;
    }
    proof {
        assert(v.deep_view().take(i as int) =~= v.deep_view());
    }
    r
}

/// The device configurations of their messages.
fn configurations_of(v: &Vec<DeviceConfigurationProto>) -> (r: Vec<DeviceConfiguration>)
    ensures
        r.deep_view() == v.deep_view(),
{
    let mut r: Vec<DeviceConfiguration> = Vec::new();
    let mut i: usize = 0;
    while i < v.len()
        invariant
            0 <= i <= v@.len(),
            r.deep_view() == v.deep_view().take(i as int),
        decreases v@.len() - i,
    {
        let ghost before = r.deep_view();
        let devices = v[i].device.clone();
        proof {
            assert(devices.deep_view() =~= v[i as int].device.deep_view());
        }
        r.push(DeviceConfiguration { name: v[i].name.clone(), num_devices: v[i].num_devices, devices });
        proof {
            assert(r.deep_view() =~= before.push(v.deep_view()[i as int]));
            assert(r.deep_view() =~= v.deep_view().take(i + 1));
        }
        i = i + 1;
    }
    proof {
        assert(v.deep_view().take(i as int) =~= v.deep_view());
    }
    r
}

/// The encoded training information entries.
fn training_bytes(v: &Vec<TrainingInfoRaw>) -> (r: Vec<Vec<u8>>)
    ensures
        r.deep_view() == v.deep_view(),
{
    let mut r: Vec<Vec<u8>> = Vec::new();
    let mut i: usize = 0;
    while i < v.len()
        invariant
            0 <= i <= v@.len(),
            r.deep_view() == v.deep_view().take(i as int),
        decreases v@.len() - i,
    {
        let ghost before = r.deep_view();
        let b = v[i].proto.clone();
        proof {
            assert(b.deep_view() =~= b@);
        }
        r.push(b);
        proof {
            assert(r.deep_view() =~= before.push(v.deep_view()[i as int]));
            assert(r.deep_view() =~= v.deep_view().take(i + 1));
        }
        i = i + 1;
    }
    proof {
        assert(v.deep_view().take(i as int) =~= v.deep_view());
    }
    r
}

/// Training information entries of their encodings.
fn training_of(v: &Vec<Vec<u8>>) -> (r: Vec<TrainingInfoRaw>)
    ensures
        r.deep_view() == v.deep_view(),
{
    let mut r: Vec<TrainingInfoRaw> = Vec::new();
    let mut i: usize = 0;
    while i < v.len()
        invariant
            0 <= i <= v@.len(),
            r.deep_view() == v.deep_view().take(i as int),
        decreases v@.len() - i,
    {
        let ghost before = r.deep_view();
        let b = v[i].clone();
        proof {
            assert(b@ =~= v[i as int]@);
            assert(v[i as int].deep_view() =~= v[i as int]@);
        }
        r.push(TrainingInfoRaw { proto: b });
        proof {
            assert(r.deep_view() =~= before.push(v.deep_view()[i as int]));
            assert(r.deep_view() =~= v.deep_view().take(i + 1));
        }
        i = i + 1;
    }
    proof {
        assert(v.deep_view().take(i as int) =~= v.deep_view());
    }
    r
}

/// The messages of the model-local functions.
fn function_messages(v: &Vec<FunctionRaw>) -> (r: Vec<FunctionProtoRef>)
    ensures
        r.deep_view() == v.deep_view().map_values(|f: FunctionRawSpec| function_message(f)),
{
    let mut r: Vec<FunctionProtoRef> = Vec::new();
    let mut i: usize = 0;
    while i < v.len()
        invariant
            0 <= i <= v@.len(),
            r.deep_view() == v.deep_view().take(i as int).map_values(
                |f: FunctionRawSpec| function_message(f),
            ),
        decreases v@.len() - i,
    {
        let ghost before = r.deep_view();
        let m = FunctionProtoRef {
            domain: v[i].domain.clone(),
            name: v[i].name.clone(),
            overload: v[i].overload.clone(),
            encoded: v[i].proto.clone(),
        };
        proof {
            assert(m.deep_view() =~= function_message(v.deep_view()[i as int]));
        }
        r.push(m);
        proof {
            assert(r.deep_view() =~= before.push(function_message(v.deep_view()[i as int])));
            assert(v.deep_view().take(i + 1) =~= v.deep_view().take(i as int).push(
                v.deep_view()[i as int],
            ));
            assert(r.deep_view() =~= v.deep_view().take(i + 1).map_values(
                |f: FunctionRawSpec| function_message(f),
            ));
        }
        i = i + 1;
    }
    proof {
        assert(v.deep_view().take(i as int) =~= v.deep_view());
    }
    r
}

/// The model-local functions of their messages.
fn functions_of(v: &Vec<FunctionProtoRef>) -> (r: Vec<FunctionRaw>)
    ensures
        r.deep_view() == v.deep_view().map_values(|m: FunctionProtoRefSpec| function_raw(m)),
{
    let mut r: Vec<FunctionRaw> = Vec::new();
    let mut i: usize = 0;
    while i < v.len()
        invariant
            0 <= i <= v@.len(),
            r.deep_view() == v.deep_view().take(i as int).map_values(
                |m: FunctionProtoRefSpec| function_raw(m),
            ),
        decreases v@.len() - i,
    {
        let ghost before = r.deep_view();
        let f = FunctionRaw {
            domain: v[i].domain.clone(),
            name: v[i].name.clone(),
            overload: v[i].overload.clone(),
            proto: v[i].encoded.clone(),
        };
        proof {
            assert(f.deep_view() =~= function_raw(v.deep_view()[i as int]));
        }
        r.push(f);
        proof {
            assert(r.deep_view() =~= before.push(function_raw(v.deep_view()[i as int])));
            assert(v.deep_view().take(i + 1) =~= v.deep_view().take(i as int).push(
                v.deep_view()[i as int],
            ));
            assert(r.deep_view() =~= v.deep_view().take(i + 1).map_values(
                |m: FunctionProtoRefSpec| function_raw(m),
            ));
        }
        i = i + 1;
    }
    proof {
        assert(v.deep_view().take(i as int) =~= v.deep_view());
    }
    r
}

/// The message of a model.
pub fn encode_model_proto(m: &Model) -> (r: ModelProto)
    ensures
        r.deep_view() == spec_encode_model(m.deep_view()),
{
    let r = ModelProto {
        ir_version: m.ir_version,
        opset_import: opset_messages(&m.opset_import),
        producer_name: m.producer_name.clone(),
        producer_version: m.producer_version.clone(),
        domain: m.domain.clone(),
        model_version: m.model_version,
        doc_string: m.doc_string.clone(),
        graph: Some(encode_graph(&m.graph)),
        metadata_props: copy_pairs(&m.metadata),
        training_info: training_bytes(&m.training_info_raw),
        functions: function_messages(&m.functions_raw),
        configuration: configuration_messages(&m.configurations),
    };
    proof {
        assert(r.deep_view() =~= spec_encode_model(m.deep_view()));
    }
    r
}

/// The first imported operator set that the codec does not read, as an
/// error.
fn check_opsets(ops: &Vec<OperatorSetIdProto>) -> (r: Result<(), ProtoCodecError>)
    ensures
        match first_opset_error(ops.deep_view()) {
            Some(e) => r matches Err(x) && x.deep_view() == e,
            None => r is Ok,
        },
{
    let mut i: usize = 0;
    proof {
        assert(ops.deep_view().take(0) =~= Seq::<OpsetIdSpec>::empty());
    }
    while i < ops.len()
        invariant
            0 <= i <= ops@.len(),
            first_opset_error(ops.deep_view().take(i as int)) is None,
        decreases ops@.len() - i,
    {
        let o = &ops[i];
        proof {
            assert(ops.deep_view().take(i + 1).drop_last() =~= ops.deep_view().take(i as int));
        }
        if let Some(supported) = supported_opset(o.domain.as_str()) {
            if o.version > supported {
                let domain = if o.domain.as_str().is_empty() {
                    String::from_str("ai.onnx")
                } else {
                    o.domain.clone()
                };
                proof {
                    lemma_first_opset_error(ops.deep_view(), i as int);
                }
                return Err(
                    ProtoCodecError::UnsupportedOpsetVersion {
                        domain,
                        declared: o.version,
                        supported,
                    },
                );
            }
        }
        i = i + 1;
    }
    proof {
        assert(ops.deep_view().take(i as int) =~= ops.deep_view());
    }
    Ok(())
}

/// Whether the codec refuses an imported operator set: it knows the domain
/// and the declared version is above the one it reads.
pub open spec fn opset_unsupported(o: OpsetIdSpec) -> bool {
    spec_supported_opset(o.domain) matches Some(s) && o.version > s
}

/// A list of operator sets has an error exactly when one of them is
/// refused, and then the first refused one gives the error.
proof fn lemma_first_opset_refused(ops: Seq<OpsetIdSpec>)
    ensures
        first_opset_error(ops) is Some <==> exists|i: int|
            0 <= i < ops.len() && opset_unsupported(#[trigger] ops[i]),
        forall|i: int|
            0 <= i < ops.len() && opset_unsupported(#[trigger] ops[i]) && (forall|j: int|
                0 <= j < i ==> !opset_unsupported(ops[j])) ==> first_opset_error(ops)
                == opset_error(ops[i]),
    decreases ops.len(),
{
    if ops.len() > 0 {
        let init = ops.drop_last();
        lemma_first_opset_refused(init);
        let n = ops.len() - 1;
        assert(opset_error(ops[n]) is Some <==> opset_unsupported(ops[n]));
        assert forall|i: int| 0 <= i < init.len() implies #[trigger] init[i] == ops[i] by {}
        if first_opset_error(ops) is Some {
            if first_opset_error(init) is Some {
                let i = choose|i: int| 0 <= i < init.len() && opset_unsupported(#[trigger] init[i]);
                assert(opset_unsupported(ops[i]));
            } else {
                assert(opset_unsupported(ops[n]));
            }
        }
        if exists|i: int| 0 <= i < ops.len() && opset_unsupported(#[trigger] ops[i]) {
            let i = choose|i: int| 0 <= i < ops.len() && opset_unsupported(#[trigger] ops[i]);
            if i < n {
                assert(opset_unsupported(init[i]));
            }
        }
        assert forall|i: int|
            0 <= i < ops.len() && opset_unsupported(#[trigger] ops[i]) && (forall|j: int|
                0 <= j < i ==> !opset_unsupported(ops[j])) implies first_opset_error(ops)
                == opset_error(ops[i]) by {
            if i < n {
                assert(opset_unsupported(init[i]));
                assert forall|j: int| 0 <= j < i implies !opset_unsupported(#[trigger] init[j]) by {
                    assert(init[j] == ops[j]);
                }
            } else {
                if first_opset_error(init) is Some {
                    let k = choose|k: int| 0 <= k < init.len() && opset_unsupported(#[trigger] init[k]);
                    assert(ops[k] == init[k]);
                    assert(!opset_unsupported(ops[k]));
                }
            }
        }
    }
}

/// Reading a model whose IR version the codec reads refuses it exactly when
/// one of its imported operator sets is refused, with the error of the
/// first such one: its domain (`ai.onnx` for the empty one), the declared
/// version and the version the codec reads.
pub proof fn lemma_opset_refusal(p: ModelProtoSpec)
    requires
        p.ir_version <= SUPPORTED_IR_VERSION,
    ensures
        first_opset_error(p.opset_import) is Some <==> exists|i: int|
            0 <= i < p.opset_import.len() && opset_unsupported(#[trigger] p.opset_import[i]),
        forall|i: int|
            0 <= i < p.opset_import.len() && opset_unsupported(#[trigger] p.opset_import[i])
                && (forall|j: int| 0 <= j < i ==> !opset_unsupported(p.opset_import[j]))
                ==> spec_decode_model(p) == Err::<ModelSpec, ProtoCodecErrorSpec>(
                ProtoCodecErrorSpec::UnsupportedOpsetVersion {
                    domain: if p.opset_import[i].domain.len() == 0 {
                        "ai.onnx"@
                    } else {
                        p.opset_import[i].domain
                    },
                    declared: p.opset_import[i].version,
                    supported: spec_supported_opset(p.opset_import[i].domain)->0,
                },
            ),
{
    lemma_first_opset_refused(p.opset_import);
}

/// The first operator set with an error decides the error of the list.
proof fn lemma_first_opset_error(ops: Seq<OpsetIdSpec>, i: int)
    requires
        0 <= i < ops.len(),
        first_opset_error(ops.take(i)) is None,
        opset_error(ops[i]) is Some,
    ensures
        first_opset_error(ops) == opset_error(ops[i]),
    decreases ops.len(),
{
    if ops.len() == i + 1 {
        assert(ops.drop_last() =~= ops.take(i));
    } else {
        assert(ops.drop_last().take(i) =~= ops.take(i));
        assert(ops.drop_last()[i] == ops[i]);
        lemma_first_opset_error(ops.drop_last(), i);
    }
}

/// The model of a message.
pub fn decode_model_proto(p: &ModelProto) -> (r: Result<Model, ProtoCodecError>)
    ensures
        outcome(r, spec_decode_model(p.deep_view())),
{
    if p.ir_version > SUPPORTED_IR_VERSION {
        return Err(
            ProtoCodecError::UnsupportedIrVersion {
                declared: p.ir_version,
                supported: SUPPORTED_IR_VERSION,
            },
        );
    }
    match check_opsets(&p.opset_import) {
        Ok(()) => {},
        Err(e) => {
            return Err(e);
        },
    }
    let graph = match &p.graph {
        Some(g) => match decode_graph(g) {
            Ok(graph) => graph,
            Err(e) => {
                return Err(e);
            },
        },
        None => {
            return Err(ProtoCodecError::Protobuf(String::from_str("ModelProto without graph")));
        },
    };
    let m = Model {
        ir_version: p.ir_version,
        opset_import: opsets_of(&p.opset_import),
        producer_name: p.producer_name.clone(),
        producer_version: p.producer_version.clone(),
        domain: p.domain.clone(),
        model_version: p.model_version,
        doc_string: p.doc_string.clone(),
        metadata: copy_pairs(&p.metadata_props),
        graph,
        functions_raw: functions_of(&p.functions),
        training_info_raw: training_of(&p.training_info),
        configurations: configurations_of(&p.configuration),
    };
    proof {
        let s = spec_decode_model(p.deep_view());
        assert(s is Ok);
        assert(m.deep_view() =~= s->Ok_0);
    }
    Ok(m)
}

} // verus!
