//! What reading back a written message gives: the model, for the models
//! whose every part the messages carry.
use super::codec::{
    blank_tensor_proto, expected_count, fixed_dims, fixed_shape, lemma_from_code,
    lemma_value_type_roundtrip, spec_decode_tensor, spec_decode_tensor_data, spec_decode_value_info,
    spec_encode_data, spec_encode_tensor, spec_encode_value_info, spec_encode_value_type,
    type_roundtrips,
    ProtoCodecErrorSpec, SUPPORTED_IR_VERSION,
};
use super::model::{
    first_opset_error, function_message, function_raw, spec_decode_graph, spec_decode_model,
    spec_decode_nodes, spec_decode_value_infos, spec_encode_graph, spec_encode_model,
    spec_encode_nodes, spec_encode_value_infos, sparse_message, sparse_raw,
};
use super::nodes::{
    embedded, graph_ref, spec_attribute_types, spec_decode_attribute, spec_decode_attributes,
    spec_decode_node, spec_decode_tensors, spec_encode_attribute, spec_encode_attributes,
    spec_encode_node, spec_encode_tensors, spec_encode_value_types, typed_code,
};
use super::{EmbeddedMessageSpec, TensorProtoSpec, TypeProtoSpec};
use crate::ir::tensor::lemma_external_entries_roundtrip;
use crate::ir::{
    AttributeSpec, AttributeValueSpec, DimSpec, FunctionRawSpec, GraphSpec, ModelSpec,
    NamedBytesSpec, NodeSpec, SparseTensorRawSpec, TensorDataSpec, TensorSpec, TensorStorageSpec,
    ValueInfoSpec, ValueTypeSpec,
};
use crate::text::{lemma_utf8_roundtrip, lenient_utf8};
use vstd::prelude::*;
use vstd::utf8::encode_utf8;

verus! {

// ---------------------------------------------------------------------------
// Tensors
// ---------------------------------------------------------------------------
/// Whether every dimension of a shape is fixed.
pub open spec fn all_fixed(shape: Seq<DimSpec>) -> bool {
    forall|i: int| 0 <= i < shape.len() ==> shape[i] is Fixed
}

/// Whether an element count agrees with the dimensions, as reading a tensor
/// checks it: a tensor without dimensions agrees with any count.
pub open spec fn count_fits(dims: Seq<i64>, n: nat) -> bool {
    dims.len() == 0 || n == expected_count(dims)
}

/// Whether inline data reads back from the field it is written to: its
/// element count must agree with the dimensions (complex data holding two
/// numbers per element), text must not be empty, and raw bytes must not be
/// empty and be of a type without fixed width.
pub open spec fn data_roundtrips(dims: Seq<i64>, d: TensorDataSpec) -> bool {
    match d {
        TensorDataSpec::String(v) => v.len() > 0 && count_fits(dims, v.len()),
        TensorDataSpec::RawBytes { elem, bytes } => bytes.len() > 0 && !elem.spec_is_fixed_width(),
        TensorDataSpec::F32(v) => count_fits(dims, v.len()),
        TensorDataSpec::F64(v) => count_fits(dims, v.len()),
        TensorDataSpec::I64(v) => count_fits(dims, v.len()),
        TensorDataSpec::U32(v) => count_fits(dims, v.len()),
        TensorDataSpec::U64(v) => count_fits(dims, v.len()),
        TensorDataSpec::Complex64(v) => v.len() % 2 == 0 && count_fits(dims, v.len() / 2),
        TensorDataSpec::Complex128(v) => v.len() % 2 == 0 && count_fits(dims, v.len() / 2),
        _ => match d.count() {
            Some(n) => count_fits(dims, n),
            None => true,
        },
    }
}

/// Whether a tensor reads back from its message: its dimensions are all
/// fixed, and inline data is of its element type and reads back.
pub open spec fn tensor_roundtrips(t: TensorSpec) -> bool {
    &&& all_fixed(t.shape)
    &&& match t.data {
        TensorStorageSpec::External(_) => true,
        TensorStorageSpec::Inline(d) => t.elem == d.elem() && data_roundtrips(fixed_dims(t.shape), d),
    }
}

/// The fixed dimensions of a shape whose dimensions are all fixed give the
/// shape back.
proof fn lemma_fixed_shape(shape: Seq<DimSpec>)
    requires
        all_fixed(shape),
    ensures
        fixed_shape(fixed_dims(shape)) == shape,
    decreases shape.len(),
{
    if shape.len() > 0 {
        let t = shape.drop_last();
        lemma_fixed_shape(t);
        let v = shape.last()->Fixed_0;
        assert(shape.last() == shape[shape.len() - 1]);
        assert(fixed_dims(shape) == fixed_dims(t) + seq![v]);
        assert(fixed_shape(fixed_dims(shape)) =~= fixed_shape(fixed_dims(t)).push(DimSpec::Fixed(v)));
        assert(shape =~= t.push(shape.last()));
    }
}

/// Text written as UTF-8 reads back.
proof fn lemma_text_roundtrip(v: Seq<Seq<char>>)
    ensures
        v.map_values(|s: Seq<char>| encode_utf8(s)).map_values(|b: Seq<u8>| lenient_utf8(b)) == v,
{
    assert forall|i: int| 0 <= i < v.len() implies lenient_utf8(encode_utf8(v[i])) == v[i] by {
        lemma_utf8_roundtrip(v[i]);
    }
    assert(v.map_values(|s: Seq<char>| encode_utf8(s)).map_values(|b: Seq<u8>| lenient_utf8(b))
        =~= v);
}

/// Non-empty text has a non-empty UTF-8 encoding.
proof fn lemma_text_nonempty(s: Seq<char>)
    requires
        s.len() > 0,
    ensures
        encode_utf8(s).len() > 0,
{
    lemma_utf8_roundtrip(s);
    if encode_utf8(s).len() == 0 {
        assert(encode_utf8(s) =~= Seq::<u8>::empty());
    }
}

/// Inline data reads back from the message it is written into.
#[verifier::rlimit(80)]
#[verifier::spinoff_prover]
proof fn lemma_data_roundtrip(
    d: TensorDataSpec,
    dims: Seq<i64>,
    code: i32,
    name: Seq<char>,
    doc: Seq<char>,
)
    requires
        data_roundtrips(dims, d),
    ensures
        spec_decode_tensor_data(d.elem(), spec_encode_data(d, blank_tensor_proto(dims, code, name, doc)), name)
            == Ok::<TensorDataSpec, ProtoCodecErrorSpec>(d),
{
    let b = blank_tensor_proto(dims, code, name, doc);
    match d {
        TensorDataSpec::String(v) => {
            lemma_text_roundtrip(v);
            assert(v.map_values(|s: Seq<char>| encode_utf8(s)).len() > 0);
        },
        TensorDataSpec::I8(v) => {
            assert(v.map_values(|x: i8| x as i32).map_values(|y: i32| y as i8) =~= v);
        },
        TensorDataSpec::I16(v) => {
            assert(v.map_values(|x: i16| x as i32).map_values(|y: i32| y as i16) =~= v);
        },
        TensorDataSpec::U8(v) => {
            assert(v.map_values(|x: u8| x as i32).map_values(|y: i32| y as u8) =~= v);
        },
        TensorDataSpec::U16(v) => {
            assert(v.map_values(|x: u16| x as i32).map_values(|y: i32| y as u16) =~= v);
        },
        TensorDataSpec::F16(v) => {
            assert(v.map_values(|x: u16| x as i32).map_values(|y: i32| y as u16) =~= v);
        },
        TensorDataSpec::Bf16(v) => {
            assert(v.map_values(|x: u16| x as i32).map_values(|y: i32| y as u16) =~= v);
        },
        TensorDataSpec::Bool(v) => {
            assert(v.map_values(|x: bool| if x { 1i32 } else { 0i32 }).map_values(
                |y: i32| y != 0i32,
            ) =~= v);
        },
        TensorDataSpec::U32(v) => {
            assert(v.map_values(|x: u32| x as u64).map_values(|y: u64| y as u32) =~= v);
        },
        TensorDataSpec::Float8e4m3fn(v) => {
            assert(v.map_values(|x: u8| x as i32).map_values(|y: i32| y as u8) =~= v);
        },
        TensorDataSpec::Float8e4m3fnuz(v) => {
            assert(v.map_values(|x: u8| x as i32).map_values(|y: i32| y as u8) =~= v);
        },
        TensorDataSpec::Float8e5m2(v) => {
            assert(v.map_values(|x: u8| x as i32).map_values(|y: i32| y as u8) =~= v);
        },
        TensorDataSpec::Float8e5m2fnuz(v) => {
            assert(v.map_values(|x: u8| x as i32).map_values(|y: i32| y as u8) =~= v);
        },
        TensorDataSpec::Float8e8m0(v) => {
            assert(v.map_values(|x: u8| x as i32).map_values(|y: i32| y as u8) =~= v);
        },
        TensorDataSpec::Uint4(v) => {
            assert(v.map_values(|x: u8| x as i32).map_values(|y: i32| y as u8) =~= v);
        },
        TensorDataSpec::Int4(v) => {
            assert(v.map_values(|x: u8| x as i32).map_values(|y: i32| y as u8) =~= v);
        },
        TensorDataSpec::Float4e2m1(v) => {
            assert(v.map_values(|x: u8| x as i32).map_values(|y: i32| y as u8) =~= v);
        },
        TensorDataSpec::Uint2(v) => {
            assert(v.map_values(|x: u8| x as i32).map_values(|y: i32| y as u8) =~= v);
        },
        TensorDataSpec::Int2(v) => {
            assert(v.map_values(|x: u8| x as i32).map_values(|y: i32| y as u8) =~= v);
        },
        _ => {},
    }
}

/// Reading back the message of a tensor gives the tensor, when its
/// dimensions are all fixed and its inline data is of its element type and
/// reads back from the field it is written to.
pub proof fn lemma_tensor_roundtrip(t: TensorSpec)
    requires
        tensor_roundtrips(t),
    ensures
        spec_decode_tensor(spec_encode_tensor(t)) == Ok::<TensorSpec, ProtoCodecErrorSpec>(t),
{
    lemma_from_code(t.elem);
    lemma_fixed_shape(t.shape);
    match t.data {
        TensorStorageSpec::External(e) => {
            lemma_external_entries_roundtrip(e);
        },
        TensorStorageSpec::Inline(d) => {
            lemma_data_roundtrip(d, fixed_dims(t.shape), t.elem.code(), t.name, t.doc_string);
        },
    }
}

/// Reading back the messages of tensors that read back gives the tensors.
pub proof fn lemma_tensors_roundtrip(v: Seq<TensorSpec>)
    requires
        forall|i: int| 0 <= i < v.len() ==> tensor_roundtrips(#[trigger] v[i]),
    ensures
        spec_decode_tensors(spec_encode_tensors(v)) == Ok::<Seq<TensorSpec>, ProtoCodecErrorSpec>(v),
    decreases v.len(),
{
    if v.len() > 0 {
        let t = v.drop_last();
        lemma_tensors_roundtrip(t);
        lemma_tensor_roundtrip(v.last());
        let e = spec_encode_tensors(v);
        assert(e.drop_last() =~= spec_encode_tensors(t));
        assert(e.last() == spec_encode_tensor(v.last()));
        assert(v =~= t.push(v.last()));
        assert(spec_decode_tensors(e) == Ok::<Seq<TensorSpec>, ProtoCodecErrorSpec>(t.push(v.last())));
    } else {
        assert(spec_encode_tensors(v) =~= Seq::<TensorProtoSpec>::empty());
        assert(v =~= Seq::<TensorSpec>::empty());
    }
}

// ---------------------------------------------------------------------------
// Attributes and nodes
// ---------------------------------------------------------------------------
/// Whether an attribute reads back from its message: its value is not a
/// sparse tensor, which messages carry without a name, and a tensor or a
/// type in it reads back.
pub open spec fn attribute_roundtrips(a: AttributeSpec) -> bool {
    match a.value {
        AttributeValueSpec::Tensor(t) => tensor_roundtrips(t),
        AttributeValueSpec::Tensors(v) => forall|i: int|
            0 <= i < v.len() ==> tensor_roundtrips(#[trigger] v[i]),
        AttributeValueSpec::TypeProto(vt) => type_roundtrips(vt),
        AttributeValueSpec::TypeProtos(v) => forall|i: int|
            0 <= i < v.len() ==> type_roundtrips(#[trigger] v[i]),
        AttributeValueSpec::SparseTensor(_) => false,
        AttributeValueSpec::SparseTensors(_) => false,
        _ => true,
    }
}

/// Reading back the type messages of an attribute's types gives the types.
proof fn lemma_attribute_types_roundtrip(name: Seq<char>, v: Seq<ValueTypeSpec>)
    requires
        forall|i: int| 0 <= i < v.len() ==> type_roundtrips(#[trigger] v[i]),
    ensures
        spec_attribute_types(name, spec_encode_value_types(v)) == Ok::<
            Seq<ValueTypeSpec>,
            ProtoCodecErrorSpec,
        >(v),
    decreases v.len(),
{
    if v.len() > 0 {
        let t = v.drop_last();
        lemma_attribute_types_roundtrip(name, t);
        lemma_value_type_roundtrip(v.last());
        let e = spec_encode_value_types(v);
        assert(e.drop_last() =~= spec_encode_value_types(t));
        assert(e.last() == spec_encode_value_type(v.last()));
        assert(v =~= t.push(v.last()));
    } else {
        assert(spec_encode_value_types(v) =~= Seq::<TypeProtoSpec>::empty());
        assert(v =~= Seq::<ValueTypeSpec>::empty());
    }
}

/// Reading back the message of an attribute gives the attribute, when it
/// reads back.
#[verifier::rlimit(80)]
#[verifier::spinoff_prover]
pub proof fn lemma_attribute_roundtrip(a: AttributeSpec)
    requires
        attribute_roundtrips(a),
    ensures
        spec_decode_attribute(spec_encode_attribute(a)) == Ok::<AttributeSpec, ProtoCodecErrorSpec>(
            a,
        ),
{
    let p = spec_encode_attribute(a);
    match a.value {
        AttributeValueSpec::String(s) => {
            lemma_utf8_roundtrip(s);
        },
        AttributeValueSpec::Tensor(t) => {
            lemma_tensor_roundtrip(t);
        },
        AttributeValueSpec::Graph(g) => {
            assert(graph_ref(embedded(g)) == g);
        },
        AttributeValueSpec::Strings(v) => {
            lemma_text_roundtrip(v);
        },
        AttributeValueSpec::Tensors(v) => {
            lemma_tensors_roundtrip(v);
        },
        AttributeValueSpec::Graphs(v) => {
            assert(v.map_values(|g: NamedBytesSpec| embedded(g)).map_values(
                |m: EmbeddedMessageSpec| graph_ref(m),
            ) =~= v);
        },
        AttributeValueSpec::TypeProto(vt) => {
            lemma_value_type_roundtrip(vt);
        },
        AttributeValueSpec::TypeProtos(v) => {
            lemma_attribute_types_roundtrip(a.name, v);
        },
        _ => {},
    }
    assert(typed_code(p.attr_type));
}

/// Reading back the messages of attributes that read back gives them.
pub proof fn lemma_attributes_roundtrip(v: Seq<AttributeSpec>)
    requires
        forall|i: int| 0 <= i < v.len() ==> attribute_roundtrips(#[trigger] v[i]),
    ensures
        spec_decode_attributes(spec_encode_attributes(v)) == Ok::<
            Seq<AttributeSpec>,
            ProtoCodecErrorSpec,
        >(v),
    decreases v.len(),
{
    if v.len() > 0 {
        let t = v.drop_last();
        lemma_attributes_roundtrip(t);
        lemma_attribute_roundtrip(v.last());
        let e = spec_encode_attributes(v);
        assert(e.drop_last() =~= spec_encode_attributes(t));
        assert(e.last() == spec_encode_attribute(v.last()));
        assert(v =~= t.push(v.last()));
        assert(spec_decode_attributes(e) == Ok::<Seq<AttributeSpec>, ProtoCodecErrorSpec>(t.push(v.last())));
    } else {
        assert(spec_encode_attributes(v) =~= Seq::<super::AttributeProtoSpec>::empty());
        assert(v =~= Seq::<AttributeSpec>::empty());
    }
}

/// Whether a node reads back from its message: a name it has is not empty,
/// and each of its attributes reads back.
pub open spec fn node_roundtrips(n: NodeSpec) -> bool {
    &&& n.name != Some(Seq::<char>::empty())
    &&& forall|i: int| 0 <= i < n.attributes.len() ==> attribute_roundtrips(#[trigger] n.attributes[i])
}

/// Reading back the message of a node gives the node, when it reads back.
pub proof fn lemma_node_roundtrip(n: NodeSpec)
    requires
        node_roundtrips(n),
    ensures
        spec_decode_node(spec_encode_node(n)) == Ok::<NodeSpec, ProtoCodecErrorSpec>(n),
{
    lemma_attributes_roundtrip(n.attributes);
    match n.name {
        Some(x) => {
            if x.len() == 0 {
                assert(x =~= Seq::<char>::empty());
            }
        },
        None => {},
    }
}

/// Reading back the messages of nodes that read back gives them.
pub proof fn lemma_nodes_roundtrip(v: Seq<NodeSpec>)
    requires
        forall|i: int| 0 <= i < v.len() ==> node_roundtrips(#[trigger] v[i]),
    ensures
        spec_decode_nodes(spec_encode_nodes(v)) == Ok::<Seq<NodeSpec>, ProtoCodecErrorSpec>(v),
    decreases v.len(),
{
    if v.len() > 0 {
        let t = v.drop_last();
        lemma_nodes_roundtrip(t);
        lemma_node_roundtrip(v.last());
        let e = spec_encode_nodes(v);
        assert(e.drop_last() =~= spec_encode_nodes(t));
        assert(e.last() == spec_encode_node(v.last()));
        assert(v =~= t.push(v.last()));
        assert(spec_decode_nodes(e) == Ok::<Seq<NodeSpec>, ProtoCodecErrorSpec>(t.push(v.last())));
    } else {
        assert(spec_encode_nodes(v) =~= Seq::<super::NodeProtoSpec>::empty());
        assert(v =~= Seq::<NodeSpec>::empty());
    }
}

// ---------------------------------------------------------------------------
// Graphs and models
// ---------------------------------------------------------------------------
/// Whether a value info reads back from its message: its type, where it has
/// one, reads back.
pub open spec fn value_info_roundtrips(vi: ValueInfoSpec) -> bool {
    match vi.value_type {
        Some(t) => type_roundtrips(t),
        None => true,
    }
}

/// Reading back the messages of value infos that read back gives them.
pub proof fn lemma_value_infos_roundtrip(v: Seq<ValueInfoSpec>)
    requires
        forall|i: int| 0 <= i < v.len() ==> value_info_roundtrips(#[trigger] v[i]),
    ensures
        spec_decode_value_infos(spec_encode_value_infos(v)) == Ok::<
            Seq<ValueInfoSpec>,
            ProtoCodecErrorSpec,
        >(v),
    decreases v.len(),
{
    if v.len() > 0 {
        let t = v.drop_last();
        lemma_value_infos_roundtrip(t);
        let last = v.last();
        match last.value_type {
            Some(vt) => lemma_value_type_roundtrip(vt),
            None => {},
        }
        assert(spec_decode_value_info(spec_encode_value_info(last)) == Ok::<
            ValueInfoSpec,
            ProtoCodecErrorSpec,
        >(last));
        let e = spec_encode_value_infos(v);
        assert(e.drop_last() =~= spec_encode_value_infos(t));
        assert(e.last() == spec_encode_value_info(v.last()));
        assert(v =~= t.push(v.last()));
        assert(spec_decode_value_infos(e) == Ok::<Seq<ValueInfoSpec>, ProtoCodecErrorSpec>(
            t.push(v.last()),
        ));
    } else {
        assert(spec_encode_value_infos(v) =~= Seq::<super::ValueInfoProtoSpec>::empty());
        assert(v =~= Seq::<ValueInfoSpec>::empty());
    }
}

/// Whether a graph reads back from its message: each of its nodes,
/// initializers and value infos reads back.
pub open spec fn graph_roundtrips(g: GraphSpec) -> bool {
    &&& forall|i: int| 0 <= i < g.nodes.len() ==> node_roundtrips(#[trigger] g.nodes[i])
    &&& forall|i: int| 0 <= i < g.initializers.len() ==> tensor_roundtrips(#[trigger] g.initializers[i])
    &&& forall|i: int| 0 <= i < g.inputs.len() ==> value_info_roundtrips(#[trigger] g.inputs[i])
    &&& forall|i: int| 0 <= i < g.outputs.len() ==> value_info_roundtrips(#[trigger] g.outputs[i])
    &&& forall|i: int| 0 <= i < g.value_info.len() ==> value_info_roundtrips(#[trigger] g.value_info[i])
}

/// Reading back the message of a graph gives the graph, when it reads back.
pub proof fn lemma_graph_roundtrip(g: GraphSpec)
    requires
        graph_roundtrips(g),
    ensures
        spec_decode_graph(spec_encode_graph(g)) == Ok::<GraphSpec, ProtoCodecErrorSpec>(g),
{
    lemma_tensors_roundtrip(g.initializers);
    lemma_nodes_roundtrip(g.nodes);
    lemma_value_infos_roundtrip(g.inputs);
    lemma_value_infos_roundtrip(g.outputs);
    lemma_value_infos_roundtrip(g.value_info);
    assert(g.sparse_initializers_raw.map_values(|s: SparseTensorRawSpec| sparse_message(s)).map_values(
        |m: EmbeddedMessageSpec| sparse_raw(m),
    ) =~= g.sparse_initializers_raw);
    let r = spec_decode_graph(spec_encode_graph(g));
    assert(r is Ok);
    assert(r->Ok_0 =~= g);
}

/// Whether a model reads back from its message: the codec reads its IR
/// version and each operator set it imports, its graph reads back, and its
/// model-local functions carry no encoded message (the message written for
/// one holds its domain, name and overload only).
pub open spec fn model_roundtrips(m: ModelSpec) -> bool {
    &&& m.ir_version <= SUPPORTED_IR_VERSION
    &&& first_opset_error(m.opset_import) is None
    &&& graph_roundtrips(m.graph)
}

/// Reading back the message of a model gives the model, when it reads back.
pub proof fn lemma_model_roundtrip(m: ModelSpec)
    requires
        model_roundtrips(m),
    ensures
        spec_decode_model(spec_encode_model(m)) == Ok::<ModelSpec, ProtoCodecErrorSpec>(m),
{
    lemma_graph_roundtrip(m.graph);
    assert forall|i: int| 0 <= i < m.functions_raw.len() implies function_raw(
        function_message(#[trigger] m.functions_raw[i]),
    ) == m.functions_raw[i] by {
    }
    assert(m.functions_raw.map_values(|f: FunctionRawSpec| function_message(f)).map_values(
        |x: super::FunctionProtoRefSpec| function_raw(x),
    ) =~= m.functions_raw);
    let r = spec_decode_model(spec_encode_model(m));
    assert(r is Ok);
    assert(r->Ok_0 =~= m);
}

} // verus!
