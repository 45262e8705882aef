//! Conversion of attributes and nodes between the intermediate
//! representation and their messages.
use super::codec::{
    clone_u32s, collect_results, decode_tensor, decode_value_type, encode_strings, encode_tensor, encode_value_type,
    lemma_collect_error, lemma_collect_step, lossy_strings, nonempty, nonempty_text, opt_text,
    outcome, spec_decode_tensor, spec_decode_value_type, spec_encode_tensor, spec_encode_value_type,
    text_or_empty,
    ProtoCodecError, ProtoCodecErrorSpec,
};
use super::{
    AttributeProto, AttributeProtoSpec, EmbeddedMessage, EmbeddedMessageSpec, NodeProto,
    NodeProtoSpec, TensorProto, TensorProtoSpec, TypeProto, TypeProtoSpec,
};
use crate::ir::attribute::spec_attribute_from_fields;
use crate::ir::{
    attribute_from_fields, copy_pairs, Attribute, AttributeError, AttributeErrorSpec, AttributeFields,
    AttributeFieldsSpec, AttributeSpec, AttributeValue, AttributeValueSpec, GraphRef,
    NamedBytesSpec, Node, NodeSpec, SparseRef, Tensor, TensorSpec, ValueType, ValueTypeSpec,
};
use crate::text::{concat, debug_quoted, lenient_utf8, quoted, string_bytes, utf8_strict};
use vstd::utf8::{decode_utf8, valid_utf8};
use vstd::prelude::*;
use vstd::utf8::encode_utf8;

verus! {

/// `AttributeProto.AttributeType.FLOAT`.
pub const ATTRIBUTE_FLOAT: i32 = 1;

/// `AttributeProto.AttributeType.INT`.
pub const ATTRIBUTE_INT: i32 = 2;

/// `AttributeProto.AttributeType.STRING`.
pub const ATTRIBUTE_STRING: i32 = 3;

/// `AttributeProto.AttributeType.TENSOR`.
pub const ATTRIBUTE_TENSOR: i32 = 4;

/// `AttributeProto.AttributeType.GRAPH`.
pub const ATTRIBUTE_GRAPH: i32 = 5;

/// `AttributeProto.AttributeType.FLOATS`.
pub const ATTRIBUTE_FLOATS: i32 = 6;

/// `AttributeProto.AttributeType.INTS`.
pub const ATTRIBUTE_INTS: i32 = 7;

/// `AttributeProto.AttributeType.STRINGS`.
pub const ATTRIBUTE_STRINGS: i32 = 8;

/// `AttributeProto.AttributeType.TENSORS`.
pub const ATTRIBUTE_TENSORS: i32 = 9;

/// `AttributeProto.AttributeType.GRAPHS`.
pub const ATTRIBUTE_GRAPHS: i32 = 10;

/// `AttributeProto.AttributeType.SPARSE_TENSOR`.
pub const ATTRIBUTE_SPARSE_TENSOR: i32 = 11;

/// `AttributeProto.AttributeType.SPARSE_TENSORS`.
pub const ATTRIBUTE_SPARSE_TENSORS: i32 = 12;

/// `AttributeProto.AttributeType.TYPE_PROTO`.
pub const ATTRIBUTE_TYPE_PROTO: i32 = 13;

/// `AttributeProto.AttributeType.TYPE_PROTOS`.
pub const ATTRIBUTE_TYPE_PROTOS: i32 = 14;

/// An attribute message with a name and documentation and no value.
pub open spec fn blank_attribute_proto(name: Seq<char>, doc_string: Seq<char>) -> AttributeProtoSpec {
    AttributeProtoSpec {
        name,
        doc_string,
        attr_type: 0,
        f: 0,
        i: 0,
        s: Seq::empty(),
        t: None,
        g: None,
        floats: Seq::empty(),
        ints: Seq::empty(),
        strings: Seq::empty(),
        tensors: Seq::empty(),
        graphs: Seq::empty(),
        sparse_tensor: None,
        tp: None,
        sparse_tensors: Seq::empty(),
        type_protos: Seq::empty(),
    }
}

/// A subgraph as an embedded message: its name and encoded bytes.
pub open spec fn embedded(g: NamedBytesSpec) -> EmbeddedMessageSpec {
    EmbeddedMessageSpec { name: g.name, bytes: g.proto }
}

/// The messages of a list of tensors.
pub open spec fn spec_encode_tensors(v: Seq<TensorSpec>) -> Seq<TensorProtoSpec> {
    v.map_values(|t: TensorSpec| spec_encode_tensor(t))
}

/// The type messages of a list of value types.
pub open spec fn spec_encode_value_types(v: Seq<ValueTypeSpec>) -> Seq<TypeProtoSpec> {
    v.map_values(|t: ValueTypeSpec| spec_encode_value_type(t))
}

/// The message of an attribute: its type code and the one field that carries
/// its value.
pub open spec fn spec_encode_attribute(a: AttributeSpec) -> AttributeProtoSpec {
    let b = blank_attribute_proto(a.name, a.doc_string);
    match a.value {
        AttributeValueSpec::Float(v) => AttributeProtoSpec { attr_type: ATTRIBUTE_FLOAT, f: v, ..b },
        AttributeValueSpec::Int(v) => AttributeProtoSpec { attr_type: ATTRIBUTE_INT, i: v, ..b },
        AttributeValueSpec::String(v) => AttributeProtoSpec {
            attr_type: ATTRIBUTE_STRING,
            s: encode_utf8(v),
            ..b
        },
        AttributeValueSpec::Tensor(t) => AttributeProtoSpec {
            attr_type: ATTRIBUTE_TENSOR,
            t: Some(spec_encode_tensor(t)),
            ..b
        },
        AttributeValueSpec::Graph(g) => AttributeProtoSpec {
            attr_type: ATTRIBUTE_GRAPH,
            g: Some(embedded(g)),
            ..b
        },
        AttributeValueSpec::SparseTensor(s) => AttributeProtoSpec {
            attr_type: ATTRIBUTE_SPARSE_TENSOR,
            sparse_tensor: Some(s.proto),
            ..b
        },
        AttributeValueSpec::TypeProto(vt) => AttributeProtoSpec {
            attr_type: ATTRIBUTE_TYPE_PROTO,
            tp: Some(spec_encode_value_type(vt)),
            ..b
        },
        AttributeValueSpec::Floats(v) => AttributeProtoSpec {
            attr_type: ATTRIBUTE_FLOATS,
            floats: v,
            ..b
        },
        AttributeValueSpec::Ints(v) => AttributeProtoSpec { attr_type: ATTRIBUTE_INTS, ints: v, ..b },
        AttributeValueSpec::Strings(v) => AttributeProtoSpec {
            attr_type: ATTRIBUTE_STRINGS,
            strings: v.map_values(|s: Seq<char>| encode_utf8(s)),
            ..b
        },
        AttributeValueSpec::Tensors(v) => AttributeProtoSpec {
            attr_type: ATTRIBUTE_TENSORS,
            tensors: spec_encode_tensors(v),
            ..b
        },
        AttributeValueSpec::Graphs(v) => AttributeProtoSpec {
            attr_type: ATTRIBUTE_GRAPHS,
            graphs: v.map_values(|g: NamedBytesSpec| embedded(g)),
            ..b
        },
        AttributeValueSpec::SparseTensors(v) => AttributeProtoSpec {
            attr_type: ATTRIBUTE_SPARSE_TENSORS,
            sparse_tensors: v.map_values(|s: NamedBytesSpec| s.proto),
            ..b
        },
        AttributeValueSpec::TypeProtos(v) => AttributeProtoSpec {
            attr_type: ATTRIBUTE_TYPE_PROTOS,
            type_protos: spec_encode_value_types(v),
            ..b
        },
    }
}

/// The messages of a list of tensors.
fn encode_tensors(v: &Vec<Tensor>) -> (r: Vec<TensorProto>)
    ensures
        r.deep_view() == spec_encode_tensors(v.deep_view()),
{
    let mut r: Vec<TensorProto> = Vec::new();
    let mut i: usize = 0;
    while i < v.len()
        invariant
            0 <= i <= v@.len(),
            r.deep_view() == spec_encode_tensors(v.deep_view().take(i as int)),
        decreases v@.len() - i,
    {
        let ghost before = r.deep_view();
        let p = encode_tensor(&v[i]);
        r.push(p);
        proof {
            assert(r.deep_view() =~= before.push(spec_encode_tensor(v.deep_view()[i as int])));
            assert(v.deep_view().take(i + 1) =~= v.deep_view().take(i as int).push(
                v.deep_view()[i as int],
            ));
            assert(r.deep_view() =~= spec_encode_tensors(v.deep_view().take(i + 1)));
        }
        i = i + 1;
    }
    proof {
        assert(v.deep_view().take(i as int) =~= v.deep_view());
    }
    r
}

/// The type messages of a list of value types.
fn encode_value_types(v: &Vec<ValueType>) -> (r: Vec<TypeProto>)
    ensures
        r.deep_view() == spec_encode_value_types(v.deep_view()),
{
    let mut r: Vec<TypeProto> = Vec::new();
    let mut i: usize = 0;
    while i < v.len()
        invariant
            0 <= i <= v@.len(),
            r.deep_view() == spec_encode_value_types(v.deep_view().take(i as int)),
        decreases v@.len() - i,
    {
        let ghost before = r.deep_view();
        let p = encode_value_type(&v[i]);
        r.push(p);
        proof {
            assert(r.deep_view() =~= before.push(spec_encode_value_type(v.deep_view()[i as int])));
            assert(v.deep_view().take(i + 1) =~= v.deep_view().take(i as int).push(
                v.deep_view()[i as int],
            ));
            assert(r.deep_view() =~= spec_encode_value_types(v.deep_view().take(i + 1)));
        }
        i = i + 1;
    }
    proof {
        assert(v.deep_view().take(i as int) =~= v.deep_view());
    }
    r
}

/// Subgraphs as embedded messages.
fn embed_graphs(v: &Vec<GraphRef>) -> (r: Vec<EmbeddedMessage>)
    ensures
        r.deep_view() == v.deep_view().map_values(|g: NamedBytesSpec| embedded(g)),
{
    let mut r: Vec<EmbeddedMessage> = Vec::new();
    let mut i: usize = 0;
    while i < v.len()
        invariant
            0 <= i <= v@.len(),
            r.deep_view() == v.deep_view().take(i as int).map_values(
                |g: NamedBytesSpec| embedded(g),
            ),
        decreases v@.len() - i,
    {
        let ghost before = r.deep_view();
        let m = EmbeddedMessage { name: v[i].name.clone(), bytes: v[i].proto.clone() };
        proof {
            assert(m.deep_view() == embedded(v.deep_view()[i as int]));
        }
        r.push(m);
        proof {
            assert(r.deep_view() =~= before.push(embedded(v.deep_view()[i as int])));
            assert(v.deep_view().take(i + 1) =~= v.deep_view().take(i as int).push(
                v.deep_view()[i as int],
            ));
            assert(r.deep_view() =~= v.deep_view().take(i + 1).map_values(
                |g: NamedBytesSpec| embedded(g),
            ));
        }
        i = i + 1;
    }
    proof {
        assert(v.deep_view().take(i as int) =~= v.deep_view());
    }
    r
}

/// The encoded bytes of each sparse tensor.
fn sparse_bytes(v: &Vec<SparseRef>) -> (r: Vec<Vec<u8>>)
    ensures
        r.deep_view() == v.deep_view().map_values(|s: NamedBytesSpec| s.proto),
{
    let mut r: Vec<Vec<u8>> = Vec::new();
    let mut i: usize = 0;
    while i < v.len()
        invariant
            0 <= i <= v@.len(),
            r.deep_view() == v.deep_view().take(i as int).map_values(|s: NamedBytesSpec| s.proto),
        decreases v@.len() - i,
    {
        let ghost before = r.deep_view();
        let b = v[i].proto.clone();
        proof {
            assert(b.deep_view() =~= b@);
        }
        r.push(b);
        proof {
            assert(r.deep_view() =~= before.push(v.deep_view()[i as int].proto));
            assert(v.deep_view().take(i + 1) =~= v.deep_view().take(i as int).push(
                v.deep_view()[i as int],
            ));
            assert(r.deep_view() =~= v.deep_view().take(i + 1).map_values(
                |s: NamedBytesSpec| s.proto,
            ));
        }
        i = i + 1;
    }
    proof {
        assert(v.deep_view().take(i as int) =~= v.deep_view());
    }
    r
}

/// The message of an attribute.
#[verifier::rlimit(50)]
pub fn encode_attribute(a: &Attribute) -> (r: AttributeProto)
    ensures
        r.deep_view() == spec_encode_attribute(a.deep_view()),
{
    let mut p = AttributeProto {
        name: a.name.clone(),
        doc_string: a.doc_string.clone(),
        attr_type: 0,
        f: 0,
        i: 0,
        s: Vec::new(),
        t: None,
        g: None,
        floats: Vec::new(),
        ints: Vec::new(),
        strings: Vec::new(),
        tensors: Vec::new(),
        graphs: Vec::new(),
        sparse_tensor: None,
        tp: None,
        sparse_tensors: Vec::new(),
        type_protos: Vec::new(),
    };
    proof {
        assert(p.deep_view() =~= blank_attribute_proto(a.name@, a.doc_string@));
    }
    match &a.value {
        AttributeValue::Float(v) => {
            p.attr_type = ATTRIBUTE_FLOAT;
            p.f = *v;
        },
        AttributeValue::Int(v) => {
            p.attr_type = ATTRIBUTE_INT;
            p.i = *v;
        },
        AttributeValue::String(v) => {
            p.attr_type = ATTRIBUTE_STRING;
            p.s = string_bytes(v);
        },
        AttributeValue::Tensor(t) => {
            p.attr_type = ATTRIBUTE_TENSOR;
            p.t = Some(encode_tensor(t));
        },
        AttributeValue::Graph(g) => {
            p.attr_type = ATTRIBUTE_GRAPH;
            p.g = Some(EmbeddedMessage { name: g.name.clone(), bytes: g.proto.clone() });
        },
        AttributeValue::SparseTensor(s) => {
            p.attr_type = ATTRIBUTE_SPARSE_TENSOR;
            p.sparse_tensor = Some(s.proto.clone());
        },
        AttributeValue::TypeProto(vt) => {
            p.attr_type = ATTRIBUTE_TYPE_PROTO;
            p.tp = Some(encode_value_type(vt));
        },
        AttributeValue::Floats(v) => {
            p.attr_type = ATTRIBUTE_FLOATS;
            p.floats = clone_u32s(v);
        },
        AttributeValue::Ints(v) => {
            p.attr_type = ATTRIBUTE_INTS;
            p.ints = vstd::slice::slice_to_vec(v.as_slice());
        },
        AttributeValue::Strings(v) => {
            p.attr_type = ATTRIBUTE_STRINGS;
            p.strings = encode_strings(v);
        },
        AttributeValue::Tensors(v) => {
            p.attr_type = ATTRIBUTE_TENSORS;
            p.tensors = encode_tensors(v);
        },
        AttributeValue::Graphs(v) => {
            p.attr_type = ATTRIBUTE_GRAPHS;
            p.graphs = embed_graphs(v);
        },
        AttributeValue::SparseTensors(v) => {
            p.attr_type = ATTRIBUTE_SPARSE_TENSORS;
            p.sparse_tensors = sparse_bytes(v);
        },
        AttributeValue::TypeProtos(v) => {
            p.attr_type = ATTRIBUTE_TYPE_PROTOS;
            p.type_protos = encode_value_types(v);
        },
    }
    proof {
        assert(p.deep_view() =~= spec_encode_attribute(a.deep_view()));
    }
    p
}

/// Whether a `FLOAT` field holds a value: its bits are those of a number
/// other than zero (positive or negative).
pub open spec fn float_present(f: u32) -> bool {
    f != 0 && f != 0x8000_0000u32
}

/// The tensors of a list of messages, or the first error.
pub open spec fn spec_decode_tensors(ps: Seq<TensorProtoSpec>) -> Result<
    Seq<TensorSpec>,
    ProtoCodecErrorSpec,
> {
    collect_results(ps, |p: TensorProtoSpec| spec_decode_tensor(p))
}

/// A subgraph reference for an embedded message.
pub open spec fn graph_ref(m: EmbeddedMessageSpec) -> NamedBytesSpec {
    NamedBytesSpec { name: m.name, proto: m.bytes }
}

/// The value fields that an attribute message holds, given its decoded
/// tensor and tensors: a number field is present when it is not zero, a
/// text or list field when it is not empty, and text is decoded leniently.
pub open spec fn attribute_fields(
    p: AttributeProtoSpec,
    tensor: Option<TensorSpec>,
    tensors: Seq<TensorSpec>,
) -> AttributeFieldsSpec {
    AttributeFieldsSpec {
        float: if float_present(p.f) {
            Some(p.f)
        } else {
            None
        },
        int: if p.i != 0 {
            Some(p.i)
        } else {
            None
        },
        string_bytes: if p.s.len() > 0 {
            Some(p.s)
        } else {
            None
        },
        tensor,
        graph: match p.g {
            Some(m) => Some(graph_ref(m)),
            None => None,
        },
        floats: if p.floats.len() > 0 {
            Some(p.floats)
        } else {
            None
        },
        ints: if p.ints.len() > 0 {
            Some(p.ints)
        } else {
            None
        },
        strings: if p.strings.len() > 0 {
            Some(p.strings.map_values(|b: Seq<u8>| lenient_utf8(b)))
        } else {
            None
        },
        tensors: if p.tensors.len() > 0 {
            Some(tensors)
        } else {
            None
        },
        graphs: if p.graphs.len() > 0 {
            Some(p.graphs.map_values(|m: EmbeddedMessageSpec| graph_ref(m)))
        } else {
            None
        },
    }
}

/// The message of an attribute that carries no value.
pub open spec fn no_value_text(name: Seq<char>) -> Seq<char> {
    "attribute "@ + debug_quoted(name) + " carries no value"@
}

/// The value type of a type message, an invalid one reported for the
/// attribute `name`.
pub open spec fn spec_attribute_type(name: Seq<char>, t: TypeProtoSpec) -> Result<
    ValueTypeSpec,
    ProtoCodecErrorSpec,
> {
    match spec_decode_value_type(t) {
        Ok(vt) => Ok(vt),
        Err(detail) => Err(ProtoCodecErrorSpec::InvalidTypeProto { name, detail }),
    }
}

/// The value types of a list of type messages, or the first error.
pub open spec fn spec_attribute_types(name: Seq<char>, ts: Seq<TypeProtoSpec>) -> Result<
    Seq<ValueTypeSpec>,
    ProtoCodecErrorSpec,
> {
    collect_results(ts, |t: TypeProtoSpec| spec_attribute_type(name, t))
}

/// Whether an attribute type code names a kind of value that is read from
/// the field it names.
pub open spec fn typed_code(code: i32) -> bool {
    (ATTRIBUTE_FLOAT <= code <= ATTRIBUTE_GRAPHS) || code == ATTRIBUTE_TYPE_PROTO || code
        == ATTRIBUTE_TYPE_PROTOS
}

/// The value of a message whose type code names its kind: the field that
/// the code names, whatever it holds (zero and empty included). A missing
/// message field is an attribute without a value, text must be UTF-8, and
/// tensors and types are decoded.
pub open spec fn spec_typed_value(p: AttributeProtoSpec) -> Result<
    AttributeValueSpec,
    ProtoCodecErrorSpec,
> {
    let none = ProtoCodecErrorSpec::Protobuf(no_value_text(p.name));
    if p.attr_type == ATTRIBUTE_FLOAT {
        Ok(AttributeValueSpec::Float(p.f))
    } else if p.attr_type == ATTRIBUTE_INT {
        Ok(AttributeValueSpec::Int(p.i))
    } else if p.attr_type == ATTRIBUTE_STRING {
        if valid_utf8(p.s) {
            Ok(AttributeValueSpec::String(decode_utf8(p.s)))
        } else {
            Err(ProtoCodecErrorSpec::Attribute(AttributeErrorSpec::InvalidUtf8String(p.name)))
        }
    } else if p.attr_type == ATTRIBUTE_TENSOR {
        match p.t {
            Some(tp) => match spec_decode_tensor(tp) {
                Ok(t) => Ok(AttributeValueSpec::Tensor(t)),
                Err(e) => Err(e),
            },
            None => Err(none),
        }
    } else if p.attr_type == ATTRIBUTE_GRAPH {
        match p.g {
            Some(m) => Ok(AttributeValueSpec::Graph(graph_ref(m))),
            None => Err(none),
        }
    } else if p.attr_type == ATTRIBUTE_FLOATS {
        Ok(AttributeValueSpec::Floats(p.floats))
    } else if p.attr_type == ATTRIBUTE_INTS {
        Ok(AttributeValueSpec::Ints(p.ints))
    } else if p.attr_type == ATTRIBUTE_STRINGS {
        Ok(AttributeValueSpec::Strings(p.strings.map_values(|b: Seq<u8>| lenient_utf8(b))))
    } else if p.attr_type == ATTRIBUTE_TENSORS {
        match spec_decode_tensors(p.tensors) {
            Ok(ts) => Ok(AttributeValueSpec::Tensors(ts)),
            Err(e) => Err(e),
        }
    } else if p.attr_type == ATTRIBUTE_GRAPHS {
        Ok(AttributeValueSpec::Graphs(p.graphs.map_values(|m: EmbeddedMessageSpec| graph_ref(m))))
    } else if p.attr_type == ATTRIBUTE_TYPE_PROTO {
        match p.tp {
            Some(t) => match spec_attribute_type(p.name, t) {
                Ok(vt) => Ok(AttributeValueSpec::TypeProto(vt)),
                Err(e) => Err(e),
            },
            None => Err(none),
        }
    } else {
        match spec_attribute_types(p.name, p.type_protos) {
            Ok(vs) => Ok(AttributeValueSpec::TypeProtos(vs)),
            Err(e) => Err(e),
        }
    }
}

/// The attribute of a message without a type code that names the kind of
/// its value: its tensors decoded first, then its value fields read as
/// [`attribute_fields`] says; a float and an int together conflict, no
/// field at all is an error, and otherwise the fields make an attribute as
/// [`attribute_from_fields`] does.
pub open spec fn spec_untyped_attribute(p: AttributeProtoSpec) -> Result<
    AttributeSpec,
    ProtoCodecErrorSpec,
> {
    let tensor: Result<Option<TensorSpec>, ProtoCodecErrorSpec> = match p.t {
        Some(tp) => match spec_decode_tensor(tp) {
            Ok(t) => Ok(Some(t)),
            Err(e) => Err(e),
        },
        None => Ok(None),
    };
    match tensor {
        Err(e) => Err(e),
        Ok(t) => match spec_decode_tensors(p.tensors) {
            Err(e) => Err(e),
            Ok(ts) => {
                let f = attribute_fields(p, t, ts);
                if f.float is Some && f.int is Some {
                    Err(
                        ProtoCodecErrorSpec::Attribute(
                            crate::ir::AttributeErrorSpec::ConflictingValues { name: p.name },
                        ),
                    )
                } else if f.present_count() == 0 {
                    Err(ProtoCodecErrorSpec::Protobuf(no_value_text(p.name)))
                } else {
                    match spec_attribute_from_fields(p.name, f) {
                        Ok(a) => Ok(a),
                        Err(e) => Err(ProtoCodecErrorSpec::Attribute(e)),
                    }
                }
            },
        },
    }
}

/// The first error in decoding the tensor fields of a message: its tensor,
/// then its tensors.
pub open spec fn tensor_fields_error(p: AttributeProtoSpec) -> Option<ProtoCodecErrorSpec> {
    let tensors_error = match spec_decode_tensors(p.tensors) {
        Err(e) => Some(e),
        Ok(_) => None,
    };
    match p.t {
        Some(tp) => match spec_decode_tensor(tp) {
            Err(e) => Some(e),
            Ok(_) => tensors_error,
        },
        None => tensors_error,
    }
}

/// The attribute of a message, with its name and documentation. Its tensor
/// fields are decoded first, and a float and an int that are both set
/// conflict, whatever its type code. Then it is read from the field that its
/// type code names where the code names one (every kind but the sparse
/// tensors), and otherwise as [`spec_untyped_attribute`] says.
pub open spec fn spec_decode_attribute(p: AttributeProtoSpec) -> Result<
    AttributeSpec,
    ProtoCodecErrorSpec,
> {
    if typed_code(p.attr_type) {
        match tensor_fields_error(p) {
            Some(e) => Err(e),
            None => if float_present(p.f) && p.i != 0 {
                Err(
                    ProtoCodecErrorSpec::Attribute(
                        AttributeErrorSpec::ConflictingValues { name: p.name },
                    ),
                )
            } else {
                match spec_typed_value(p) {
                    Ok(v) => Ok(AttributeSpec { name: p.name, value: v, doc_string: p.doc_string }),
                    Err(e) => Err(e),
                }
            },
        }
    } else {
        match spec_untyped_attribute(p) {
            Ok(a) => Ok(AttributeSpec { doc_string: p.doc_string, ..a }),
            Err(e) => Err(e),
        }
    }
}

/// The tensors of a list of messages, or the first error.
pub fn decode_tensors(ps: &Vec<TensorProto>) -> (r: Result<Vec<Tensor>, ProtoCodecError>)
    ensures
        outcome(r, spec_decode_tensors(ps.deep_view())),
{
    let ghost f = |p: TensorProtoSpec| spec_decode_tensor(p);
    let mut out: Vec<Tensor> = Vec::new();
    let mut i: usize = 0;
    proof {
        assert(ps.deep_view().take(0) =~= Seq::<TensorProtoSpec>::empty());
        assert(out.deep_view() =~= Seq::<TensorSpec>::empty());
    }
    while i < ps.len()
        invariant
            0 <= i <= ps@.len(),
            f == (|p: TensorProtoSpec| spec_decode_tensor(p)),
            collect_results(ps.deep_view().take(i as int), f) == Ok::<
                Seq<TensorSpec>,
                ProtoCodecErrorSpec,
            >(out.deep_view()),
        decreases ps@.len() - i,
    {
        let ghost done = out.deep_view();
        match decode_tensor(&ps[i]) {
            Ok(t) => {
                proof {
                    lemma_collect_step(ps.deep_view(), f, i as int, done, t.deep_view());
                }
                out.push(t);
                proof {
                    assert(out.deep_view() =~= done.push(t.deep_view()));
                }
            },
            Err(e) => {
                proof {
                    lemma_collect_error(ps.deep_view(), f, i as int, done, e.deep_view());
                }
                return Err(e);
            },
        }
        i = i + 1;
    }
    proof {
        assert(ps.deep_view().take(i as int) =~= ps.deep_view());
    }
    Ok(out)
}

/// Subgraph references for embedded messages.
fn graph_refs(v: &Vec<EmbeddedMessage>) -> (r: Vec<GraphRef>)
    ensures
        r.deep_view() == v.deep_view().map_values(|m: EmbeddedMessageSpec| graph_ref(m)),
{
    let mut r: Vec<GraphRef> = Vec::new();
    let mut i: usize = 0;
    while i < v.len()
        invariant
            0 <= i <= v@.len(),
            r.deep_view() == v.deep_view().take(i as int).map_values(
                |m: EmbeddedMessageSpec| graph_ref(m),
            ),
        decreases v@.len() - i,
    {
        let ghost before = r.deep_view();
        let g = GraphRef { name: v[i].name.clone(), proto: v[i].bytes.clone() };
        proof {
            assert(g.deep_view() == graph_ref(v.deep_view()[i as int]));
        }
        r.push(g);
        proof {
            assert(r.deep_view() =~= before.push(graph_ref(v.deep_view()[i as int])));
            assert(v.deep_view().take(i + 1) =~= v.deep_view().take(i as int).push(
                v.deep_view()[i as int],
            ));
            assert(r.deep_view() =~= v.deep_view().take(i + 1).map_values(
                |m: EmbeddedMessageSpec| graph_ref(m),
            ));
        }
        i = i + 1;
    }
    proof {
        assert(v.deep_view().take(i as int) =~= v.deep_view());
    }
    r
}

/// The value types of a list of type messages, or the first error.
fn decode_attribute_types(name: &String, ts: &Vec<TypeProto>) -> (r: Result<
    Vec<ValueType>,
    ProtoCodecError,
>)
    ensures
        outcome(r, spec_attribute_types(name@, ts.deep_view())),
{
    let ghost f = |t: TypeProtoSpec| spec_attribute_type(name@, t);
    let mut out: Vec<ValueType> = Vec::new();
    let mut i: usize = 0;
    proof {
        assert(ts.deep_view().take(0) =~= Seq::<TypeProtoSpec>::empty());
        assert(out.deep_view() =~= Seq::<ValueTypeSpec>::empty());
    }
    while i < ts.len()
        invariant
            0 <= i <= ts@.len(),
            f == (|t: TypeProtoSpec| spec_attribute_type(name@, t)),
            collect_results(ts.deep_view().take(i as int), f) == Ok::<
                Seq<ValueTypeSpec>,
                ProtoCodecErrorSpec,
            >(out.deep_view()),
        decreases ts@.len() - i,
    {
        let ghost done = out.deep_view();
        match decode_value_type(&ts[i]) {
            Ok(vt) => {
                let ghost v = vt.deep_view();
                proof {
                    lemma_collect_step(ts.deep_view(), f, i as int, done, v);
                }
                out.push(vt);
                proof {
                    assert(out.deep_view() =~= done.push(v));
                }
            },
            Err(detail) => {
                let e = ProtoCodecError::InvalidTypeProto { name: name.clone(), detail };
                proof {
                    lemma_collect_error(ts.deep_view(), f, i as int, done, e.deep_view());
                }
                return Err(e);
            },
        }
        i = i + 1;
    }
    proof {
        assert(ts.deep_view().take(i as int) =~= ts.deep_view());
    }
    Ok(out)
}

/// The error for an attribute message without a value.
fn no_value(name: &String) -> (r: ProtoCodecError)
    ensures
        r.deep_view() == ProtoCodecErrorSpec::Protobuf(no_value_text(name@)),
{
    let text = concat("attribute ", quoted(name.as_str()).as_str());
    ProtoCodecError::Protobuf(concat(text.as_str(), " carries no value"))
}

/// The value of a message whose type code names its kind.
#[verifier::rlimit(50)]
fn decode_typed_value(p: &AttributeProto) -> (r: Result<AttributeValue, ProtoCodecError>)
    requires
        typed_code(p.attr_type),
    ensures
        outcome(r, spec_typed_value(p.deep_view())),
{
    let code = p.attr_type;
    if code == ATTRIBUTE_FLOAT {
        Ok(AttributeValue::Float(p.f))
    } else if code == ATTRIBUTE_INT {
        Ok(AttributeValue::Int(p.i))
    } else if code == ATTRIBUTE_STRING {
        match utf8_strict(vstd::slice::slice_to_vec(p.s.as_slice())) {
            Some(text) => Ok(AttributeValue::String(text)),
            None => Err(
                ProtoCodecError::Attribute(AttributeError::InvalidUtf8String(p.name.clone())),
            ),
        }
    } else if code == ATTRIBUTE_TENSOR {
        match &p.t {
            Some(tp) => match decode_tensor(tp) {
                Ok(t) => Ok(AttributeValue::Tensor(Box::new(t))),
                Err(e) => Err(e),
            },
            None => Err(no_value(&p.name)),
        }
    } else if code == ATTRIBUTE_GRAPH {
        match &p.g {
            Some(m) => Ok(
                AttributeValue::Graph(GraphRef { name: m.name.clone(), proto: m.bytes.clone() }),
            ),
            None => Err(no_value(&p.name)),
        }
    } else if code == ATTRIBUTE_FLOATS {
        Ok(AttributeValue::Floats(clone_u32s(&p.floats)))
    } else if code == ATTRIBUTE_INTS {
        Ok(AttributeValue::Ints(vstd::slice::slice_to_vec(p.ints.as_slice())))
    } else if code == ATTRIBUTE_STRINGS {
        Ok(AttributeValue::Strings(lossy_strings(&p.strings)))
    } else if code == ATTRIBUTE_TENSORS {
        match decode_tensors(&p.tensors) {
            Ok(ts) => Ok(AttributeValue::Tensors(ts)),
            Err(e) => Err(e),
        }
    } else if code == ATTRIBUTE_GRAPHS {
        Ok(AttributeValue::Graphs(graph_refs(&p.graphs)))
    } else if code == ATTRIBUTE_TYPE_PROTO {
        match &p.tp {
            Some(t) => match decode_value_type(t) {
                Ok(vt) => Ok(AttributeValue::TypeProto(Box::new(vt))),
                Err(detail) => Err(ProtoCodecError::InvalidTypeProto { name: p.name.clone(), detail }),
            },
            None => Err(no_value(&p.name)),
        }
    } else {
        match decode_attribute_types(&p.name, &p.type_protos) {
            Ok(vs) => Ok(AttributeValue::TypeProtos(vs)),
            Err(e) => Err(e),
        }
    }
}

/// The attribute of a message.
pub fn decode_attribute(p: &AttributeProto) -> (r: Result<Attribute, ProtoCodecError>)
    ensures
        outcome(r, spec_decode_attribute(p.deep_view())),
{
    let code = p.attr_type;
    if (ATTRIBUTE_FLOAT <= code && code <= ATTRIBUTE_GRAPHS) || code == ATTRIBUTE_TYPE_PROTO || code
        == ATTRIBUTE_TYPE_PROTOS {
        match &p.t {
            Some(tp) => match decode_tensor(tp) {
                Err(e) => {
                    return Err(e);
                },
                Ok(_) => {},
            },
            None => {},
        }
        match decode_tensors(&p.tensors) {
            Err(e) => {
                return Err(e);
            },
            Ok(_) => {},
        }
        if p.f != 0 && p.f != 0x8000_0000u32 && p.i != 0 {
            return Err(
                ProtoCodecError::Attribute(AttributeError::ConflictingValues { name: p.name.clone() }),
            );
        }
        match decode_typed_value(p) {
            Ok(v) => Ok(Attribute { name: p.name.clone(), value: v, doc_string: p.doc_string.clone() }),
            Err(e) => Err(e),
        }
    } else {
        match decode_untyped_attribute(p) {
            Ok(a) => {
                let mut a = a;
                a.doc_string = p.doc_string.clone();
                Ok(a)
            },
            Err(e) => Err(e),
        }
    }
}

/// The attribute of a message without a type code that names its kind.
#[verifier::rlimit(80)]
#[verifier::spinoff_prover]
fn decode_untyped_attribute(p: &AttributeProto) -> (r: Result<Attribute, ProtoCodecError>)
    ensures
        outcome(r, spec_untyped_attribute(p.deep_view())),
{
    let tensor = match &p.t {
        Some(tp) => match decode_tensor(tp) {
            Ok(t) => Some(t),
            Err(e) => {
                return Err(e);
            },
        },
        None => None,
    };
    let tensors = if p.tensors.len() > 0 {
        match decode_tensors(&p.tensors) {
            Ok(v) => Some(v),
            Err(e) => {
                return Err(e);
            },
        }
    } else {
        None
    };
    let ghost decoded_tensors = match &tensors {
        Some(v) => v.deep_view(),
        None => Seq::<TensorSpec>::empty(),
    };
    proof {
        if p.tensors.len() == 0 {
            assert(p.deep_view().tensors.len() == 0);
            assert(spec_decode_tensors(p.deep_view().tensors) == Ok::<
                Seq<TensorSpec>,
                ProtoCodecErrorSpec,
            >(decoded_tensors));
        }
    }
    let fields = AttributeFields {
        float: if p.f != 0 && p.f != 0x8000_0000u32 {
            Some(p.f)
        } else {
            None
        },
        int: if p.i != 0 {
            Some(p.i)
        } else {
            None
        },
        string_bytes: if p.s.len() > 0 {
            Some(vstd::slice::slice_to_vec(p.s.as_slice()))
        } else {
            None
        },
        tensor,
        graph: match &p.g {
            Some(m) => Some(GraphRef { name: m.name.clone(), proto: m.bytes.clone() }),
            None => None,
        },
        floats: if p.floats.len() > 0 {
            Some(clone_u32s(&p.floats))
        } else {
            None
        },
        ints: if p.ints.len() > 0 {
            Some(vstd::slice::slice_to_vec(p.ints.as_slice()))
        } else {
            None
        },
        strings: if p.strings.len() > 0 {
            Some(lossy_strings(&p.strings))
        } else {
            None
        },
        tensors,
        graphs: if p.graphs.len() > 0 {
            Some(graph_refs(&p.graphs))
        } else {
            None
        },
    };
    proof {
        let t = match p.deep_view().t {
            Some(_) => Some(fields.tensor->0.deep_view()),
            None => None::<TensorSpec>,
        };
        assert(fields.deep_view() =~= attribute_fields(p.deep_view(), t, decoded_tensors));
    }
    if fields.float.is_some() && fields.int.is_some() {
        return Err(
            ProtoCodecError::Attribute(AttributeError::ConflictingValues { name: p.name.clone() }),
        );
    }
    if fields.float.is_none() && fields.int.is_none() && fields.string_bytes.is_none()
        && fields.tensor.is_none() && fields.graph.is_none() && fields.floats.is_none()
        && fields.ints.is_none() && fields.strings.is_none() && fields.tensors.is_none()
        && fields.graphs.is_none() {
        proof {
            reveal(crate::ir::attribute::flag);
        }
        return Err(no_value(&p.name));
    }
    proof {
        reveal(crate::ir::attribute::flag);
    }
    match attribute_from_fields(p.name.clone(), fields) {
        Ok(a) => Ok(a),
        Err(e) => Err(ProtoCodecError::Attribute(e)),
    }
}

/// The messages of a list of attributes.
pub open spec fn spec_encode_attributes(v: Seq<AttributeSpec>) -> Seq<AttributeProtoSpec> {
    v.map_values(|a: AttributeSpec| spec_encode_attribute(a))
}

/// The attributes of a list of messages, or the first error.
pub open spec fn spec_decode_attributes(ps: Seq<AttributeProtoSpec>) -> Result<
    Seq<AttributeSpec>,
    ProtoCodecErrorSpec,
> {
    collect_results(ps, |p: AttributeProtoSpec| spec_decode_attribute(p))
}

/// The message of a node: an absent name is written empty.
pub open spec fn spec_encode_node(n: NodeSpec) -> NodeProtoSpec {
    NodeProtoSpec {
        input: n.inputs,
        output: n.outputs,
        name: text_or_empty(n.name),
        op_type: n.op_type,
        domain: n.domain,
        overload: n.overload,
        attribute: spec_encode_attributes(n.attributes),
        doc_string: n.doc_string,
        metadata_props: n.metadata,
        device_configurations: n.device_configurations,
    }
}

/// The node of a message: an empty name reads as absent, and the first
/// attribute that cannot be read is the error.
pub open spec fn spec_decode_node(p: NodeProtoSpec) -> Result<NodeSpec, ProtoCodecErrorSpec> {
    match spec_decode_attributes(p.attribute) {
        Err(e) => Err(e),
        Ok(attributes) => Ok(
            NodeSpec {
                name: nonempty_text(p.name),
                op_type: p.op_type,
                domain: p.domain,
                inputs: p.input,
                outputs: p.output,
                attributes,
                overload: p.overload,
                doc_string: p.doc_string,
                metadata: p.metadata_props,
                device_configurations: p.device_configurations,
            },
        ),
    }
}

/// The messages of a list of attributes.
fn encode_attributes(v: &Vec<Attribute>) -> (r: Vec<AttributeProto>)
    ensures
        r.deep_view() == spec_encode_attributes(v.deep_view()),
{
    let mut r: Vec<AttributeProto> = Vec::new();
    let mut i: usize = 0;
    while i < v.len()
        invariant
            0 <= i <= v@.len(),
            r.deep_view() == spec_encode_attributes(v.deep_view().take(i as int)),
        decreases v@.len() - i,
    {
        let ghost before = r.deep_view();
        let p = encode_attribute(&v[i]);
        r.push(p);
        proof {
            assert(r.deep_view() =~= before.push(spec_encode_attribute(v.deep_view()[i as int])));
            assert(v.deep_view().take(i + 1) =~= v.deep_view().take(i as int).push(
                v.deep_view()[i as int],
            ));
            assert(r.deep_view() =~= spec_encode_attributes(v.deep_view().take(i + 1)));
        }
        i = i + 1;
    }
    proof {
        assert(v.deep_view().take(i as int) =~= v.deep_view());
    }
    r
}

/// The attributes of a list of messages, or the first error.
pub fn decode_attributes(ps: &Vec<AttributeProto>) -> (r: Result<Vec<Attribute>, ProtoCodecError>)
    ensures
        outcome(r, spec_decode_attributes(ps.deep_view())),
{
    let ghost f = |p: AttributeProtoSpec| spec_decode_attribute(p);
    let mut out: Vec<Attribute> = Vec::new();
    let mut i: usize = 0;
    proof {
        assert(ps.deep_view().take(0) =~= Seq::<AttributeProtoSpec>::empty());
        assert(out.deep_view() =~= Seq::<AttributeSpec>::empty());
    }
    while i < ps.len()
        invariant
            0 <= i <= ps@.len(),
            f == (|p: AttributeProtoSpec| spec_decode_attribute(p)),
            collect_results(ps.deep_view().take(i as int), f) == Ok::<
                Seq<AttributeSpec>,
                ProtoCodecErrorSpec,
            >(out.deep_view()),
        decreases ps@.len() - i,
    {
        let ghost done = out.deep_view();
        match decode_attribute(&ps[i]) {
            Ok(a) => {
                proof {
                    lemma_collect_step(ps.deep_view(), f, i as int, done, a.deep_view());
                }
                out.push(a);
                proof {
                    assert(out.deep_view() =~= done.push(a.deep_view()));
                }
            },
            Err(e) => {
                proof {
                    lemma_collect_error(ps.deep_view(), f, i as int, done, e.deep_view());
                }
                return Err(e);
            },
        }
        i = i + 1;
    }
    proof {
        assert(ps.deep_view().take(i as int) =~= ps.deep_view());
    }
    Ok(out)
}

/// The message of a node.
pub fn encode_node(n: &Node) -> (r: NodeProto)
    ensures
        r.deep_view() == spec_encode_node(n.deep_view()),
{
    let input = n.inputs.clone();
    let output = n.outputs.clone();
    let device_configurations = n.device_configurations.clone();
    proof {
        assert(input.deep_view() =~= n.inputs.deep_view());
        assert(output.deep_view() =~= n.outputs.deep_view());
        assert(device_configurations.deep_view() =~= n.device_configurations.deep_view());
    }
    let devices = device_messages(&device_configurations);
    NodeProto {
        input,
        output,
        name: opt_text(&n.name),
        op_type: n.op_type.clone(),
        domain: n.domain.clone(),
        overload: n.overload.clone(),
        attribute: encode_attributes(&n.attributes),
        doc_string: n.doc_string.clone(),
        metadata_props: copy_pairs(&n.metadata),
        device_configurations: devices,
    }
}

/// The messages of node device configurations, which carry the same parts.
fn device_messages(v: &Vec<crate::ir::NodeDeviceConfiguration>) -> (r: Vec<
    super::NodeDeviceConfigurationProto,
>)
    ensures
        r.deep_view() == v.deep_view(),
{
    let mut r: Vec<super::NodeDeviceConfigurationProto> = Vec::new();
    let mut i: usize = 0;
    while i < v.len()
        invariant
            0 <= i <= v@.len(),
            r.deep_view() == v.deep_view().take(i as int),
        decreases v@.len() - i,
    {
        let ghost before = r.deep_view();
        let c = v[i].clone();
        let m = super::NodeDeviceConfigurationProto {
            configuration_id: c.configuration_id,
            sharding_spec: c.sharding_specs_raw,
            pipeline_stage: c.pipeline_stage,
        };
        r.push(m);
        proof {
            assert(r.deep_view() =~= before.push(v.deep_view()[i as int]));
            assert(r.deep_view() =~= v.deep_view().take(i + 1));
        }
        i = i + 1;
    }
    proof {
        assert(v.deep_view().take(i as int) =~= v.deep_view());
    }
    r
}

/// Node device configurations of their messages, which carry the same parts.
fn device_configurations_of(v: &Vec<super::NodeDeviceConfigurationProto>) -> (r: Vec<
    crate::ir::NodeDeviceConfiguration,
>)
    ensures
        r.deep_view() == v.deep_view(),
{
    let mut r: Vec<crate::ir::NodeDeviceConfiguration> = Vec::new();
    let mut i: usize = 0;
    while i < v.len()
        invariant
            0 <= i <= v@.len(),
            r.deep_view() == v.deep_view().take(i as int),
        decreases v@.len() - i,
    {
        let ghost before = r.deep_view();
        let m = &v[i];
        let c = crate::ir::NodeDeviceConfiguration {
            configuration_id: m.configuration_id.clone(),
            pipeline_stage: m.pipeline_stage,
            sharding_specs_raw: crate::ir::graph::copy_byte_lists(&m.sharding_spec),
        };
        r.push(c);
        proof {
            assert(r.deep_view() =~= before.push(v.deep_view()[i as int]));
            assert(r.deep_view() =~= v.deep_view().take(i + 1));
        }
        i = i + 1;
    }
    proof {
        assert(v.deep_view().take(i as int) =~= v.deep_view());
    }
    r
}

/// The node of a message.
pub fn decode_node(p: &NodeProto) -> (r: Result<Node, ProtoCodecError>)
    ensures
        outcome(r, spec_decode_node(p.deep_view())),
{
    let attributes = match decode_attributes(&p.attribute) {
        Ok(a) => a,
        Err(e) => {
            return Err(e);
        },
    };
    let inputs = p.input.clone();
    let outputs = p.output.clone();
    proof {
        assert(inputs.deep_view() =~= p.input.deep_view());
        assert(outputs.deep_view() =~= p.output.deep_view());
    }
    Ok(
        Node {
            name: nonempty(&p.name),
            op_type: p.op_type.clone(),
            domain: p.domain.clone(),
            inputs,
            outputs,
            attributes,
            overload: p.overload.clone(),
            doc_string: p.doc_string.clone(),
            metadata: copy_pairs(&p.metadata_props),
            device_configurations: device_configurations_of(&p.device_configurations),
        },
    )
}

} // verus!
