//! Recognition of typed operators in generic nodes.
use super::{
    Cast, Concat, DictVectorizer, FeatureVectorizer, Gather, Identity, Imputer, LabelEncoder,
    LinearClassifier, LinearRegressor, Normalizer, OneHotEncoder, OnnxOp, OpError, Reshape,
    Scaler, SvmClassifier, SvmRegressor, TreeEnsembleClassifier, TreeEnsembleRegressor, ZipMap,
    ML_DOMAIN_STR, ONNX_DOMAIN_STR,
};
use crate::ir::{Node, NodeSpec};
use crate::text::str_eq;
use vstd::prelude::*;

verus! {

/// An operator read from a node, with the node it was read from.
#[derive(Debug, Clone, PartialEq)]
pub struct TypedNode<O> {
    pub op: O,
    pub node: Node,
}

impl<O: OnnxOp> TypedNode<O> {
    /// Reads a node as the operator `O`, keeping the node.
    pub fn recognize(node: &Node) -> (r: Result<Self, OpError>)
        ensures
            r is Ok <==> O::recognizes(node.deep_view()),
            r matches Ok(t) ==> t.node.deep_view() == node.deep_view(),
    {
        match O::from_node(node) {
            Ok(op) => Ok(TypedNode { op, node: node.clone() }),
            Err(e) => Err(e),
        }
    }
}

/// A node of a model: recognized as a typed operator, or kept as it is.
#[derive(Debug, Clone, PartialEq)]
pub enum NodePayload {
    Scaler(TypedNode<Scaler>),
    Imputer(TypedNode<Imputer>),
    Normalizer(TypedNode<Normalizer>),
    LabelEncoder(TypedNode<LabelEncoder>),
    OneHotEncoder(TypedNode<OneHotEncoder>),
    DictVectorizer(TypedNode<DictVectorizer>),
    FeatureVectorizer(TypedNode<FeatureVectorizer>),
    LinearClassifier(TypedNode<LinearClassifier>),
    LinearRegressor(TypedNode<LinearRegressor>),
    SvmClassifier(TypedNode<SvmClassifier>),
    SvmRegressor(TypedNode<SvmRegressor>),
    TreeEnsembleClassifier(TypedNode<TreeEnsembleClassifier>),
    TreeEnsembleRegressor(TypedNode<TreeEnsembleRegressor>),
    ZipMap(TypedNode<ZipMap>),
    Cast(TypedNode<Cast>),
    Reshape(TypedNode<Reshape>),
    Concat(TypedNode<Concat>),
    Gather(TypedNode<Gather>),
    Identity(TypedNode<Identity>),
    Raw(Node),
}

impl NodePayload {
    /// The node behind the payload.
    pub open spec fn spec_node(&self) -> Node {
        match self {
            NodePayload::Scaler(t) => t.node,
            NodePayload::Imputer(t) => t.node,
            NodePayload::Normalizer(t) => t.node,
            NodePayload::LabelEncoder(t) => t.node,
            NodePayload::OneHotEncoder(t) => t.node,
            NodePayload::DictVectorizer(t) => t.node,
            NodePayload::FeatureVectorizer(t) => t.node,
            NodePayload::LinearClassifier(t) => t.node,
            NodePayload::LinearRegressor(t) => t.node,
            NodePayload::SvmClassifier(t) => t.node,
            NodePayload::SvmRegressor(t) => t.node,
            NodePayload::TreeEnsembleClassifier(t) => t.node,
            NodePayload::TreeEnsembleRegressor(t) => t.node,
            NodePayload::ZipMap(t) => t.node,
            NodePayload::Cast(t) => t.node,
            NodePayload::Reshape(t) => t.node,
            NodePayload::Concat(t) => t.node,
            NodePayload::Gather(t) => t.node,
            NodePayload::Identity(t) => t.node,
            NodePayload::Raw(n) => *n,
        }
    }

    /// The node behind the payload.
    pub fn node(&self) -> (r: &Node)
        ensures
            *r == self.spec_node(),
    {
        match self {
            NodePayload::Scaler(t) => &t.node,
            NodePayload::Imputer(t) => &t.node,
            NodePayload::Normalizer(t) => &t.node,
            NodePayload::LabelEncoder(t) => &t.node,
            NodePayload::OneHotEncoder(t) => &t.node,
            NodePayload::DictVectorizer(t) => &t.node,
            NodePayload::FeatureVectorizer(t) => &t.node,
            NodePayload::LinearClassifier(t) => &t.node,
            NodePayload::LinearRegressor(t) => &t.node,
            NodePayload::SvmClassifier(t) => &t.node,
            NodePayload::SvmRegressor(t) => &t.node,
            NodePayload::TreeEnsembleClassifier(t) => &t.node,
            NodePayload::TreeEnsembleRegressor(t) => &t.node,
            NodePayload::ZipMap(t) => &t.node,
            NodePayload::Cast(t) => &t.node,
            NodePayload::Reshape(t) => &t.node,
            NodePayload::Concat(t) => &t.node,
            NodePayload::Gather(t) => &t.node,
            NodePayload::Identity(t) => &t.node,
            NodePayload::Raw(n) => n,
        }
    }

    /// Whether the node was kept as it is.
    pub fn is_raw(&self) -> (r: bool)
        ensures
            r == (self is Raw),
    {
        match self {
            NodePayload::Raw(_) => true,
            _ => false,
        }
    }
}

/// Which typed operator a node names, as a position in the list of typed
/// operators; `255` when it names none.
pub open spec fn op_index(n: NodeSpec) -> u8 {
    if n.domain == ML_DOMAIN_STR@ {
        if n.op_type == "Scaler"@ {
            0
        } else if n.op_type == "Imputer"@ {
            1
        } else if n.op_type == "Normalizer"@ {
            2
        } else if n.op_type == "LabelEncoder"@ {
            3
        } else if n.op_type == "OneHotEncoder"@ {
            4
        } else if n.op_type == "DictVectorizer"@ {
            5
        } else if n.op_type == "FeatureVectorizer"@ {
            6
        } else if n.op_type == "LinearClassifier"@ {
            7
        } else if n.op_type == "LinearRegressor"@ {
            8
        } else if n.op_type == "SVMClassifier"@ {
            9
        } else if n.op_type == "SVMRegressor"@ {
            10
        } else if n.op_type == "TreeEnsembleClassifier"@ {
            11
        } else if n.op_type == "TreeEnsembleRegressor"@ {
            12
        } else if n.op_type == "ZipMap"@ {
            13
        } else {
            255
        }
    } else if n.domain == ONNX_DOMAIN_STR@ {
        if n.op_type == "Cast"@ {
            14
        } else if n.op_type == "Reshape"@ {
            15
        } else if n.op_type == "Concat"@ {
            16
        } else if n.op_type == "Gather"@ {
            17
        } else if n.op_type == "Identity"@ {
            18
        } else {
            255
        }
    } else {
        255
    }
}

/// Whether a node names one of the typed operators and reads back as it.
pub open spec fn recognized(n: NodeSpec) -> bool {
    match op_index(n) {
        0 => Scaler::recognizes(n),
        1 => Imputer::recognizes(n),
        2 => Normalizer::recognizes(n),
        3 => LabelEncoder::recognizes(n),
        4 => OneHotEncoder::recognizes(n),
        5 => DictVectorizer::recognizes(n),
        6 => FeatureVectorizer::recognizes(n),
        7 => LinearClassifier::recognizes(n),
        8 => LinearRegressor::recognizes(n),
        9 => SvmClassifier::recognizes(n),
        10 => SvmRegressor::recognizes(n),
        11 => TreeEnsembleClassifier::recognizes(n),
        12 => TreeEnsembleRegressor::recognizes(n),
        13 => ZipMap::recognizes(n),
        14 => Cast::recognizes(n),
        15 => Reshape::recognizes(n),
        16 => Concat::recognizes(n),
        17 => Gather::recognizes(n),
        18 => Identity::recognizes(n),
        _ => false,
    }
}

/// Whether a payload is what a node reads as: the typed operator the node
/// names, read from it, or the node itself when it names none or does not
/// read back as the one it names.
pub open spec fn payload_of(r: NodePayload, n: NodeSpec) -> bool {
    match r {
        NodePayload::Scaler(t) => op_index(n) == 0 && t.node.deep_view() == n && Scaler::spec_parse(n) == Ok::<Seq<Option<crate::ir::AttributeValueSpec>>, super::OpErrorSpec>(t.op.values()),
        NodePayload::Imputer(t) => op_index(n) == 1 && t.node.deep_view() == n && Imputer::spec_parse(n) == Ok::<Seq<Option<crate::ir::AttributeValueSpec>>, super::OpErrorSpec>(t.op.values()),
        NodePayload::Normalizer(t) => op_index(n) == 2 && t.node.deep_view() == n && Normalizer::spec_parse(n) == Ok::<Seq<Option<crate::ir::AttributeValueSpec>>, super::OpErrorSpec>(t.op.values()),
        NodePayload::LabelEncoder(t) => op_index(n) == 3 && t.node.deep_view() == n && LabelEncoder::spec_parse(n) == Ok::<Seq<Option<crate::ir::AttributeValueSpec>>, super::OpErrorSpec>(t.op.values()),
        NodePayload::OneHotEncoder(t) => op_index(n) == 4 && t.node.deep_view() == n && OneHotEncoder::spec_parse(n) == Ok::<Seq<Option<crate::ir::AttributeValueSpec>>, super::OpErrorSpec>(t.op.values()),
        NodePayload::DictVectorizer(t) => op_index(n) == 5 && t.node.deep_view() == n && DictVectorizer::spec_parse(n) == Ok::<Seq<Option<crate::ir::AttributeValueSpec>>, super::OpErrorSpec>(t.op.values()),
        NodePayload::FeatureVectorizer(t) => op_index(n) == 6 && t.node.deep_view() == n && FeatureVectorizer::spec_parse(n) == Ok::<Seq<Option<crate::ir::AttributeValueSpec>>, super::OpErrorSpec>(t.op.values()),
        NodePayload::LinearClassifier(t) => op_index(n) == 7 && t.node.deep_view() == n && LinearClassifier::spec_parse(n) == Ok::<Seq<Option<crate::ir::AttributeValueSpec>>, super::OpErrorSpec>(t.op.values()),
        NodePayload::LinearRegressor(t) => op_index(n) == 8 && t.node.deep_view() == n && LinearRegressor::spec_parse(n) == Ok::<Seq<Option<crate::ir::AttributeValueSpec>>, super::OpErrorSpec>(t.op.values()),
        NodePayload::SvmClassifier(t) => op_index(n) == 9 && t.node.deep_view() == n && SvmClassifier::spec_parse(n) == Ok::<Seq<Option<crate::ir::AttributeValueSpec>>, super::OpErrorSpec>(t.op.values()),
        NodePayload::SvmRegressor(t) => op_index(n) == 10 && t.node.deep_view() == n && SvmRegressor::spec_parse(n) == Ok::<Seq<Option<crate::ir::AttributeValueSpec>>, super::OpErrorSpec>(t.op.values()),
        NodePayload::TreeEnsembleClassifier(t) => op_index(n) == 11 && t.node.deep_view() == n && TreeEnsembleClassifier::spec_parse(n) == Ok::<Seq<Option<crate::ir::AttributeValueSpec>>, super::OpErrorSpec>(t.op.values()),
        NodePayload::TreeEnsembleRegressor(t) => op_index(n) == 12 && t.node.deep_view() == n && TreeEnsembleRegressor::spec_parse(n) == Ok::<Seq<Option<crate::ir::AttributeValueSpec>>, super::OpErrorSpec>(t.op.values()),
        NodePayload::ZipMap(t) => op_index(n) == 13 && t.node.deep_view() == n && ZipMap::spec_parse(n) == Ok::<Seq<Option<crate::ir::AttributeValueSpec>>, super::OpErrorSpec>(t.op.values()),
        NodePayload::Cast(t) => op_index(n) == 14 && t.node.deep_view() == n && Cast::spec_accepts(n) && t.op.to.code() == Cast::spec_to_code(Cast::spec_parse(n)->Ok_0) && crate::ml::table::int_value(t.op.saturate) == Cast::spec_parse(n)->Ok_0[1],
        NodePayload::Reshape(t) => op_index(n) == 15 && t.node.deep_view() == n && Reshape::spec_parse(n) == Ok::<Seq<Option<crate::ir::AttributeValueSpec>>, super::OpErrorSpec>(t.op.values()),
        NodePayload::Concat(t) => op_index(n) == 16 && t.node.deep_view() == n && Concat::spec_parse(n) == Ok::<Seq<Option<crate::ir::AttributeValueSpec>>, super::OpErrorSpec>(t.op.values()),
        NodePayload::Gather(t) => op_index(n) == 17 && t.node.deep_view() == n && Gather::spec_parse(n) == Ok::<Seq<Option<crate::ir::AttributeValueSpec>>, super::OpErrorSpec>(t.op.values()),
        NodePayload::Identity(t) => op_index(n) == 18 && t.node.deep_view() == n && Identity::spec_parse(n) == Ok::<Seq<Option<crate::ir::AttributeValueSpec>>, super::OpErrorSpec>(t.op.values()),
        NodePayload::Raw(m) => m.deep_view() == n && !recognized(n),
    }
}

/// A node that names a typed operator by its domain and type and reads
/// back as that operator is read as it, never kept raw: for every payload
/// that a node reads as, the payload is of the operator the node names
/// whenever the node reads back as that operator.
#[verifier::rlimit(100)]
pub proof fn lemma_named_operator_is_typed(r: NodePayload, n: NodeSpec)
    requires
        payload_of(r, n),
    ensures
        n.domain == "ai.onnx.ml"@ && n.op_type == "Scaler"@ && Scaler::recognizes(n) ==> r is Scaler,
        n.domain == "ai.onnx.ml"@ && n.op_type == "Imputer"@ && Imputer::recognizes(n) ==> r is Imputer,
        n.domain == "ai.onnx.ml"@ && n.op_type == "Normalizer"@ && Normalizer::recognizes(n) ==> r is Normalizer,
        n.domain == "ai.onnx.ml"@ && n.op_type == "LabelEncoder"@ && LabelEncoder::recognizes(n) ==> r is LabelEncoder,
        n.domain == "ai.onnx.ml"@ && n.op_type == "OneHotEncoder"@ && OneHotEncoder::recognizes(n) ==> r is OneHotEncoder,
        n.domain == "ai.onnx.ml"@ && n.op_type == "DictVectorizer"@ && DictVectorizer::recognizes(n) ==> r is DictVectorizer,
        n.domain == "ai.onnx.ml"@ && n.op_type == "FeatureVectorizer"@ && FeatureVectorizer::recognizes(n) ==> r is FeatureVectorizer,
        n.domain == "ai.onnx.ml"@ && n.op_type == "LinearClassifier"@ && LinearClassifier::recognizes(n) ==> r is LinearClassifier,
        n.domain == "ai.onnx.ml"@ && n.op_type == "LinearRegressor"@ && LinearRegressor::recognizes(n) ==> r is LinearRegressor,
        n.domain == "ai.onnx.ml"@ && n.op_type == "SVMClassifier"@ && SvmClassifier::recognizes(n) ==> r is SvmClassifier,
        n.domain == "ai.onnx.ml"@ && n.op_type == "SVMRegressor"@ && SvmRegressor::recognizes(n) ==> r is SvmRegressor,
        n.domain == "ai.onnx.ml"@ && n.op_type == "TreeEnsembleClassifier"@ && TreeEnsembleClassifier::recognizes(n) ==> r is TreeEnsembleClassifier,
        n.domain == "ai.onnx.ml"@ && n.op_type == "TreeEnsembleRegressor"@ && TreeEnsembleRegressor::recognizes(n) ==> r is TreeEnsembleRegressor,
        n.domain == "ai.onnx.ml"@ && n.op_type == "ZipMap"@ && ZipMap::recognizes(n) ==> r is ZipMap,
        n.domain.len() == 0 && n.op_type == "Cast"@ && Cast::recognizes(n) ==> r is Cast,
        n.domain.len() == 0 && n.op_type == "Reshape"@ && Reshape::recognizes(n) ==> r is Reshape,
        n.domain.len() == 0 && n.op_type == "Concat"@ && Concat::recognizes(n) ==> r is Concat,
        n.domain.len() == 0 && n.op_type == "Gather"@ && Gather::recognizes(n) ==> r is Gather,
        n.domain.len() == 0 && n.op_type == "Identity"@ && Identity::recognizes(n) ==> r is Identity,
{
    reveal_strlit("Scaler");
    reveal_strlit("Imputer");
    reveal_strlit("Normalizer");
    reveal_strlit("LabelEncoder");
    reveal_strlit("OneHotEncoder");
    reveal_strlit("DictVectorizer");
    reveal_strlit("FeatureVectorizer");
    reveal_strlit("LinearClassifier");
    reveal_strlit("LinearRegressor");
    reveal_strlit("SVMClassifier");
    reveal_strlit("SVMRegressor");
    reveal_strlit("TreeEnsembleClassifier");
    reveal_strlit("TreeEnsembleRegressor");
    reveal_strlit("ZipMap");
    reveal_strlit("Cast");
    reveal_strlit("Reshape");
    reveal_strlit("Concat");
    reveal_strlit("Gather");
    reveal_strlit("Identity");
    reveal_strlit("ai.onnx.ml");
    assert("Scaler"@.len() == 6 && "Scaler"@[0] == 'S');
    assert("Imputer"@.len() == 7 && "Imputer"@[0] == 'I');
    assert("Normalizer"@.len() == 10 && "Normalizer"@[0] == 'N');
    assert("LabelEncoder"@.len() == 12 && "LabelEncoder"@[0] == 'L');
    assert("OneHotEncoder"@.len() == 13 && "OneHotEncoder"@[0] == 'O');
    assert("DictVectorizer"@.len() == 14 && "DictVectorizer"@[0] == 'D');
    assert("FeatureVectorizer"@.len() == 17 && "FeatureVectorizer"@[0] == 'F');
    assert("LinearClassifier"@.len() == 16 && "LinearClassifier"@[0] == 'L');
    assert("LinearRegressor"@.len() == 15 && "LinearRegressor"@[0] == 'L');
    assert("SVMClassifier"@.len() == 13 && "SVMClassifier"@[0] == 'S');
    assert("SVMRegressor"@.len() == 12 && "SVMRegressor"@[0] == 'S');
    assert("TreeEnsembleClassifier"@.len() == 22 && "TreeEnsembleClassifier"@[0] == 'T');
    assert("TreeEnsembleRegressor"@.len() == 21 && "TreeEnsembleRegressor"@[0] == 'T');
    assert("ZipMap"@.len() == 6 && "ZipMap"@[0] == 'Z');
    assert("Cast"@.len() == 4 && "Cast"@[0] == 'C');
    assert("Reshape"@.len() == 7 && "Reshape"@[0] == 'R');
    assert("Concat"@.len() == 6 && "Concat"@[0] == 'C');
    assert("Gather"@.len() == 6 && "Gather"@[0] == 'G');
    assert("Identity"@.len() == 8 && "Identity"@[0] == 'I');
    assert("ai.onnx.ml"@.len() == 10 && "ai.onnx.ml"@[0] == 'a');
    assert(ML_DOMAIN_STR@ == "ai.onnx.ml"@);
    assert(ONNX_DOMAIN_STR@ == ""@);
}

/// Reads a node as the typed operator it names, keeping it as it is when
/// it names none or does not read back as the one it names.
pub fn make_node_payload(node: &Node) -> (r: NodePayload)
    ensures
        payload_of(r, node.deep_view()),
        r.spec_node().deep_view() == node.deep_view(),
{
    let d = node.domain.as_str();
    let o = node.op_type.as_str();
    if str_eq(d, ML_DOMAIN_STR) {
        if str_eq(o, "Scaler") {
            read_scaler(node)
        } else if str_eq(o, "Imputer") {
            read_imputer(node)
        } else if str_eq(o, "Normalizer") {
            read_normalizer(node)
        } else if str_eq(o, "LabelEncoder") {
            read_labelencoder(node)
        } else if str_eq(o, "OneHotEncoder") {
            read_onehotencoder(node)
        } else if str_eq(o, "DictVectorizer") {
            read_dictvectorizer(node)
        } else if str_eq(o, "FeatureVectorizer") {
            read_featurevectorizer(node)
        } else if str_eq(o, "LinearClassifier") {
            read_linearclassifier(node)
        } else if str_eq(o, "LinearRegressor") {
            read_linearregressor(node)
        } else if str_eq(o, "SVMClassifier") {
            read_svmclassifier(node)
        } else if str_eq(o, "SVMRegressor") {
            read_svmregressor(node)
        } else if str_eq(o, "TreeEnsembleClassifier") {
            read_treeensembleclassifier(node)
        } else if str_eq(o, "TreeEnsembleRegressor") {
            read_treeensembleregressor(node)
        } else if str_eq(o, "ZipMap") {
            read_zipmap(node)
        } else {
            NodePayload::Raw(node.clone())
        }
    } else if str_eq(d, ONNX_DOMAIN_STR) {
        if str_eq(o, "Cast") {
            read_cast(node)
        } else if str_eq(o, "Reshape") {
            read_reshape(node)
        } else if str_eq(o, "Concat") {
            read_concat(node)
        } else if str_eq(o, "Gather") {
            read_gather(node)
        } else if str_eq(o, "Identity") {
            read_identity(node)
        } else {
            NodePayload::Raw(node.clone())
        }
    } else {
        NodePayload::Raw(node.clone())
    }
}

#[verifier::rlimit(60)]
fn read_scaler(node: &Node) -> (r: NodePayload)
    requires
        op_index(node.deep_view()) == 0,
    ensures
        payload_of(r, node.deep_view()),
        r.spec_node().deep_view() == node.deep_view(),
{
    match Scaler::from_node(node) {
        Ok(op) => NodePayload::Scaler(TypedNode { op, node: node.clone() }),
        Err(_) => NodePayload::Raw(node.clone()),
    }
}

#[verifier::rlimit(60)]
fn read_imputer(node: &Node) -> (r: NodePayload)
    requires
        op_index(node.deep_view()) == 1,
    ensures
        payload_of(r, node.deep_view()),
        r.spec_node().deep_view() == node.deep_view(),
{
    match Imputer::from_node(node) {
        Ok(op) => NodePayload::Imputer(TypedNode { op, node: node.clone() }),
        Err(_) => NodePayload::Raw(node.clone()),
    }
}

#[verifier::rlimit(60)]
fn read_normalizer(node: &Node) -> (r: NodePayload)
    requires
        op_index(node.deep_view()) == 2,
    ensures
        payload_of(r, node.deep_view()),
        r.spec_node().deep_view() == node.deep_view(),
{
    match Normalizer::from_node(node) {
        Ok(op) => NodePayload::Normalizer(TypedNode { op, node: node.clone() }),
        Err(_) => NodePayload::Raw(node.clone()),
    }
}

#[verifier::rlimit(60)]
fn read_labelencoder(node: &Node) -> (r: NodePayload)
    requires
        op_index(node.deep_view()) == 3,
    ensures
        payload_of(r, node.deep_view()),
        r.spec_node().deep_view() == node.deep_view(),
{
    match LabelEncoder::from_node(node) {
        Ok(op) => NodePayload::LabelEncoder(TypedNode { op, node: node.clone() }),
        Err(_) => NodePayload::Raw(node.clone()),
    }
}

#[verifier::rlimit(60)]
fn read_onehotencoder(node: &Node) -> (r: NodePayload)
    requires
        op_index(node.deep_view()) == 4,
    ensures
        payload_of(r, node.deep_view()),
        r.spec_node().deep_view() == node.deep_view(),
{
    match OneHotEncoder::from_node(node) {
        Ok(op) => NodePayload::OneHotEncoder(TypedNode { op, node: node.clone() }),
        Err(_) => NodePayload::Raw(node.clone()),
    }
}

#[verifier::rlimit(60)]
fn read_dictvectorizer(node: &Node) -> (r: NodePayload)
    requires
        op_index(node.deep_view()) == 5,
    ensures
        payload_of(r, node.deep_view()),
        r.spec_node().deep_view() == node.deep_view(),
{
    match DictVectorizer::from_node(node) {
        Ok(op) => NodePayload::DictVectorizer(TypedNode { op, node: node.clone() }),
        Err(_) => NodePayload::Raw(node.clone()),
    }
}

#[verifier::rlimit(60)]
fn read_featurevectorizer(node: &Node) -> (r: NodePayload)
    requires
        op_index(node.deep_view()) == 6,
    ensures
        payload_of(r, node.deep_view()),
        r.spec_node().deep_view() == node.deep_view(),
{
    match FeatureVectorizer::from_node(node) {
        Ok(op) => NodePayload::FeatureVectorizer(TypedNode { op, node: node.clone() }),
        Err(_) => NodePayload::Raw(node.clone()),
    }
}

#[verifier::rlimit(60)]
fn read_linearclassifier(node: &Node) -> (r: NodePayload)
    requires
        op_index(node.deep_view()) == 7,
    ensures
        payload_of(r, node.deep_view()),
        r.spec_node().deep_view() == node.deep_view(),
{
    match LinearClassifier::from_node(node) {
        Ok(op) => NodePayload::LinearClassifier(TypedNode { op, node: node.clone() }),
        Err(_) => NodePayload::Raw(node.clone()),
    }
}

#[verifier::rlimit(60)]
fn read_linearregressor(node: &Node) -> (r: NodePayload)
    requires
        op_index(node.deep_view()) == 8,
    ensures
        payload_of(r, node.deep_view()),
        r.spec_node().deep_view() == node.deep_view(),
{
    match LinearRegressor::from_node(node) {
        Ok(op) => NodePayload::LinearRegressor(TypedNode { op, node: node.clone() }),
        Err(_) => NodePayload::Raw(node.clone()),
    }
}

#[verifier::rlimit(60)]
fn read_svmclassifier(node: &Node) -> (r: NodePayload)
    requires
        op_index(node.deep_view()) == 9,
    ensures
        payload_of(r, node.deep_view()),
        r.spec_node().deep_view() == node.deep_view(),
{
    match SvmClassifier::from_node(node) {
        Ok(op) => NodePayload::SvmClassifier(TypedNode { op, node: node.clone() }),
        Err(_) => NodePayload::Raw(node.clone()),
    }
}

#[verifier::rlimit(60)]
fn read_svmregressor(node: &Node) -> (r: NodePayload)
    requires
        op_index(node.deep_view()) == 10,
    ensures
        payload_of(r, node.deep_view()),
        r.spec_node().deep_view() == node.deep_view(),
{
    match SvmRegressor::from_node(node) {
        Ok(op) => NodePayload::SvmRegressor(TypedNode { op, node: node.clone() }),
        Err(_) => NodePayload::Raw(node.clone()),
    }
}

#[verifier::rlimit(60)]
fn read_treeensembleclassifier(node: &Node) -> (r: NodePayload)
    requires
        op_index(node.deep_view()) == 11,
    ensures
        payload_of(r, node.deep_view()),
        r.spec_node().deep_view() == node.deep_view(),
{
    match TreeEnsembleClassifier::from_node(node) {
        Ok(op) => NodePayload::TreeEnsembleClassifier(TypedNode { op, node: node.clone() }),
        Err(_) => NodePayload::Raw(node.clone()),
    }
}

#[verifier::rlimit(60)]
fn read_treeensembleregressor(node: &Node) -> (r: NodePayload)
    requires
        op_index(node.deep_view()) == 12,
    ensures
        payload_of(r, node.deep_view()),
        r.spec_node().deep_view() == node.deep_view(),
{
    match TreeEnsembleRegressor::from_node(node) {
        Ok(op) => NodePayload::TreeEnsembleRegressor(TypedNode { op, node: node.clone() }),
        Err(_) => NodePayload::Raw(node.clone()),
    }
}

#[verifier::rlimit(60)]
fn read_zipmap(node: &Node) -> (r: NodePayload)
    requires
        op_index(node.deep_view()) == 13,
    ensures
        payload_of(r, node.deep_view()),
        r.spec_node().deep_view() == node.deep_view(),
{
    match ZipMap::from_node(node) {
        Ok(op) => NodePayload::ZipMap(TypedNode { op, node: node.clone() }),
        Err(_) => NodePayload::Raw(node.clone()),
    }
}

#[verifier::rlimit(60)]
fn read_cast(node: &Node) -> (r: NodePayload)
    requires
        op_index(node.deep_view()) == 14,
    ensures
        payload_of(r, node.deep_view()),
        r.spec_node().deep_view() == node.deep_view(),
{
    match Cast::from_node(node) {
        Ok(op) => NodePayload::Cast(TypedNode { op, node: node.clone() }),
        Err(_) => NodePayload::Raw(node.clone()),
    }
}

#[verifier::rlimit(60)]
fn read_reshape(node: &Node) -> (r: NodePayload)
    requires
        op_index(node.deep_view()) == 15,
    ensures
        payload_of(r, node.deep_view()),
        r.spec_node().deep_view() == node.deep_view(),
{
    match Reshape::from_node(node) {
        Ok(op) => NodePayload::Reshape(TypedNode { op, node: node.clone() }),
        Err(_) => NodePayload::Raw(node.clone()),
    }
}

#[verifier::rlimit(60)]
fn read_concat(node: &Node) -> (r: NodePayload)
    requires
        op_index(node.deep_view()) == 16,
    ensures
        payload_of(r, node.deep_view()),
        r.spec_node().deep_view() == node.deep_view(),
{
    match Concat::from_node(node) {
        Ok(op) => NodePayload::Concat(TypedNode { op, node: node.clone() }),
        Err(_) => NodePayload::Raw(node.clone()),
    }
}

#[verifier::rlimit(60)]
fn read_gather(node: &Node) -> (r: NodePayload)
    requires
        op_index(node.deep_view()) == 17,
    ensures
        payload_of(r, node.deep_view()),
        r.spec_node().deep_view() == node.deep_view(),
{
    match Gather::from_node(node) {
        Ok(op) => NodePayload::Gather(TypedNode { op, node: node.clone() }),
        Err(_) => NodePayload::Raw(node.clone()),
    }
}

#[verifier::rlimit(60)]
fn read_identity(node: &Node) -> (r: NodePayload)
    requires
        op_index(node.deep_view()) == 18,
    ensures
        payload_of(r, node.deep_view()),
        r.spec_node().deep_view() == node.deep_view(),
{
    match Identity::from_node(node) {
        Ok(op) => NodePayload::Identity(TypedNode { op, node: node.clone() }),
        Err(_) => NodePayload::Raw(node.clone()),
    }
}

} // verus!