//! Typed views of the ONNX-ML and core operators that the library knows.
//!
//! Each operator is a struct whose fields are its attributes. Its model is
//! the list of its attribute values in the order of its schema
//! (`values`), and `to_node` / `from_node` convert between the struct and a
//! generic [`Node`].
pub mod table;
pub mod aionnx;
pub mod preproc;
pub mod linear;
pub mod trees;
pub mod payload;

pub use aionnx::{Cast, Concat, Gather, Identity, Reshape};
pub use linear::{
    ClassLabels, LinearClassifier, LinearRegressor, SvmClassifier, SvmCommon, SvmRegressor,
};
pub use payload::{make_node_payload, NodePayload, TypedNode};
pub use preproc::{
    DictVectorizer, FeatureVectorizer, Imputer, LabelEncoder, Normalizer, OneHotEncoder, Scaler,
};
pub use table::{AttrKind, AttrTable, Arity, Field};
pub use trees::{TreeEnsembleClassifier, TreeEnsembleRegressor, TreeNodes, ZipMap};

use crate::ir::{Node, NodeSpec, Tensor, TensorSpec};
use crate::text::{decimal, debug_quoted, push_str, quoted, usize_to_string};
use vstd::prelude::*;

verus! {

/// Highest `ai.onnx.ml` opset whose operator forms the exporter writes.
pub const ML_EXPORT_OPSET_TARGET: i64 = 4;

/// Core opset that the typed core operators follow.
pub const CORE_TYPED_OPSET_TARGET: i64 = 21;

/// Highest IR version the codec reads.
pub const CODEC_MAX_IR_VERSION: i64 = 10;

/// Highest core opset the codec reads.
pub const CODEC_MAX_ONNX_OPSET: i64 = 25;

/// Highest `ai.onnx.ml` opset the codec reads.
pub const CODEC_MAX_ML_OPSET: i64 = 5;

/// The domain of the ONNX-ML operators.
pub const ML_DOMAIN_STR: &'static str = "ai.onnx.ml";

/// The domain of the core operators.
pub const ONNX_DOMAIN_STR: &'static str = "";

/// Mathematical model of [`OpError`].
#[allow(inconsistent_fields)]
pub enum OpErrorSpec {
    WrongOp {
        expected_domain: Seq<char>,
        expected_op: Seq<char>,
        got_domain: Seq<char>,
        got_op: Seq<char>,
    },
    MissingAttribute { op: Seq<char>, attr: Seq<char> },
    WrongAttributeType { op: Seq<char>, attr: Seq<char>, expected: Seq<char> },
    DuplicateAttribute { op: Seq<char>, attr: Seq<char> },
    UnknownAttribute { op: Seq<char>, attr: Seq<char> },
    WrongInputCount { op: Seq<char>, expected: Seq<char>, got: usize },
    WrongOutputCount { op: Seq<char>, expected: Seq<char>, got: usize },
    InvalidValue { op: Seq<char>, attr: Seq<char>, detail: Seq<char> },
}

/// Why a node is not a given operator, or an operator cannot become a node.
#[derive(Debug, PartialEq)]
pub enum OpError {
    WrongOp {
        expected_domain: &'static str,
        expected_op: &'static str,
        got_domain: String,
        got_op: String,
    },
    MissingAttribute { op: &'static str, attr: &'static str },
    WrongAttributeType { op: &'static str, attr: String, expected: &'static str },
    DuplicateAttribute { op: &'static str, attr: String },
    UnknownAttribute { op: &'static str, attr: String },
    WrongInputCount { op: &'static str, expected: String, got: usize },
    WrongOutputCount { op: &'static str, expected: String, got: usize },
    InvalidValue { op: &'static str, attr: String, detail: String },
}

impl DeepView for OpError {
    type V = OpErrorSpec;

    open spec fn deep_view(&self) -> OpErrorSpec {
        match self {
            OpError::WrongOp { expected_domain, expected_op, got_domain, got_op } =>
                OpErrorSpec::WrongOp {
                expected_domain: expected_domain@,
                expected_op: expected_op@,
                got_domain: got_domain@,
                got_op: got_op@,
            },
            OpError::MissingAttribute { op, attr } => OpErrorSpec::MissingAttribute {
                op: op@,
                attr: attr@,
            },
            OpError::WrongAttributeType { op, attr, expected } =>
                OpErrorSpec::WrongAttributeType { op: op@, attr: attr@, expected: expected@ },
            OpError::DuplicateAttribute { op, attr } => OpErrorSpec::DuplicateAttribute {
                op: op@,
                attr: attr@,
            },
            OpError::UnknownAttribute { op, attr } => OpErrorSpec::UnknownAttribute {
                op: op@,
                attr: attr@,
            },
            OpError::WrongInputCount { op, expected, got } => OpErrorSpec::WrongInputCount {
                op: op@,
                expected: expected@,
                got: *got,
            },
            OpError::WrongOutputCount { op, expected, got } => OpErrorSpec::WrongOutputCount {
                op: op@,
                expected: expected@,
                got: *got,
            },
            OpError::InvalidValue { op, attr, detail } => OpErrorSpec::InvalidValue {
                op: op@,
                attr: attr@,
                detail: detail@,
            },
        }
    }
}

impl Clone for OpError {
    fn clone(&self) -> (r: Self)
        ensures
            r.deep_view() == self.deep_view(),
    {
        match self {
            OpError::WrongOp { expected_domain, expected_op, got_domain, got_op } =>
                OpError::WrongOp {
                expected_domain: *expected_domain,
                expected_op: *expected_op,
                got_domain: got_domain.clone(),
                got_op: got_op.clone(),
            },
            OpError::MissingAttribute { op, attr } => OpError::MissingAttribute {
                op: *op,
                attr: *attr,
            },
            OpError::WrongAttributeType { op, attr, expected } => OpError::WrongAttributeType {
                op: *op,
                attr: attr.clone(),
                expected: *expected,
            },
            OpError::DuplicateAttribute { op, attr } => OpError::DuplicateAttribute {
                op: *op,
                attr: attr.clone(),
            },
            OpError::UnknownAttribute { op, attr } => OpError::UnknownAttribute {
                op: *op,
                attr: attr.clone(),
            },
            OpError::WrongInputCount { op, expected, got } => OpError::WrongInputCount {
                op: *op,
                expected: expected.clone(),
                got: *got,
            },
            OpError::WrongOutputCount { op, expected, got } => OpError::WrongOutputCount {
                op: *op,
                expected: expected.clone(),
                got: *got,
            },
            OpError::InvalidValue { op, attr, detail } => OpError::InvalidValue {
                op: *op,
                attr: attr.clone(),
                detail: detail.clone(),
            },
        }
    }
}

/// The text of an operator error.
pub open spec fn op_error_text(e: OpErrorSpec) -> Seq<char> {
    match e {
        OpErrorSpec::WrongOp { expected_domain, expected_op, got_domain, got_op } => "node ("@
            + debug_quoted(got_domain) + ", "@ + debug_quoted(got_op) + ") is not ("@
            + debug_quoted(expected_domain) + ", "@ + debug_quoted(expected_op) + ")"@,
        OpErrorSpec::MissingAttribute { op, attr } => "op "@ + op
            + " is missing required attribute "@ + debug_quoted(attr),
        OpErrorSpec::WrongAttributeType { op, attr, expected } => "op "@ + op + " attribute "@
            + debug_quoted(attr) + " has the wrong type, expected "@ + expected,
        OpErrorSpec::DuplicateAttribute { op, attr } => "op "@ + op + " has duplicate attribute "@
            + debug_quoted(attr),
        OpErrorSpec::UnknownAttribute { op, attr } => "op "@ + op
            + " has unrecognized attribute "@ + debug_quoted(attr),
        OpErrorSpec::WrongInputCount { op, expected, got } => "op "@ + op + " expects "@ + expected
            + " inputs, got "@ + decimal(got as nat),
        OpErrorSpec::WrongOutputCount { op, expected, got } => "op "@ + op + " expects "@ + expected
            + " outputs, got "@ + decimal(got as nat),
        OpErrorSpec::InvalidValue { op, attr, detail } => "op "@ + op + " attribute "@
            + debug_quoted(attr) + " is invalid: "@ + detail,
    }
}

impl OpError {
    /// The error as text.
    pub fn message(&self) -> (r: String)
        ensures
            r@ == op_error_text(self.deep_view()),
    {
        match self {
            OpError::WrongOp { expected_domain, expected_op, got_domain, got_op } => {
                let mut m = String::from_str("node (");
                push_str(&mut m, quoted(got_domain.as_str()).as_str());
                push_str(&mut m, ", ");
                push_str(&mut m, quoted(got_op.as_str()).as_str());
                push_str(&mut m, ") is not (");
                push_str(&mut m, quoted(expected_domain).as_str());
                push_str(&mut m, ", ");
                push_str(&mut m, quoted(expected_op).as_str());
                push_str(&mut m, ")");
                m
            },
            OpError::MissingAttribute { op, attr } => {
                let mut m = String::from_str("op ");
                push_str(&mut m, op);
                push_str(&mut m, " is missing required attribute ");
                push_str(&mut m, quoted(attr).as_str());
                m
            },
            OpError::WrongAttributeType { op, attr, expected } => {
                let mut m = String::from_str("op ");
                push_str(&mut m, op);
                push_str(&mut m, " attribute ");
                push_str(&mut m, quoted(attr.as_str()).as_str());
                push_str(&mut m, " has the wrong type, expected ");
                push_str(&mut m, expected);
                m
            },
            OpError::DuplicateAttribute { op, attr } => {
                let mut m = String::from_str("op ");
                push_str(&mut m, op);
                push_str(&mut m, " has duplicate attribute ");
                push_str(&mut m, quoted(attr.as_str()).as_str());
                m
            },
            OpError::UnknownAttribute { op, attr } => {
                let mut m = String::from_str("op ");
                push_str(&mut m, op);
                push_str(&mut m, " has unrecognized attribute ");
                push_str(&mut m, quoted(attr.as_str()).as_str());
                m
            },
            OpError::WrongInputCount { op, expected, got } => {
                let mut m = String::from_str("op ");
                push_str(&mut m, op);
                push_str(&mut m, " expects ");
                push_str(&mut m, expected.as_str());
                push_str(&mut m, " inputs, got ");
                push_str(&mut m, usize_to_string(*got).as_str());
                m
            },
            OpError::WrongOutputCount { op, expected, got } => {
                let mut m = String::from_str("op ");
                push_str(&mut m, op);
                push_str(&mut m, " expects ");
                push_str(&mut m, expected.as_str());
                push_str(&mut m, " outputs, got ");
                push_str(&mut m, usize_to_string(*got).as_str());
                m
            },
            OpError::InvalidValue { op, attr, detail } => {
                let mut m = String::from_str("op ");
                push_str(&mut m, op);
                push_str(&mut m, " attribute ");
                push_str(&mut m, quoted(attr.as_str()).as_str());
                push_str(&mut m, " is invalid: ");
                push_str(&mut m, detail.as_str());
                m
            },
        }
    }
}

/// Mathematical model of [`Emitted`].
pub struct EmittedSpec {
    pub node: NodeSpec,
    pub initializers: Seq<TensorSpec>,
}

/// A node produced from an operator, with the initializers it needs.
#[derive(Debug, PartialEq)]
pub struct Emitted {
    pub node: Node,
    pub initializers: Vec<Tensor>,
}

impl DeepView for Emitted {
    type V = EmittedSpec;

    open spec fn deep_view(&self) -> EmittedSpec {
        EmittedSpec { node: self.node.deep_view(), initializers: self.initializers.deep_view() }
    }
}

impl Clone for Emitted {
    fn clone(&self) -> (r: Self)
        ensures
            r.deep_view() == self.deep_view(),
    {
        let initializers = self.initializers.clone();
        proof {
            assert(initializers.deep_view() =~= self.initializers.deep_view());
        }
        Emitted { node: self.node.clone(), initializers }
    }
}

impl Emitted {
    /// A node that needs no initializer.
    pub fn single(node: Node) -> (r: Self)
        ensures
            r.deep_view() == (EmittedSpec {
                node: node.deep_view(),
                initializers: Seq::<TensorSpec>::empty(),
            }),
    {
        let r = Emitted { node, initializers: Vec::new() };
        proof {
            assert(r.initializers.deep_view() =~= Seq::<TensorSpec>::empty());
        }
        r
    }
}

/// An operator that converts to and from a generic [`Node`].
pub trait OnnxOp: Sized {
    /// The operator's name, as text.
    spec fn op_name() -> Seq<char>;

    /// The operator's name.
    fn op_type() -> (r: &'static str)
        ensures
            r@ == Self::op_name(),
    ;

    /// The operator's domain.
    fn domain() -> (r: &'static str);

    /// Whether a node reads back as this operator.
    spec fn recognizes(node: NodeSpec) -> bool;

    /// What applying this operator to `inputs`, giving `outputs`, produces.
    spec fn emits(&self, inputs: Seq<Seq<char>>, outputs: Seq<Seq<char>>) -> Result<
        EmittedSpec,
        OpErrorSpec,
    >;

    /// The node that applies this operator to `inputs`, giving `outputs`.
    fn to_node(&self, inputs: Vec<String>, outputs: Vec<String>) -> (r: Result<Emitted, OpError>)
        ensures
            match self.emits(inputs.deep_view(), outputs.deep_view()) {
                Ok(em) => r matches Ok(x) && x.deep_view() == em,
                Err(e) => r matches Err(x) && x.deep_view() == e,
            },
    ;

    /// Reads a node back as this operator.
    fn from_node(node: &Node) -> (r: Result<Self, OpError>)
        ensures
            r is Ok <==> Self::recognizes(node.deep_view()),
    ;
}

/// Something that takes emitted nodes, such as a graph being built.
pub trait OpSink: Sized {
    /// Why the sink refused a node.
    type Error;

    /// Whether `err` is how the sink reports the conversion error `e`.
    spec fn reports(e: OpErrorSpec, err: Self::Error) -> bool;

    /// Whether taking `em` may turn the sink `before` into `after` and
    /// answer `r`.
    spec fn takes(
        before: Self,
        em: EmittedSpec,
        after: Self,
        r: Result<(Vec<String>, Vec<String>), Self::Error>,
    ) -> bool;

    /// The error the sink reports for an operator that could not be
    /// converted.
    fn op_error(e: OpError) -> (r: Self::Error)
        ensures
            Self::reports(e.deep_view(), r),
    ;

    /// Takes an emitted node and answers with its input and output names.
    fn emit(&mut self, emitted: Emitted) -> (r: Result<(Vec<String>, Vec<String>), Self::Error>)
        ensures
            Self::takes(*old(self), emitted.deep_view(), *final(self), r),
    ;
}

/// Converts an operator applied to `inputs`, giving `outputs`, and hands the
/// result to `sink`; an operator that cannot be converted is reported as
/// the sink's error, and the sink is not called.
pub fn emit_op<S: OpSink, O: OnnxOp>(
    sink: &mut S,
    op: &O,
    inputs: Vec<String>,
    outputs: Vec<String>,
) -> (r: Result<(Vec<String>, Vec<String>), S::Error>)
    ensures
        match op.emits(inputs.deep_view(), outputs.deep_view()) {
            Ok(em) => S::takes(*old(sink), em, *final(sink), r),
            Err(e) => r matches Err(x) && S::reports(e, x) && *final(sink) == *old(sink),
        },
{
    let emitted = op.to_node(inputs, outputs);
    match emitted {
        Ok(em) => sink.emit(em),
        Err(e) => Err(S::op_error(e)),
    }
}

} // verus!
