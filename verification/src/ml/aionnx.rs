//! Core (`ai.onnx`) operators that ML pipelines use.
use super::table::{
    build_node, distinct_names, emit_node, get_int, lemma_node_roundtrip, lemma_node_well_typed, int_value,
    parse_node, put_int, read_node, slot, Arity, AttrKind, Field,
};
use super::{Emitted, EmittedSpec, OnnxOp, OpError, OpErrorSpec, ONNX_DOMAIN_STR};
use crate::ir::{AttributeValue, AttributeValueSpec, ElemType, Node, NodeSpec};
use vstd::prelude::*;

verus! {

// ---------------------------------------------------------------------------
// Cast
// ---------------------------------------------------------------------------
/// The attribute schema of `Cast`.
pub open spec fn cast_fields() -> Seq<Field> {
    seq![
        Field { name: "to", kind: AttrKind::Int, required: true },
        Field { name: "saturate", kind: AttrKind::Int, required: false },
    ]
}

fn cast_schema() -> (r: [Field; 2])
    ensures
        r@ == cast_fields(),
{
    let r = [
        Field { name: "to", kind: AttrKind::Int, required: true },
        Field { name: "saturate", kind: AttrKind::Int, required: false },
    ];
    proof {
        assert(r@ =~= cast_fields());
    }
    r
}

/// `Cast`: converts a tensor to another element type.
#[derive(Debug, Clone, PartialEq)]
pub struct Cast {
    pub to: ElemType,
    pub saturate: Option<i64>,
}

impl Cast {
    /// The attribute values, in schema order.
    pub open spec fn values(&self) -> Seq<Option<AttributeValueSpec>> {
        seq![Some(AttributeValueSpec::Int(self.to.code() as i64)), int_value(self.saturate)]
    }

    /// The node written for this cast, or the count error.
    pub open spec fn spec_to_node(&self, inputs: Seq<Seq<char>>, outputs: Seq<Seq<char>>) -> Result<
        EmittedSpec,
        OpErrorSpec,
    > {
        emit_node(
            "Cast"@,
            ONNX_DOMAIN_STR@,
            Arity::Exactly(1),
            Arity::Exactly(1),
            cast_fields(),
            self.values(),
            inputs,
            outputs,
        )
    }

    /// The attribute values read from a node, or the first error.
    pub open spec fn spec_parse(n: NodeSpec) -> Result<Seq<Option<AttributeValueSpec>>, OpErrorSpec> {
        parse_node("Cast"@, ONNX_DOMAIN_STR@, Arity::Exactly(1), Arity::Exactly(1), cast_fields(), n)
    }

    /// The `to` number read from a node.
    pub open spec fn spec_to_code(vs: Seq<Option<AttributeValueSpec>>) -> i32 {
        (vs[0]->Some_0->Int_0) as i32
    }

    /// Whether a node reads back as a cast.
    pub open spec fn spec_accepts(n: NodeSpec) -> bool {
        Self::spec_parse(n) is Ok && 0 <= Self::spec_to_code(Self::spec_parse(n)->Ok_0) <= 26
    }
}

impl OnnxOp for Cast {
    fn op_type() -> (r: &'static str)
        ensures
            r@ == "Cast"@,
    {
        "Cast"
    }

    fn domain() -> (r: &'static str)
        ensures
            r == ONNX_DOMAIN_STR,
    {
        ONNX_DOMAIN_STR
    }

    open spec fn recognizes(node: NodeSpec) -> bool {
        Self::spec_accepts(node)
    }

    open spec fn op_name() -> Seq<char> {
        "Cast"@
    }

    open spec fn emits(&self, inputs: Seq<Seq<char>>, outputs: Seq<Seq<char>>) -> Result<
        EmittedSpec,
        OpErrorSpec,
    > {
        self.spec_to_node(inputs, outputs)
    }

    fn to_node(&self, inputs: Vec<String>, outputs: Vec<String>) -> (r: Result<Emitted, OpError>)
        ensures
            match self.spec_to_node(inputs.deep_view(), outputs.deep_view()) {
                Ok(em) => r matches Ok(x) && x.deep_view() == em,
                Err(e) => r matches Err(x) && x.deep_view() == e,
            },
    {
        let mut vals: Vec<Option<AttributeValue>> = Vec::new();
        vals.push(Some(AttributeValue::Int(self.to.disc() as i64)));
        vals.push(put_int(self.saturate));
        proof {
            assert(vals.deep_view() =~= self.values());
        }
        build_node(
            "Cast",
            ONNX_DOMAIN_STR,
            Arity::Exactly(1),
            Arity::Exactly(1),
            &cast_schema(),
            vals,
            inputs,
            outputs,
        )
    }

    #[verifier::rlimit(60)]
    fn from_node(node: &Node) -> (r: Result<Self, OpError>)
        ensures
            r is Ok <==> Self::recognizes(node.deep_view()),
            match Self::spec_parse(node.deep_view()) {
                Ok(vs) => if 0 <= Self::spec_to_code(vs) <= 26 {
                    r matches Ok(x) && x.to.code() == Self::spec_to_code(vs) && int_value(
                        x.saturate,
                    ) == vs[1]
                } else {
                    r matches Err(x) && x.deep_view() == (OpErrorSpec::InvalidValue {
                        op: "Cast"@,
                        attr: "to"@,
                        detail: "unknown element type discriminant"@,
                    })
                },
                Err(e) => r matches Err(x) && x.deep_view() == e,
            },
    {
        let vals = match read_node(
            "Cast",
            ONNX_DOMAIN_STR,
            Arity::Exactly(1),
            Arity::Exactly(1),
            &cast_schema(),
            node,
        ) {
            Ok(v) => v,
            Err(e) => {
                return Err(e);
            },
        };
        proof {
            lemma_node_well_typed(
                "Cast"@,
                ONNX_DOMAIN_STR@,
                Arity::Exactly(1),
                Arity::Exactly(1),
                cast_fields(),
                node.deep_view(),
            );
            assert(vals.deep_view()[0] == vals@[0].deep_view());
            assert(vals.deep_view()[1] == vals@[1].deep_view());
        }
        let to_raw = match get_int(vals[0]) {
            Some(x) => x,
            None => {
                return Err(
                    OpError::MissingAttribute { op: "Cast", attr: "to" },
                );
            },
        };
        let saturate = get_int(vals[1]);
        match ElemType::from_disc(to_raw as i32) {
            Some(to) => Ok(Cast { to, saturate }),
            None => Err(
                OpError::InvalidValue {
                    op: "Cast",
                    attr: String::from_str("to"),
                    detail: String::from_str("unknown element type discriminant"),
                },
            ),
        }
    }
}

proof fn lemma_cast_fields_distinct()
    ensures
        distinct_names(cast_fields()),
{
    reveal_strlit("to");
    reveal_strlit("saturate");
    let f = cast_fields();
    assert forall|i: int, j: int| 0 <= i < j < f.len() implies #[trigger] f[i].name@
        != #[trigger] f[j].name@ by {
        assert(f[0].name@ == "to"@);
        assert(f[1].name@ == "saturate"@);
    }
}

/// Reading back the node written for a cast gives the same cast.
#[verifier::spinoff_prover]
#[verifier::rlimit(60)]
pub proof fn lemma_cast_roundtrip(op: Cast, inputs: Seq<Seq<char>>, outputs: Seq<Seq<char>>)
    requires
        op.spec_to_node(inputs, outputs) is Ok,
    ensures
        Cast::spec_parse(op.spec_to_node(inputs, outputs)->Ok_0.node) == Ok::<
            Seq<Option<AttributeValueSpec>>,
            OpErrorSpec,
        >(op.values()),
        Cast::spec_to_code(op.values()) == op.to.code(),
        Cast::spec_accepts(op.spec_to_node(inputs, outputs)->Ok_0.node),
{
    lemma_cast_fields_distinct();
    lemma_node_roundtrip(
        "Cast"@,
        ONNX_DOMAIN_STR@,
        Arity::Exactly(1),
        Arity::Exactly(1),
        cast_fields(),
        op.values(),
        inputs,
        outputs,
    );
    lemma_code_cast(op.to);
}

proof fn lemma_code_cast(e: ElemType)
    ensures
        0 <= e.code() <= 26,
        ((e.code() as i64) as i32) == e.code(),
{
    let c = e.code();
    assert(0 <= c <= 26);
    assert(((c as i64) as i32) == c) by (bit_vector)
        requires
            0 <= c <= 26,
    ;
}

// ---------------------------------------------------------------------------
// Reshape
// ---------------------------------------------------------------------------
/// The attribute schema of `Reshape`.
pub open spec fn reshape_fields() -> Seq<Field> {
    seq![Field { name: "allowzero", kind: AttrKind::Int, required: false }]
}

fn reshape_schema() -> (r: [Field; 1])
    ensures
        r@ == reshape_fields(),
{
    let r = [Field { name: "allowzero", kind: AttrKind::Int, required: false }];
    proof {
        assert(r@ =~= reshape_fields());
    }
    r
}

/// `Reshape`: gives a tensor a new shape.
#[derive(Debug, Clone, PartialEq)]
pub struct Reshape {
    pub allowzero: Option<i64>,
}

impl Reshape {
    /// The attribute values, in schema order.
    pub open spec fn values(&self) -> Seq<Option<AttributeValueSpec>> {
        seq![int_value(self.allowzero)]
    }

    /// The node written for this reshape, or the count error.
    pub open spec fn spec_to_node(&self, inputs: Seq<Seq<char>>, outputs: Seq<Seq<char>>) -> Result<
        EmittedSpec,
        OpErrorSpec,
    > {
        emit_node(
            "Reshape"@,
            ONNX_DOMAIN_STR@,
            Arity::Between(1, 2),
            Arity::Exactly(1),
            reshape_fields(),
            self.values(),
            inputs,
            outputs,
        )
    }

    /// The attribute values read from a node, or the first error.
    pub open spec fn spec_parse(n: NodeSpec) -> Result<Seq<Option<AttributeValueSpec>>, OpErrorSpec> {
        parse_node(
            "Reshape"@,
            ONNX_DOMAIN_STR@,
            Arity::Between(1, 2),
            Arity::Exactly(1),
            reshape_fields(),
            n,
        )
    }
}

impl OnnxOp for Reshape {
    fn op_type() -> (r: &'static str)
        ensures
            r@ == "Reshape"@,
    {
        "Reshape"
    }

    fn domain() -> (r: &'static str)
        ensures
            r == ONNX_DOMAIN_STR,
    {
        ONNX_DOMAIN_STR
    }

    open spec fn recognizes(node: NodeSpec) -> bool {
        Self::spec_parse(node) is Ok
    }

    open spec fn op_name() -> Seq<char> {
        "Reshape"@
    }

    open spec fn emits(&self, inputs: Seq<Seq<char>>, outputs: Seq<Seq<char>>) -> Result<
        EmittedSpec,
        OpErrorSpec,
    > {
        self.spec_to_node(inputs, outputs)
    }

    fn to_node(&self, inputs: Vec<String>, outputs: Vec<String>) -> (r: Result<Emitted, OpError>)
        ensures
            match self.spec_to_node(inputs.deep_view(), outputs.deep_view()) {
                Ok(em) => r matches Ok(x) && x.deep_view() == em,
                Err(e) => r matches Err(x) && x.deep_view() == e,
            },
    {
        let mut vals: Vec<Option<AttributeValue>> = Vec::new();
        vals.push(put_int(self.allowzero));
        proof {
            assert(vals.deep_view() =~= self.values());
        }
        build_node(
            "Reshape",
            ONNX_DOMAIN_STR,
            Arity::Between(1, 2),
            Arity::Exactly(1),
            &reshape_schema(),
            vals,
            inputs,
            outputs,
        )
    }

    #[verifier::rlimit(60)]
    fn from_node(node: &Node) -> (r: Result<Self, OpError>)
        ensures
            r is Ok <==> Self::recognizes(node.deep_view()),
            match Self::spec_parse(node.deep_view()) {
                Ok(vs) => r matches Ok(x) && x.values() == vs,
                Err(e) => r matches Err(x) && x.deep_view() == e,
            },
    {
        let vals = match read_node(
            "Reshape",
            ONNX_DOMAIN_STR,
            Arity::Between(1, 2),
            Arity::Exactly(1),
            &reshape_schema(),
            node,
        ) {
            Ok(v) => v,
            Err(e) => {
                return Err(e);
            },
        };
        proof {
            lemma_node_well_typed(
                "Reshape"@,
                ONNX_DOMAIN_STR@,
                Arity::Between(1, 2),
                Arity::Exactly(1),
                reshape_fields(),
                node.deep_view(),
            );
            assert(vals.deep_view()[0] == vals@[0].deep_view());
        }
        let allowzero = get_int(vals[0]);
        let r = Reshape { allowzero };
        proof {
            assert(r.values() =~= vals.deep_view());
        }
        Ok(r)
    }
}

/// Reading back the node written for a reshape gives the same reshape.
#[verifier::spinoff_prover]
#[verifier::rlimit(60)]
pub proof fn lemma_reshape_roundtrip(op: Reshape, inputs: Seq<Seq<char>>, outputs: Seq<Seq<char>>)
    requires
        op.spec_to_node(inputs, outputs) is Ok,
    ensures
        Reshape::spec_parse(op.spec_to_node(inputs, outputs)->Ok_0.node) == Ok::<
            Seq<Option<AttributeValueSpec>>,
            OpErrorSpec,
        >(op.values()),
{
    lemma_node_roundtrip(
        "Reshape"@,
        ONNX_DOMAIN_STR@,
        Arity::Between(1, 2),
        Arity::Exactly(1),
        reshape_fields(),
        op.values(),
        inputs,
        outputs,
    );
}

// ---------------------------------------------------------------------------
// Concat
// ---------------------------------------------------------------------------
/// The attribute schema of `Concat`.
pub open spec fn concat_fields() -> Seq<Field> {
    seq![
        Field { name: "axis", kind: AttrKind::Int, required: true },
    ]
}

fn concat_schema() -> (r: [Field; 1])
    ensures
        r@ == concat_fields(),
{
    let r = [
        Field { name: "axis", kind: AttrKind::Int, required: true },
    ];
    proof {
        assert(r@ =~= concat_fields());
    }
    r
}

/// `Concat`: joins tensors along an axis.
#[derive(Debug, Clone, PartialEq)]
pub struct Concat {
    pub axis: i64,
}

impl Concat {
    /// The attribute values, in schema order.
    pub open spec fn values(&self) -> Seq<Option<AttributeValueSpec>> {
        seq![Some(AttributeValueSpec::Int(self.axis))]
    }

    /// The node written for this operator, or the first error.
    pub open spec fn spec_to_node(&self, inputs: Seq<Seq<char>>, outputs: Seq<Seq<char>>) -> Result<
        EmittedSpec,
        OpErrorSpec,
    > {
        emit_node("Concat"@, ONNX_DOMAIN_STR@, Arity::AtLeast(1), Arity::Exactly(1), concat_fields(), self.values(), inputs, outputs)
    }

    /// The attribute values read from a node, or the first error.
    pub open spec fn spec_parse(n: NodeSpec) -> Result<Seq<Option<AttributeValueSpec>>, OpErrorSpec> {
        parse_node("Concat"@, ONNX_DOMAIN_STR@, Arity::AtLeast(1), Arity::Exactly(1), concat_fields(), n)
    }
}

impl OnnxOp for Concat {
    fn op_type() -> (r: &'static str)
        ensures
            r@ == "Concat"@,
    {
        "Concat"
    }

    fn domain() -> (r: &'static str)
        ensures
            r == ONNX_DOMAIN_STR,
    {
        ONNX_DOMAIN_STR
    }

    open spec fn recognizes(node: NodeSpec) -> bool {
        Self::spec_parse(node) is Ok
    }

    open spec fn op_name() -> Seq<char> {
        "Concat"@
    }

    open spec fn emits(&self, inputs: Seq<Seq<char>>, outputs: Seq<Seq<char>>) -> Result<
        EmittedSpec,
        OpErrorSpec,
    > {
        self.spec_to_node(inputs, outputs)
    }

    fn to_node(&self, inputs: Vec<String>, outputs: Vec<String>) -> (r: Result<Emitted, OpError>)
        ensures
            match self.spec_to_node(inputs.deep_view(), outputs.deep_view()) {
                Ok(em) => r matches Ok(x) && x.deep_view() == em,
                Err(e) => r matches Err(x) && x.deep_view() == e,
            },
    {
        let mut vals: Vec<Option<AttributeValue>> = Vec::new();
        vals.push(Some(AttributeValue::Int(self.axis)));
        proof {
            assert(vals.deep_view() =~= self.values());
        }
        build_node("Concat", ONNX_DOMAIN_STR, Arity::AtLeast(1), Arity::Exactly(1), &concat_schema(), vals, inputs, outputs)
    }

    #[verifier::rlimit(60)]
    fn from_node(node: &Node) -> (r: Result<Self, OpError>)
        ensures
            r is Ok <==> Self::recognizes(node.deep_view()),
            match Self::spec_parse(node.deep_view()) {
                Ok(vs) => r matches Ok(x) && x.values() == vs,
                Err(e) => r matches Err(x) && x.deep_view() == e,
            },
    {
        let vals = match read_node("Concat", ONNX_DOMAIN_STR, Arity::AtLeast(1), Arity::Exactly(1), &concat_schema(), node) {
            Ok(v) => v,
            Err(e) => {
                return Err(e);
            },
        };
        proof {
            lemma_node_well_typed("Concat"@, ONNX_DOMAIN_STR@, Arity::AtLeast(1), Arity::Exactly(1), concat_fields(), node.deep_view());
            assert(vals.deep_view()[0] == vals@[0].deep_view());
        }
        let axis = match get_int(vals[0]) {
            Some(x) => x,
            None => {
                return Err(OpError::MissingAttribute { op: "Concat", attr: "axis" });
            },
        };
        let r = Concat {
            axis,
        };
        proof {
            assert(r.values() =~= vals.deep_view());
        }
        Ok(r)
    }
}

proof fn lemma_concat_fields_distinct()
    ensures
        distinct_names(concat_fields()),
{
    let f = concat_fields();
    reveal_strlit("axis");
    assert(f[0].name@ == "axis"@);
}

/// Reading back the node written for a `Concat` gives the same operator.
#[verifier::spinoff_prover]
#[verifier::rlimit(60)]
pub proof fn lemma_concat_roundtrip(op: Concat, inputs: Seq<Seq<char>>, outputs: Seq<Seq<char>>)
    requires
        op.spec_to_node(inputs, outputs) is Ok,
    ensures
        Concat::spec_parse(op.spec_to_node(inputs, outputs)->Ok_0.node) == Ok::<
            Seq<Option<AttributeValueSpec>>,
            OpErrorSpec,
        >(op.values()),
{
    lemma_concat_fields_distinct();
    lemma_node_roundtrip("Concat"@, ONNX_DOMAIN_STR@, Arity::AtLeast(1), Arity::Exactly(1), concat_fields(), op.values(), inputs, outputs);
}

// ---------------------------------------------------------------------------
// Gather
// ---------------------------------------------------------------------------
/// The attribute schema of `Gather`.
pub open spec fn gather_fields() -> Seq<Field> {
    seq![
        Field { name: "axis", kind: AttrKind::Int, required: false },
    ]
}

fn gather_schema() -> (r: [Field; 1])
    ensures
        r@ == gather_fields(),
{
    let r = [
        Field { name: "axis", kind: AttrKind::Int, required: false },
    ];
    proof {
        assert(r@ =~= gather_fields());
    }
    r
}

/// `Gather`: picks entries of a tensor along an axis.
#[derive(Debug, Clone, PartialEq)]
pub struct Gather {
    pub axis: Option<i64>,
}

impl Gather {
    /// The attribute values, in schema order.
    pub open spec fn values(&self) -> Seq<Option<AttributeValueSpec>> {
        seq![int_value(self.axis)]
    }

    /// The node written for this operator, or the first error.
    pub open spec fn spec_to_node(&self, inputs: Seq<Seq<char>>, outputs: Seq<Seq<char>>) -> Result<
        EmittedSpec,
        OpErrorSpec,
    > {
        emit_node("Gather"@, ONNX_DOMAIN_STR@, Arity::Exactly(2), Arity::Exactly(1), gather_fields(), self.values(), inputs, outputs)
    }

    /// The attribute values read from a node, or the first error.
    pub open spec fn spec_parse(n: NodeSpec) -> Result<Seq<Option<AttributeValueSpec>>, OpErrorSpec> {
        parse_node("Gather"@, ONNX_DOMAIN_STR@, Arity::Exactly(2), Arity::Exactly(1), gather_fields(), n)
    }
}

impl OnnxOp for Gather {
    fn op_type() -> (r: &'static str)
        ensures
            r@ == "Gather"@,
    {
        "Gather"
    }

    fn domain() -> (r: &'static str)
        ensures
            r == ONNX_DOMAIN_STR,
    {
        ONNX_DOMAIN_STR
    }

    open spec fn recognizes(node: NodeSpec) -> bool {
        Self::spec_parse(node) is Ok
    }

    open spec fn op_name() -> Seq<char> {
        "Gather"@
    }

    open spec fn emits(&self, inputs: Seq<Seq<char>>, outputs: Seq<Seq<char>>) -> Result<
        EmittedSpec,
        OpErrorSpec,
    > {
        self.spec_to_node(inputs, outputs)
    }

    fn to_node(&self, inputs: Vec<String>, outputs: Vec<String>) -> (r: Result<Emitted, OpError>)
        ensures
            match self.spec_to_node(inputs.deep_view(), outputs.deep_view()) {
                Ok(em) => r matches Ok(x) && x.deep_view() == em,
                Err(e) => r matches Err(x) && x.deep_view() == e,
            },
    {
        let mut vals: Vec<Option<AttributeValue>> = Vec::new();
        vals.push(put_int(self.axis));
        proof {
            assert(vals.deep_view() =~= self.values());
        }
        build_node("Gather", ONNX_DOMAIN_STR, Arity::Exactly(2), Arity::Exactly(1), &gather_schema(), vals, inputs, outputs)
    }

    #[verifier::rlimit(60)]
    fn from_node(node: &Node) -> (r: Result<Self, OpError>)
        ensures
            r is Ok <==> Self::recognizes(node.deep_view()),
            match Self::spec_parse(node.deep_view()) {
                Ok(vs) => r matches Ok(x) && x.values() == vs,
                Err(e) => r matches Err(x) && x.deep_view() == e,
            },
    {
        let vals = match read_node("Gather", ONNX_DOMAIN_STR, Arity::Exactly(2), Arity::Exactly(1), &gather_schema(), node) {
            Ok(v) => v,
            Err(e) => {
                return Err(e);
            },
        };
        proof {
            lemma_node_well_typed("Gather"@, ONNX_DOMAIN_STR@, Arity::Exactly(2), Arity::Exactly(1), gather_fields(), node.deep_view());
            assert(vals.deep_view()[0] == vals@[0].deep_view());
        }
        let axis = get_int(vals[0]);
        let r = Gather {
            axis,
        };
        proof {
            assert(r.values() =~= vals.deep_view());
        }
        Ok(r)
    }
}

proof fn lemma_gather_fields_distinct()
    ensures
        distinct_names(gather_fields()),
{
    let f = gather_fields();
    reveal_strlit("axis");
    assert(f[0].name@ == "axis"@);
}

/// Reading back the node written for a `Gather` gives the same operator.
#[verifier::spinoff_prover]
#[verifier::rlimit(60)]
pub proof fn lemma_gather_roundtrip(op: Gather, inputs: Seq<Seq<char>>, outputs: Seq<Seq<char>>)
    requires
        op.spec_to_node(inputs, outputs) is Ok,
    ensures
        Gather::spec_parse(op.spec_to_node(inputs, outputs)->Ok_0.node) == Ok::<
            Seq<Option<AttributeValueSpec>>,
            OpErrorSpec,
        >(op.values()),
{
    lemma_gather_fields_distinct();
    lemma_node_roundtrip("Gather"@, ONNX_DOMAIN_STR@, Arity::Exactly(2), Arity::Exactly(1), gather_fields(), op.values(), inputs, outputs);
}

// ---------------------------------------------------------------------------
// Identity
// ---------------------------------------------------------------------------
/// The attribute schema of `Identity`.
pub open spec fn identity_fields() -> Seq<Field> {
    Seq::empty()
}

fn identity_schema() -> (r: [Field; 0])
    ensures
        r@ == identity_fields(),
{
    let r: [Field; 0] = [];
    proof {
        assert(r@ =~= identity_fields());
    }
    r
}

/// `Identity`: passes its input through.
#[derive(Debug, Clone, PartialEq)]
pub struct Identity;

impl Identity {
    /// The attribute values, in schema order.
    pub open spec fn values(&self) -> Seq<Option<AttributeValueSpec>> {
        Seq::empty()
    }

    /// The node written for this operator, or the first error.
    pub open spec fn spec_to_node(&self, inputs: Seq<Seq<char>>, outputs: Seq<Seq<char>>) -> Result<
        EmittedSpec,
        OpErrorSpec,
    > {
        emit_node("Identity"@, ONNX_DOMAIN_STR@, Arity::Exactly(1), Arity::Exactly(1), identity_fields(), self.values(), inputs, outputs)
    }

    /// The attribute values read from a node, or the first error.
    pub open spec fn spec_parse(n: NodeSpec) -> Result<Seq<Option<AttributeValueSpec>>, OpErrorSpec> {
        parse_node("Identity"@, ONNX_DOMAIN_STR@, Arity::Exactly(1), Arity::Exactly(1), identity_fields(), n)
    }
}

impl OnnxOp for Identity {
    fn op_type() -> (r: &'static str)
        ensures
            r@ == "Identity"@,
    {
        "Identity"
    }

    fn domain() -> (r: &'static str)
        ensures
            r == ONNX_DOMAIN_STR,
    {
        ONNX_DOMAIN_STR
    }

    open spec fn recognizes(node: NodeSpec) -> bool {
        Self::spec_parse(node) is Ok
    }

    open spec fn op_name() -> Seq<char> {
        "Identity"@
    }

    open spec fn emits(&self, inputs: Seq<Seq<char>>, outputs: Seq<Seq<char>>) -> Result<
        EmittedSpec,
        OpErrorSpec,
    > {
        self.spec_to_node(inputs, outputs)
    }

    fn to_node(&self, inputs: Vec<String>, outputs: Vec<String>) -> (r: Result<Emitted, OpError>)
        ensures
            match self.spec_to_node(inputs.deep_view(), outputs.deep_view()) {
                Ok(em) => r matches Ok(x) && x.deep_view() == em,
                Err(e) => r matches Err(x) && x.deep_view() == e,
            },
    {
        let mut vals: Vec<Option<AttributeValue>> = Vec::new();
        proof {
            assert(vals.deep_view() =~= self.values());
        }
        build_node("Identity", ONNX_DOMAIN_STR, Arity::Exactly(1), Arity::Exactly(1), &identity_schema(), vals, inputs, outputs)
    }

    #[verifier::rlimit(60)]
    fn from_node(node: &Node) -> (r: Result<Self, OpError>)
        ensures
            r is Ok <==> Self::recognizes(node.deep_view()),
            match Self::spec_parse(node.deep_view()) {
                Ok(vs) => r matches Ok(x) && x.values() == vs,
                Err(e) => r matches Err(x) && x.deep_view() == e,
            },
    {
        let vals = match read_node("Identity", ONNX_DOMAIN_STR, Arity::Exactly(1), Arity::Exactly(1), &identity_schema(), node) {
            Ok(v) => v,
            Err(e) => {
                return Err(e);
            },
        };
        proof {
            lemma_node_well_typed("Identity"@, ONNX_DOMAIN_STR@, Arity::Exactly(1), Arity::Exactly(1), identity_fields(), node.deep_view());
        }
        let r = Identity;
        proof {
            assert(r.values() =~= vals.deep_view());
        }
        Ok(r)
    }
}

proof fn lemma_identity_fields_distinct()
    ensures
        distinct_names(identity_fields()),
{
    let f = identity_fields();
}

/// Reading back the node written for a `Identity` gives the same operator.
#[verifier::spinoff_prover]
#[verifier::rlimit(60)]
pub proof fn lemma_identity_roundtrip(op: Identity, inputs: Seq<Seq<char>>, outputs: Seq<Seq<char>>)
    requires
        op.spec_to_node(inputs, outputs) is Ok,
    ensures
        Identity::spec_parse(op.spec_to_node(inputs, outputs)->Ok_0.node) == Ok::<
            Seq<Option<AttributeValueSpec>>,
            OpErrorSpec,
        >(op.values()),
{
    lemma_identity_fields_distinct();
    lemma_node_roundtrip("Identity"@, ONNX_DOMAIN_STR@, Arity::Exactly(1), Arity::Exactly(1), identity_fields(), op.values(), inputs, outputs);
}

/// Each position of the `Cast` schema is the attribute named after the
/// field of the operator whose value it holds.
pub proof fn lemma_cast_slots(op: Cast)
    ensures
        cast_fields().len() == 2,
        op.values().len() == 2,
        slot(cast_fields(), op.values(), 0, "to"@, Some(AttributeValueSpec::Int(op.to.code() as i64))),
        slot(cast_fields(), op.values(), 1, "saturate"@, int_value(op.saturate)),
{
}

/// Each position of the `Reshape` schema is the attribute named after the
/// field of the operator whose value it holds.
pub proof fn lemma_reshape_slots(op: Reshape)
    ensures
        reshape_fields().len() == 1,
        op.values().len() == 1,
        slot(reshape_fields(), op.values(), 0, "allowzero"@, int_value(op.allowzero)),
{
}

/// Each position of the `Concat` schema is the attribute named after the
/// field of the operator whose value it holds.
pub proof fn lemma_concat_slots(op: Concat)
    ensures
        concat_fields().len() == 1,
        op.values().len() == 1,
        slot(concat_fields(), op.values(), 0, "axis"@, Some(AttributeValueSpec::Int(op.axis))),
{
}

/// Each position of the `Gather` schema is the attribute named after the
/// field of the operator whose value it holds.
pub proof fn lemma_gather_slots(op: Gather)
    ensures
        gather_fields().len() == 1,
        op.values().len() == 1,
        slot(gather_fields(), op.values(), 0, "axis"@, int_value(op.axis)),
{
}

} // verus!
