//! ONNX-ML preprocessing operators.
use super::table::{
    build_node, emit_attrs, distinct_names, emit_node, float_value, floats_value, get_float, get_floats,
    get_int, get_ints, get_string, get_strings, get_tensor, int_value, ints_value,
    lemma_node_roundtrip, lemma_node_well_typed, parse_node, put_float, put_floats, put_int,
    put_ints, put_string, put_strings, put_tensor, read_node, slot, string_value, strings_value,
    tensor_value, Arity, AttrKind, Field,
};
use super::{Emitted, EmittedSpec, OnnxOp, OpError, OpErrorSpec, ML_DOMAIN_STR};
use crate::ir::{AttributeValue, AttributeValueSpec, Node, NodeSpec, Tensor};
use vstd::prelude::*;

verus! {

/// The error for two settings of which at most one may be present.
pub open spec fn at_most_one_error(
    op: Seq<char>,
    a: bool,
    b: bool,
    attr: Seq<char>,
    detail: Seq<char>,
) -> Option<OpErrorSpec> {
    if a && b {
        Some(OpErrorSpec::InvalidValue { op, attr, detail })
    } else {
        None
    }
}

/// The error for two settings of which exactly one must be present.
pub open spec fn exactly_one_error(
    op: Seq<char>,
    a: bool,
    b: bool,
    attr: Seq<char>,
    detail: Seq<char>,
) -> Option<OpErrorSpec> {
    if a == b {
        Some(OpErrorSpec::InvalidValue { op, attr, detail })
    } else {
        None
    }
}

/// Fails when both or neither of two settings are present.
pub fn check_exactly_one(
    op: &'static str,
    a: bool,
    b: bool,
    attr: &'static str,
    detail: &'static str,
) -> (r: Result<(), OpError>)
    ensures
        match exactly_one_error(op@, a, b, attr@, detail@) {
            Some(e) => r matches Err(x) && x.deep_view() == e,
            None => r is Ok,
        },
{
    if a == b {
        return Err(
            OpError::InvalidValue {
                op,
                attr: String::from_str(attr),
                detail: String::from_str(detail),
            },
        );
    }
    Ok(())
}

/// The number of present values among four.
pub open spec fn present4(
    a: Option<AttributeValueSpec>,
    b: Option<AttributeValueSpec>,
    c: Option<AttributeValueSpec>,
    d: Option<AttributeValueSpec>,
) -> int {
    (if a is Some { 1int } else { 0int }) + (if b is Some { 1int } else { 0int }) + (if c is Some {
        1int
    } else {
        0int
    }) + (if d is Some { 1int } else { 0int })
}

fn count4(a: bool, b: bool, c: bool, d: bool) -> (r: usize)
    ensures
        r == (if a { 1int } else { 0int }) + (if b { 1int } else { 0int }) + (if c { 1int } else {
            0int
        }) + (if d { 1int } else { 0int }),
{
    let mut n: usize = 0;
    if a {
        n = n + 1;
    }
    if b {
        n = n + 1;
    }
    if c {
        n = n + 1;
    }
    if d {
        n = n + 1;
    }
    n
}

impl Imputer {
    /// At most one of the imputed lists, and at most one of the replaced
    /// values, may be set.
    pub open spec fn spec_check(vs: Seq<Option<AttributeValueSpec>>) -> Option<OpErrorSpec> {
        match at_most_one_error(
            "Imputer"@,
            vs[0] is Some,
            vs[1] is Some,
            "imputed_value_*"@,
            "only one of imputed_value_floats and imputed_value_int64s may be set"@,
        ) {
            Some(e) => Some(e),
            None => at_most_one_error(
                "Imputer"@,
                vs[2] is Some,
                vs[3] is Some,
                "replaced_value_*"@,
                "only one of replaced_value_float and replaced_value_int64 may be set"@,
            ),
        }
    }

    fn check(&self) -> (r: Result<(), OpError>)
        ensures
            match Self::spec_check(self.values()) {
                Some(e) => r matches Err(x) && x.deep_view() == e,
                None => r is Ok,
            },
    {
        if self.imputed_value_floats.is_some() && self.imputed_value_int64s.is_some() {
            return Err(
                OpError::InvalidValue {
                    op: "Imputer",
                    attr: String::from_str("imputed_value_*"),
                    detail: String::from_str(
                        "only one of imputed_value_floats and imputed_value_int64s may be set",
                    ),
                },
            );
        }
        if self.replaced_value_float.is_some() && self.replaced_value_int64.is_some() {
            return Err(
                OpError::InvalidValue {
                    op: "Imputer",
                    attr: String::from_str("replaced_value_*"),
                    detail: String::from_str(
                        "only one of replaced_value_float and replaced_value_int64 may be set",
                    ),
                },
            );
        }
        Ok(())
    }
}

impl LabelEncoder {
    /// Exactly one of the key lists and exactly one of the value lists must
    /// be set.
    pub open spec fn spec_check(vs: Seq<Option<AttributeValueSpec>>) -> Option<OpErrorSpec> {
        if present4(vs[4], vs[5], vs[6], vs[7]) != 1 {
            Some(
                OpErrorSpec::InvalidValue {
                    op: "LabelEncoder"@,
                    attr: "keys_*"@,
                    detail: "exactly one of keys_floats, keys_int64s, keys_strings, keys_tensor must be set"@,
                },
            )
        } else if present4(vs[8], vs[9], vs[10], vs[11]) != 1 {
            Some(
                OpErrorSpec::InvalidValue {
                    op: "LabelEncoder"@,
                    attr: "values_*"@,
                    detail: "exactly one of values_floats, values_int64s, values_strings, values_tensor must be set"@,
                },
            )
        } else {
            None
        }
    }

    fn check(&self) -> (r: Result<(), OpError>)
        ensures
            match Self::spec_check(self.values()) {
                Some(e) => r matches Err(x) && x.deep_view() == e,
                None => r is Ok,
            },
    {
        let keys = count4(
            self.keys_floats.is_some(),
            self.keys_int64s.is_some(),
            self.keys_strings.is_some(),
            self.keys_tensor.is_some(),
        );
        if keys != 1 {
            return Err(
                OpError::InvalidValue {
                    op: "LabelEncoder",
                    attr: String::from_str("keys_*"),
                    detail: String::from_str(
                        "exactly one of keys_floats, keys_int64s, keys_strings, keys_tensor must be set",
                    ),
                },
            );
        }
        let values = count4(
            self.values_floats.is_some(),
            self.values_int64s.is_some(),
            self.values_strings.is_some(),
            self.values_tensor.is_some(),
        );
        if values != 1 {
            return Err(
                OpError::InvalidValue {
                    op: "LabelEncoder",
                    attr: String::from_str("values_*"),
                    detail: String::from_str(
                        "exactly one of values_floats, values_int64s, values_strings, values_tensor must be set",
                    ),
                },
            );
        }
        Ok(())
    }
}

impl OneHotEncoder {
    /// Exactly one of the category lists must be set.
    pub open spec fn spec_check(vs: Seq<Option<AttributeValueSpec>>) -> Option<OpErrorSpec> {
        exactly_one_error(
            "OneHotEncoder"@,
            vs[0] is Some,
            vs[1] is Some,
            "cats_*"@,
            "exactly one of cats_int64s and cats_strings must be set"@,
        )
    }

    fn check(&self) -> (r: Result<(), OpError>)
        ensures
            match Self::spec_check(self.values()) {
                Some(e) => r matches Err(x) && x.deep_view() == e,
                None => r is Ok,
            },
    {
        check_exactly_one(
            "OneHotEncoder",
            self.cats_int64s.is_some(),
            self.cats_strings.is_some(),
            "cats_*",
            "exactly one of cats_int64s and cats_strings must be set",
        )
    }
}

impl DictVectorizer {
    /// Exactly one of the vocabularies must be set.
    pub open spec fn spec_check(vs: Seq<Option<AttributeValueSpec>>) -> Option<OpErrorSpec> {
        exactly_one_error(
            "DictVectorizer"@,
            vs[0] is Some,
            vs[1] is Some,
            "*_vocabulary"@,
            "exactly one of int64_vocabulary and string_vocabulary must be set"@,
        )
    }

    fn check(&self) -> (r: Result<(), OpError>)
        ensures
            match Self::spec_check(self.values()) {
                Some(e) => r matches Err(x) && x.deep_view() == e,
                None => r is Ok,
            },
    {
        check_exactly_one(
            "DictVectorizer",
            self.int64_vocabulary.is_some(),
            self.string_vocabulary.is_some(),
            "*_vocabulary",
            "exactly one of int64_vocabulary and string_vocabulary must be set",
        )
    }
}

// ---------------------------------------------------------------------------
// Scaler
// ---------------------------------------------------------------------------
/// The attribute schema of `Scaler`.
pub open spec fn scaler_fields() -> Seq<Field> {
    seq![
        Field { name: "offset", kind: AttrKind::Floats, required: false },
        Field { name: "scale", kind: AttrKind::Floats, required: false },
    ]
}

fn scaler_schema() -> (r: [Field; 2])
    ensures
        r@ == scaler_fields(),
{
    let r = [
        Field { name: "offset", kind: AttrKind::Floats, required: false },
        Field { name: "scale", kind: AttrKind::Floats, required: false },
    ];
    proof {
        assert(r@ =~= scaler_fields());
    }
    r
}

/// The attribute for an optional list of floats named `name`.
pub open spec fn floats_attr(name: Seq<char>, v: Option<Vec<u32>>) -> Seq<crate::ir::AttributeSpec> {
    match v {
        Some(x) => seq![
            crate::ir::AttributeSpec {
                name,
                value: AttributeValueSpec::Floats(x@),
                doc_string: Seq::empty(),
            },
        ],
        None => Seq::empty(),
    }
}

/// The node written for a `Scaler` with one input and one output is the
/// `ai.onnx.ml` `Scaler` node whose attribute `offset` holds the offset and
/// whose attribute `scale` holds the scale, each when present, in that order.
pub proof fn lemma_scaler_writes_fields(op: Scaler, inputs: Seq<Seq<char>>, outputs: Seq<Seq<char>>)
    requires
        inputs.len() == 1,
        outputs.len() == 1,
    ensures
        op.emits(inputs, outputs) matches Ok(em) && em.node.op_type == "Scaler"@
            && em.node.domain == "ai.onnx.ml"@ && em.node.inputs == inputs
            && em.node.outputs == outputs && em.node.attributes == floats_attr(
            "offset"@,
            op.offset,
        ) + floats_attr("scale"@, op.scale),
{
    let f = scaler_fields();
    let v = op.values();
    reveal_strlit("offset");
    reveal_strlit("scale");
    let f1 = f.drop_last();
    let v1 = v.drop_last();
    assert(f1.drop_last() =~= Seq::<Field>::empty());
    assert(v1.drop_last() =~= Seq::<Option<AttributeValueSpec>>::empty());
    assert(f1.last() == f[0] && f.last() == f[1]);
    assert(v1.last() == v[0] && v.last() == v[1]);
    assert(emit_attrs(f1.drop_last(), v1.drop_last()) =~= Seq::<crate::ir::AttributeSpec>::empty());
    assert(super::table::emit_one("offset"@, v[0]) =~= floats_attr("offset"@, op.offset));
    assert(super::table::emit_one("scale"@, v[1]) =~= floats_attr("scale"@, op.scale));
    assert(emit_attrs(f1, v1) =~= floats_attr("offset"@, op.offset));
    assert(emit_attrs(f, v) =~= floats_attr("offset"@, op.offset) + floats_attr("scale"@, op.scale));
}

/// Reading an `ai.onnx.ml` `Scaler` node with one input, one output and the
/// float list attributes `offset` = `a` and `scale` = `b` succeeds, and the
/// operator read has offset `a` and scale `b`.
pub proof fn lemma_scaler_reads_fields(n: NodeSpec, a: Seq<u32>, b: Seq<u32>, x: Scaler)
    requires
        n.op_type == "Scaler"@,
        n.domain == "ai.onnx.ml"@,
        n.inputs.len() == 1,
        n.outputs.len() == 1,
        n.attributes == seq![
            crate::ir::AttributeSpec {
                name: "offset"@,
                value: AttributeValueSpec::Floats(a),
                doc_string: Seq::empty(),
            },
            crate::ir::AttributeSpec {
                name: "scale"@,
                value: AttributeValueSpec::Floats(b),
                doc_string: Seq::empty(),
            },
        ],
    ensures
        Scaler::recognizes(n),
        Scaler::spec_parse(n) == Ok::<Seq<Option<AttributeValueSpec>>, OpErrorSpec>(x.values())
            ==> (x.offset matches Some(o) && o@ == a) && (x.scale matches Some(c) && c@ == b),
{
    reveal_strlit("offset");
    reveal_strlit("scale");
    reveal_strlit("ai.onnx.ml");
    assert("offset"@.len() != "scale"@.len());
    let ents = n.attributes;
    let names = super::table::entry_names(ents);
    assert(names =~= seq!["offset"@, "scale"@]);
    assert(names.drop_last() =~= seq!["offset"@]);
    assert(names.drop_last().drop_last() =~= Seq::<Seq<char>>::empty());
    assert(!names.drop_last().contains("scale"@));
    assert(!names.drop_last().drop_last().contains("offset"@));
    assert(super::table::dup_error("Scaler"@, names.drop_last().drop_last()) is None);
    assert(super::table::dup_error("Scaler"@, names.drop_last()) is None);
    assert(super::table::dup_error("Scaler"@, names) is None);
    let f = scaler_fields();
    crate::ir::lemma_first_named(names, "offset"@, 0);
    let rest = ents.remove(0);
    assert(rest =~= seq![ents[1]]);
    let rnames = super::table::entry_names(rest);
    assert(rnames =~= seq!["scale"@]);
    crate::ir::lemma_first_named(rnames, "scale"@, 0);
    assert(rest.remove(0) =~= Seq::<crate::ir::AttributeSpec>::empty());
    assert(f.drop_first() =~= seq![f[1]]);
    assert(f.drop_first().drop_first() =~= Seq::<Field>::empty());
    let vs = seq![Some(AttributeValueSpec::Floats(a)), Some(AttributeValueSpec::Floats(b))];
    let empty = Seq::<crate::ir::AttributeSpec>::empty();
    assert(f[0].name@ == "offset"@ && f[1].name@ == "scale"@);
    assert(super::table::take_field("Scaler"@, ents, f[0]) == Ok::<
        (Option<AttributeValueSpec>, Seq<crate::ir::AttributeSpec>),
        OpErrorSpec,
    >((Some(AttributeValueSpec::Floats(a)), rest)));
    assert(super::table::take_field("Scaler"@, rest, f.drop_first()[0]) == Ok::<
        (Option<AttributeValueSpec>, Seq<crate::ir::AttributeSpec>),
        OpErrorSpec,
    >((Some(AttributeValueSpec::Floats(b)), empty)));
    assert(super::table::parse_fields("Scaler"@, empty, f.drop_first().drop_first()) == Ok::<
        (Seq<Option<AttributeValueSpec>>, Seq<crate::ir::AttributeSpec>),
        OpErrorSpec,
    >((Seq::empty(), empty)));
    assert(super::table::parse_fields("Scaler"@, rest, f.drop_first()) == Ok::<
        (Seq<Option<AttributeValueSpec>>, Seq<crate::ir::AttributeSpec>),
        OpErrorSpec,
    >((seq![Some(AttributeValueSpec::Floats(b))], empty)));
    assert(seq![Some(AttributeValueSpec::Floats(a))] + seq![Some(AttributeValueSpec::Floats(b))] =~= vs);
    assert(super::table::parse_fields("Scaler"@, ents, f) == Ok::<
        (Seq<Option<AttributeValueSpec>>, Seq<crate::ir::AttributeSpec>),
        OpErrorSpec,
    >((vs, Seq::empty())));
    assert(Scaler::spec_parse(n) == Ok::<Seq<Option<AttributeValueSpec>>, OpErrorSpec>(vs));
}

/// `Scaler`: subtracts an offset from each feature and multiplies by a scale.
/// Values are IEEE-754 bit patterns.
#[derive(Debug, Clone, PartialEq)]
pub struct Scaler {
    pub offset: Option<Vec<u32>>,
    pub scale: Option<Vec<u32>>,
}

impl Scaler {
    /// The attribute values, in schema order.
    pub open spec fn values(&self) -> Seq<Option<AttributeValueSpec>> {
        seq![floats_value(self.offset), floats_value(self.scale)]
    }

    /// The node written for this operator, or the first error.
    pub open spec fn spec_to_node(&self, inputs: Seq<Seq<char>>, outputs: Seq<Seq<char>>) -> Result<
        EmittedSpec,
        OpErrorSpec,
    > {
        emit_node("Scaler"@, ML_DOMAIN_STR@, Arity::Exactly(1), Arity::Exactly(1), scaler_fields(), self.values(), inputs, outputs)
    }

    /// The attribute values read from a node, or the first error.
    pub open spec fn spec_parse(n: NodeSpec) -> Result<Seq<Option<AttributeValueSpec>>, OpErrorSpec> {
        parse_node("Scaler"@, ML_DOMAIN_STR@, Arity::Exactly(1), Arity::Exactly(1), scaler_fields(), n)
    }
}

impl OnnxOp for Scaler {
    fn op_type() -> (r: &'static str)
        ensures
            r@ == "Scaler"@,
    {
        "Scaler"
    }

    fn domain() -> (r: &'static str)
        ensures
            r == ML_DOMAIN_STR,
    {
        ML_DOMAIN_STR
    }

    open spec fn recognizes(node: NodeSpec) -> bool {
        Self::spec_parse(node) is Ok
    }

    open spec fn op_name() -> Seq<char> {
        "Scaler"@
    }

    open spec fn emits(&self, inputs: Seq<Seq<char>>, outputs: Seq<Seq<char>>) -> Result<
        EmittedSpec,
        OpErrorSpec,
    > {
        self.spec_to_node(inputs, outputs)
    }

    fn to_node(&self, inputs: Vec<String>, outputs: Vec<String>) -> (r: Result<Emitted, OpError>)
        ensures
            match self.spec_to_node(inputs.deep_view(), outputs.deep_view()) {
                Ok(em) => r matches Ok(x) && x.deep_view() == em,
                Err(e) => r matches Err(x) && x.deep_view() == e,
            },
    {
        let mut vals: Vec<Option<AttributeValue>> = Vec::new();
        vals.push(put_floats(&self.offset));
        vals.push(put_floats(&self.scale));
        proof {
            assert(vals.deep_view() =~= self.values());
        }
        build_node("Scaler", ML_DOMAIN_STR, Arity::Exactly(1), Arity::Exactly(1), &scaler_schema(), vals, inputs, outputs)
    }

    #[verifier::rlimit(60)]
    fn from_node(node: &Node) -> (r: Result<Self, OpError>)
        ensures
            r is Ok <==> Self::recognizes(node.deep_view()),
            match Self::spec_parse(node.deep_view()) {
                Ok(vs) => r matches Ok(x) && x.values() == vs,
                Err(e) => r matches Err(x) && x.deep_view() == e,
            },
    {
        let vals = match read_node("Scaler", ML_DOMAIN_STR, Arity::Exactly(1), Arity::Exactly(1), &scaler_schema(), node) {
            Ok(v) => v,
            Err(e) => {
                return Err(e);
            },
        };
        proof {
            lemma_node_well_typed("Scaler"@, ML_DOMAIN_STR@, Arity::Exactly(1), Arity::Exactly(1), scaler_fields(), node.deep_view());
            assert(vals.deep_view()[0] == vals@[0].deep_view());
            assert(vals.deep_view()[1] == vals@[1].deep_view());
        }
        let offset = get_floats(vals[0]);
        let scale = get_floats(vals[1]);
        let r = Scaler {
            offset,
            scale,
        };
        proof {
            assert(r.values() =~= vals.deep_view());
        }
        Ok(r)
    }
}

proof fn lemma_scaler_fields_distinct()
    ensures
        distinct_names(scaler_fields()),
{
    let f = scaler_fields();
    reveal_strlit("offset");
    assert(f[0].name@ == "offset"@);
    reveal_strlit("scale");
    assert(f[1].name@ == "scale"@);
    assert forall|i: int, j: int| 0 <= i < j < f.len() implies #[trigger] f[i].name@
        != #[trigger] f[j].name@ by {
        assert(i == 0 || i == 1);
        assert(j == 0 || j == 1);
    }
}

/// Reading back the node written for a `Scaler` gives the same operator.
#[verifier::spinoff_prover]
#[verifier::rlimit(60)]
pub proof fn lemma_scaler_roundtrip(op: Scaler, inputs: Seq<Seq<char>>, outputs: Seq<Seq<char>>)
    requires
        op.spec_to_node(inputs, outputs) is Ok,
    ensures
        Scaler::spec_parse(op.spec_to_node(inputs, outputs)->Ok_0.node) == Ok::<
            Seq<Option<AttributeValueSpec>>,
            OpErrorSpec,
        >(op.values()),
{
    lemma_scaler_fields_distinct();
    lemma_node_roundtrip("Scaler"@, ML_DOMAIN_STR@, Arity::Exactly(1), Arity::Exactly(1), scaler_fields(), op.values(), inputs, outputs);
}

// ---------------------------------------------------------------------------
// Imputer
// ---------------------------------------------------------------------------
/// The attribute schema of `Imputer`.
pub open spec fn imputer_fields() -> Seq<Field> {
    seq![
        Field { name: "imputed_value_floats", kind: AttrKind::Floats, required: false },
        Field { name: "imputed_value_int64s", kind: AttrKind::Ints, required: false },
        Field { name: "replaced_value_float", kind: AttrKind::Float, required: false },
        Field { name: "replaced_value_int64", kind: AttrKind::Int, required: false },
    ]
}

fn imputer_schema() -> (r: [Field; 4])
    ensures
        r@ == imputer_fields(),
{
    let r = [
        Field { name: "imputed_value_floats", kind: AttrKind::Floats, required: false },
        Field { name: "imputed_value_int64s", kind: AttrKind::Ints, required: false },
        Field { name: "replaced_value_float", kind: AttrKind::Float, required: false },
        Field { name: "replaced_value_int64", kind: AttrKind::Int, required: false },
    ];
    proof {
        assert(r@ =~= imputer_fields());
    }
    r
}

/// `Imputer`: replaces missing values. Float values are IEEE-754 bit
/// patterns.
#[derive(Debug, Clone, PartialEq)]
pub struct Imputer {
    pub imputed_value_floats: Option<Vec<u32>>,
    pub imputed_value_int64s: Option<Vec<i64>>,
    pub replaced_value_float: Option<u32>,
    pub replaced_value_int64: Option<i64>,
}

impl Imputer {
    /// The attribute values, in schema order.
    pub open spec fn values(&self) -> Seq<Option<AttributeValueSpec>> {
        seq![floats_value(self.imputed_value_floats), ints_value(self.imputed_value_int64s), float_value(self.replaced_value_float), int_value(self.replaced_value_int64)]
    }

    /// The node written for this operator, or the first error.
    pub open spec fn spec_to_node(&self, inputs: Seq<Seq<char>>, outputs: Seq<Seq<char>>) -> Result<
        EmittedSpec,
        OpErrorSpec,
    > {
        match Self::spec_check(self.values()) {
            Some(e) => Err(e),
            None => emit_node("Imputer"@, ML_DOMAIN_STR@, Arity::Exactly(1), Arity::Exactly(1), imputer_fields(), self.values(), inputs, outputs),
        }
    }

    /// The attribute values read from a node, or the first error.
    pub open spec fn spec_parse(n: NodeSpec) -> Result<Seq<Option<AttributeValueSpec>>, OpErrorSpec> {
        match parse_node("Imputer"@, ML_DOMAIN_STR@, Arity::Exactly(1), Arity::Exactly(1), imputer_fields(), n) {
            Err(e) => Err(e),
            Ok(vs) => match Self::spec_check(vs) {
                Some(e) => Err(e),
                None => Ok(vs),
            },
        }
    }
}

impl OnnxOp for Imputer {
    fn op_type() -> (r: &'static str)
        ensures
            r@ == "Imputer"@,
    {
        "Imputer"
    }

    fn domain() -> (r: &'static str)
        ensures
            r == ML_DOMAIN_STR,
    {
        ML_DOMAIN_STR
    }

    open spec fn recognizes(node: NodeSpec) -> bool {
        Self::spec_parse(node) is Ok
    }

    open spec fn op_name() -> Seq<char> {
        "Imputer"@
    }

    open spec fn emits(&self, inputs: Seq<Seq<char>>, outputs: Seq<Seq<char>>) -> Result<
        EmittedSpec,
        OpErrorSpec,
    > {
        self.spec_to_node(inputs, outputs)
    }

    fn to_node(&self, inputs: Vec<String>, outputs: Vec<String>) -> (r: Result<Emitted, OpError>)
        ensures
            match self.spec_to_node(inputs.deep_view(), outputs.deep_view()) {
                Ok(em) => r matches Ok(x) && x.deep_view() == em,
                Err(e) => r matches Err(x) && x.deep_view() == e,
            },
    {
        match self.check() {
            Err(e) => {
                return Err(e);
            },
            Ok(()) => {},
        }
        let mut vals: Vec<Option<AttributeValue>> = Vec::new();
        vals.push(put_floats(&self.imputed_value_floats));
        vals.push(put_ints(&self.imputed_value_int64s));
        vals.push(put_float(self.replaced_value_float));
        vals.push(put_int(self.replaced_value_int64));
        proof {
            assert(vals.deep_view() =~= self.values());
        }
        build_node("Imputer", ML_DOMAIN_STR, Arity::Exactly(1), Arity::Exactly(1), &imputer_schema(), vals, inputs, outputs)
    }

    #[verifier::rlimit(60)]
    fn from_node(node: &Node) -> (r: Result<Self, OpError>)
        ensures
            r is Ok <==> Self::recognizes(node.deep_view()),
            match Self::spec_parse(node.deep_view()) {
                Ok(vs) => r matches Ok(x) && x.values() == vs,
                Err(e) => r matches Err(x) && x.deep_view() == e,
            },
    {
        let vals = match read_node("Imputer", ML_DOMAIN_STR, Arity::Exactly(1), Arity::Exactly(1), &imputer_schema(), node) {
            Ok(v) => v,
            Err(e) => {
                return Err(e);
            },
        };
        proof {
            lemma_node_well_typed("Imputer"@, ML_DOMAIN_STR@, Arity::Exactly(1), Arity::Exactly(1), imputer_fields(), node.deep_view());
            assert(vals.deep_view()[0] == vals@[0].deep_view());
            assert(vals.deep_view()[1] == vals@[1].deep_view());
            assert(vals.deep_view()[2] == vals@[2].deep_view());
            assert(vals.deep_view()[3] == vals@[3].deep_view());
        }
        let imputed_value_floats = get_floats(vals[0]);
        let imputed_value_int64s = get_ints(vals[1]);
        let replaced_value_float = get_float(vals[2]);
        let replaced_value_int64 = get_int(vals[3]);
        let r = Imputer {
            imputed_value_floats,
            imputed_value_int64s,
            replaced_value_float,
            replaced_value_int64,
        };
        proof {
            assert(r.values() =~= vals.deep_view());
        }
        match r.check() {
            Err(e) => Err(e),
            Ok(()) => Ok(r),
        }
    }
}

proof fn lemma_imputer_fields_distinct()
    ensures
        distinct_names(imputer_fields()),
{
    let f = imputer_fields();
    reveal_strlit("imputed_value_floats");
    assert(f[0].name@ == "imputed_value_floats"@);
    reveal_strlit("imputed_value_int64s");
    assert(f[1].name@ == "imputed_value_int64s"@);
    reveal_strlit("replaced_value_float");
    assert(f[2].name@ == "replaced_value_float"@);
    reveal_strlit("replaced_value_int64");
    assert(f[3].name@ == "replaced_value_int64"@);
    assert(f[0].name@[14] != f[1].name@[14]);
    assert(f[0].name@[0] != f[2].name@[0]);
    assert(f[0].name@[0] != f[3].name@[0]);
    assert(f[1].name@[0] != f[2].name@[0]);
    assert(f[1].name@[0] != f[3].name@[0]);
    assert(f[2].name@[15] != f[3].name@[15]);
    assert forall|i: int, j: int| 0 <= i < j < f.len() implies #[trigger] f[i].name@
        != #[trigger] f[j].name@ by {
        assert(i == 0 || i == 1 || i == 2 || i == 3);
        assert(j == 0 || j == 1 || j == 2 || j == 3);
    }
}

/// Reading back the node written for a `Imputer` gives the same operator.
#[verifier::spinoff_prover]
#[verifier::rlimit(60)]
pub proof fn lemma_imputer_roundtrip(op: Imputer, inputs: Seq<Seq<char>>, outputs: Seq<Seq<char>>)
    requires
        op.spec_to_node(inputs, outputs) is Ok,
    ensures
        Imputer::spec_parse(op.spec_to_node(inputs, outputs)->Ok_0.node) == Ok::<
            Seq<Option<AttributeValueSpec>>,
            OpErrorSpec,
        >(op.values()),
{
    lemma_imputer_fields_distinct();
    assert(Imputer::spec_check(op.values()) is None);
    assert(op.spec_to_node(inputs, outputs) == emit_node("Imputer"@, ML_DOMAIN_STR@, Arity::Exactly(1), Arity::Exactly(1), imputer_fields(), op.values(), inputs, outputs));
    lemma_node_roundtrip("Imputer"@, ML_DOMAIN_STR@, Arity::Exactly(1), Arity::Exactly(1), imputer_fields(), op.values(), inputs, outputs);
    assert(parse_node("Imputer"@, ML_DOMAIN_STR@, Arity::Exactly(1), Arity::Exactly(1), imputer_fields(), op.spec_to_node(inputs, outputs)->Ok_0.node) == Ok::<Seq<Option<AttributeValueSpec>>, OpErrorSpec>(op.values()));
}

// ---------------------------------------------------------------------------
// Normalizer
// ---------------------------------------------------------------------------
/// The attribute schema of `Normalizer`.
pub open spec fn normalizer_fields() -> Seq<Field> {
    seq![
        Field { name: "norm", kind: AttrKind::Str, required: false },
    ]
}

fn normalizer_schema() -> (r: [Field; 1])
    ensures
        r@ == normalizer_fields(),
{
    let r = [
        Field { name: "norm", kind: AttrKind::Str, required: false },
    ];
    proof {
        assert(r@ =~= normalizer_fields());
    }
    r
}

/// `Normalizer`: scales each row to unit norm.
#[derive(Debug, Clone, PartialEq)]
pub struct Normalizer {
    pub norm: Option<String>,
}

impl Normalizer {
    /// The attribute values, in schema order.
    pub open spec fn values(&self) -> Seq<Option<AttributeValueSpec>> {
        seq![string_value(self.norm)]
    }

    /// The node written for this operator, or the first error.
    pub open spec fn spec_to_node(&self, inputs: Seq<Seq<char>>, outputs: Seq<Seq<char>>) -> Result<
        EmittedSpec,
        OpErrorSpec,
    > {
        emit_node("Normalizer"@, ML_DOMAIN_STR@, Arity::Exactly(1), Arity::Exactly(1), normalizer_fields(), self.values(), inputs, outputs)
    }

    /// The attribute values read from a node, or the first error.
    pub open spec fn spec_parse(n: NodeSpec) -> Result<Seq<Option<AttributeValueSpec>>, OpErrorSpec> {
        parse_node("Normalizer"@, ML_DOMAIN_STR@, Arity::Exactly(1), Arity::Exactly(1), normalizer_fields(), n)
    }
}

impl OnnxOp for Normalizer {
    fn op_type() -> (r: &'static str)
        ensures
            r@ == "Normalizer"@,
    {
        "Normalizer"
    }

    fn domain() -> (r: &'static str)
        ensures
            r == ML_DOMAIN_STR,
    {
        ML_DOMAIN_STR
    }

    open spec fn recognizes(node: NodeSpec) -> bool {
        Self::spec_parse(node) is Ok
    }

    open spec fn op_name() -> Seq<char> {
        "Normalizer"@
    }

    open spec fn emits(&self, inputs: Seq<Seq<char>>, outputs: Seq<Seq<char>>) -> Result<
        EmittedSpec,
        OpErrorSpec,
    > {
        self.spec_to_node(inputs, outputs)
    }

    fn to_node(&self, inputs: Vec<String>, outputs: Vec<String>) -> (r: Result<Emitted, OpError>)
        ensures
            match self.spec_to_node(inputs.deep_view(), outputs.deep_view()) {
                Ok(em) => r matches Ok(x) && x.deep_view() == em,
                Err(e) => r matches Err(x) && x.deep_view() == e,
            },
    {
        let mut vals: Vec<Option<AttributeValue>> = Vec::new();
        vals.push(put_string(&self.norm));
        proof {
            assert(vals.deep_view() =~= self.values());
        }
        build_node("Normalizer", ML_DOMAIN_STR, Arity::Exactly(1), Arity::Exactly(1), &normalizer_schema(), vals, inputs, outputs)
    }

    #[verifier::rlimit(60)]
    fn from_node(node: &Node) -> (r: Result<Self, OpError>)
        ensures
            r is Ok <==> Self::recognizes(node.deep_view()),
            match Self::spec_parse(node.deep_view()) {
                Ok(vs) => r matches Ok(x) && x.values() == vs,
                Err(e) => r matches Err(x) && x.deep_view() == e,
            },
    {
        let vals = match read_node("Normalizer", ML_DOMAIN_STR, Arity::Exactly(1), Arity::Exactly(1), &normalizer_schema(), node) {
            Ok(v) => v,
            Err(e) => {
                return Err(e);
            },
        };
        proof {
            lemma_node_well_typed("Normalizer"@, ML_DOMAIN_STR@, Arity::Exactly(1), Arity::Exactly(1), normalizer_fields(), node.deep_view());
            assert(vals.deep_view()[0] == vals@[0].deep_view());
        }
        let norm = get_string(vals[0]);
        let r = Normalizer {
            norm,
        };
        proof {
            assert(r.values() =~= vals.deep_view());
        }
        Ok(r)
    }
}

proof fn lemma_normalizer_fields_distinct()
    ensures
        distinct_names(normalizer_fields()),
{
    let f = normalizer_fields();
    reveal_strlit("norm");
    assert(f[0].name@ == "norm"@);
}

/// Reading back the node written for a `Normalizer` gives the same operator.
#[verifier::spinoff_prover]
#[verifier::rlimit(60)]
pub proof fn lemma_normalizer_roundtrip(op: Normalizer, inputs: Seq<Seq<char>>, outputs: Seq<Seq<char>>)
    requires
        op.spec_to_node(inputs, outputs) is Ok,
    ensures
        Normalizer::spec_parse(op.spec_to_node(inputs, outputs)->Ok_0.node) == Ok::<
            Seq<Option<AttributeValueSpec>>,
            OpErrorSpec,
        >(op.values()),
{
    lemma_normalizer_fields_distinct();
    lemma_node_roundtrip("Normalizer"@, ML_DOMAIN_STR@, Arity::Exactly(1), Arity::Exactly(1), normalizer_fields(), op.values(), inputs, outputs);
}

// ---------------------------------------------------------------------------
// LabelEncoder
// ---------------------------------------------------------------------------
/// The attribute schema of `LabelEncoder`.
pub open spec fn label_encoder_fields() -> Seq<Field> {
    seq![
        Field { name: "default_float", kind: AttrKind::Float, required: false },
        Field { name: "default_int64", kind: AttrKind::Int, required: false },
        Field { name: "default_string", kind: AttrKind::Str, required: false },
        Field { name: "default_tensor", kind: AttrKind::Tensor, required: false },
        Field { name: "keys_floats", kind: AttrKind::Floats, required: false },
        Field { name: "keys_int64s", kind: AttrKind::Ints, required: false },
        Field { name: "keys_strings", kind: AttrKind::Strings, required: false },
        Field { name: "keys_tensor", kind: AttrKind::Tensor, required: false },
        Field { name: "values_floats", kind: AttrKind::Floats, required: false },
        Field { name: "values_int64s", kind: AttrKind::Ints, required: false },
        Field { name: "values_strings", kind: AttrKind::Strings, required: false },
        Field { name: "values_tensor", kind: AttrKind::Tensor, required: false },
    ]
}

fn label_encoder_schema() -> (r: [Field; 12])
    ensures
        r@ == label_encoder_fields(),
{
    let r = [
        Field { name: "default_float", kind: AttrKind::Float, required: false },
        Field { name: "default_int64", kind: AttrKind::Int, required: false },
        Field { name: "default_string", kind: AttrKind::Str, required: false },
        Field { name: "default_tensor", kind: AttrKind::Tensor, required: false },
        Field { name: "keys_floats", kind: AttrKind::Floats, required: false },
        Field { name: "keys_int64s", kind: AttrKind::Ints, required: false },
        Field { name: "keys_strings", kind: AttrKind::Strings, required: false },
        Field { name: "keys_tensor", kind: AttrKind::Tensor, required: false },
        Field { name: "values_floats", kind: AttrKind::Floats, required: false },
        Field { name: "values_int64s", kind: AttrKind::Ints, required: false },
        Field { name: "values_strings", kind: AttrKind::Strings, required: false },
        Field { name: "values_tensor", kind: AttrKind::Tensor, required: false },
    ];
    proof {
        assert(r@ =~= label_encoder_fields());
    }
    r
}

/// `LabelEncoder`: maps keys to values. Float values are IEEE-754 bit
/// patterns.
#[derive(Debug, Clone, PartialEq)]
pub struct LabelEncoder {
    pub default_float: Option<u32>,
    pub default_int64: Option<i64>,
    pub default_string: Option<String>,
    pub default_tensor: Option<Tensor>,
    pub keys_floats: Option<Vec<u32>>,
    pub keys_int64s: Option<Vec<i64>>,
    pub keys_strings: Option<Vec<String>>,
    pub keys_tensor: Option<Tensor>,
    pub values_floats: Option<Vec<u32>>,
    pub values_int64s: Option<Vec<i64>>,
    pub values_strings: Option<Vec<String>>,
    pub values_tensor: Option<Tensor>,
}

impl LabelEncoder {
    /// The attribute values, in schema order.
    pub open spec fn values(&self) -> Seq<Option<AttributeValueSpec>> {
        seq![float_value(self.default_float), int_value(self.default_int64), string_value(self.default_string), tensor_value(self.default_tensor), floats_value(self.keys_floats), ints_value(self.keys_int64s), strings_value(self.keys_strings), tensor_value(self.keys_tensor), floats_value(self.values_floats), ints_value(self.values_int64s), strings_value(self.values_strings), tensor_value(self.values_tensor)]
    }

    /// The node written for this operator, or the first error.
    pub open spec fn spec_to_node(&self, inputs: Seq<Seq<char>>, outputs: Seq<Seq<char>>) -> Result<
        EmittedSpec,
        OpErrorSpec,
    > {
        match Self::spec_check(self.values()) {
            Some(e) => Err(e),
            None => emit_node("LabelEncoder"@, ML_DOMAIN_STR@, Arity::Exactly(1), Arity::Exactly(1), label_encoder_fields(), self.values(), inputs, outputs),
        }
    }

    /// The attribute values read from a node, or the first error.
    pub open spec fn spec_parse(n: NodeSpec) -> Result<Seq<Option<AttributeValueSpec>>, OpErrorSpec> {
        match parse_node("LabelEncoder"@, ML_DOMAIN_STR@, Arity::Exactly(1), Arity::Exactly(1), label_encoder_fields(), n) {
            Err(e) => Err(e),
            Ok(vs) => match Self::spec_check(vs) {
                Some(e) => Err(e),
                None => Ok(vs),
            },
        }
    }
}

impl OnnxOp for LabelEncoder {
    fn op_type() -> (r: &'static str)
        ensures
            r@ == "LabelEncoder"@,
    {
        "LabelEncoder"
    }

    fn domain() -> (r: &'static str)
        ensures
            r == ML_DOMAIN_STR,
    {
        ML_DOMAIN_STR
    }

    open spec fn recognizes(node: NodeSpec) -> bool {
        Self::spec_parse(node) is Ok
    }

    open spec fn op_name() -> Seq<char> {
        "LabelEncoder"@
    }

    open spec fn emits(&self, inputs: Seq<Seq<char>>, outputs: Seq<Seq<char>>) -> Result<
        EmittedSpec,
        OpErrorSpec,
    > {
        self.spec_to_node(inputs, outputs)
    }

    fn to_node(&self, inputs: Vec<String>, outputs: Vec<String>) -> (r: Result<Emitted, OpError>)
        ensures
            match self.spec_to_node(inputs.deep_view(), outputs.deep_view()) {
                Ok(em) => r matches Ok(x) && x.deep_view() == em,
                Err(e) => r matches Err(x) && x.deep_view() == e,
            },
    {
        match self.check() {
            Err(e) => {
                return Err(e);
            },
            Ok(()) => {},
        }
        let mut vals: Vec<Option<AttributeValue>> = Vec::new();
        vals.push(put_float(self.default_float));
        vals.push(put_int(self.default_int64));
        vals.push(put_string(&self.default_string));
        vals.push(put_tensor(&self.default_tensor));
        vals.push(put_floats(&self.keys_floats));
        vals.push(put_ints(&self.keys_int64s));
        vals.push(put_strings(&self.keys_strings));
        vals.push(put_tensor(&self.keys_tensor));
        vals.push(put_floats(&self.values_floats));
        vals.push(put_ints(&self.values_int64s));
        vals.push(put_strings(&self.values_strings));
        vals.push(put_tensor(&self.values_tensor));
        proof {
            assert(vals.deep_view() =~= self.values());
        }
        build_node("LabelEncoder", ML_DOMAIN_STR, Arity::Exactly(1), Arity::Exactly(1), &label_encoder_schema(), vals, inputs, outputs)
    }

    #[verifier::rlimit(60)]
    fn from_node(node: &Node) -> (r: Result<Self, OpError>)
        ensures
            r is Ok <==> Self::recognizes(node.deep_view()),
            match Self::spec_parse(node.deep_view()) {
                Ok(vs) => r matches Ok(x) && x.values() == vs,
                Err(e) => r matches Err(x) && x.deep_view() == e,
            },
    {
        let vals = match read_node("LabelEncoder", ML_DOMAIN_STR, Arity::Exactly(1), Arity::Exactly(1), &label_encoder_schema(), node) {
            Ok(v) => v,
            Err(e) => {
                return Err(e);
            },
        };
        proof {
            lemma_node_well_typed("LabelEncoder"@, ML_DOMAIN_STR@, Arity::Exactly(1), Arity::Exactly(1), label_encoder_fields(), node.deep_view());
            assert(vals.deep_view()[0] == vals@[0].deep_view());
            assert(vals.deep_view()[1] == vals@[1].deep_view());
            assert(vals.deep_view()[2] == vals@[2].deep_view());
            assert(vals.deep_view()[3] == vals@[3].deep_view());
            assert(vals.deep_view()[4] == vals@[4].deep_view());
            assert(vals.deep_view()[5] == vals@[5].deep_view());
            assert(vals.deep_view()[6] == vals@[6].deep_view());
            assert(vals.deep_view()[7] == vals@[7].deep_view());
            assert(vals.deep_view()[8] == vals@[8].deep_view());
            assert(vals.deep_view()[9] == vals@[9].deep_view());
            assert(vals.deep_view()[10] == vals@[10].deep_view());
            assert(vals.deep_view()[11] == vals@[11].deep_view());
        }
        let default_float = get_float(vals[0]);
        let default_int64 = get_int(vals[1]);
        let default_string = get_string(vals[2]);
        let default_tensor = get_tensor(vals[3]);
        let keys_floats = get_floats(vals[4]);
        let keys_int64s = get_ints(vals[5]);
        let keys_strings = get_strings(vals[6]);
        let keys_tensor = get_tensor(vals[7]);
        let values_floats = get_floats(vals[8]);
        let values_int64s = get_ints(vals[9]);
        let values_strings = get_strings(vals[10]);
        let values_tensor = get_tensor(vals[11]);
        let r = LabelEncoder {
            default_float,
            default_int64,
            default_string,
            default_tensor,
            keys_floats,
            keys_int64s,
            keys_strings,
            keys_tensor,
            values_floats,
            values_int64s,
            values_strings,
            values_tensor,
        };
        proof {
            assert(r.values() =~= vals.deep_view());
        }
        match r.check() {
            Err(e) => Err(e),
            Ok(()) => Ok(r),
        }
    }
}

proof fn lemma_label_encoder_fields_distinct()
    ensures
        distinct_names(label_encoder_fields()),
{
    let f = label_encoder_fields();
    reveal_strlit("default_float");
    assert(f[0].name@ == "default_float"@);
    reveal_strlit("default_int64");
    assert(f[1].name@ == "default_int64"@);
    reveal_strlit("default_string");
    assert(f[2].name@ == "default_string"@);
    reveal_strlit("default_tensor");
    assert(f[3].name@ == "default_tensor"@);
    reveal_strlit("keys_floats");
    assert(f[4].name@ == "keys_floats"@);
    reveal_strlit("keys_int64s");
    assert(f[5].name@ == "keys_int64s"@);
    reveal_strlit("keys_strings");
    assert(f[6].name@ == "keys_strings"@);
    reveal_strlit("keys_tensor");
    assert(f[7].name@ == "keys_tensor"@);
    reveal_strlit("values_floats");
    assert(f[8].name@ == "values_floats"@);
    reveal_strlit("values_int64s");
    assert(f[9].name@ == "values_int64s"@);
    reveal_strlit("values_strings");
    assert(f[10].name@ == "values_strings"@);
    reveal_strlit("values_tensor");
    assert(f[11].name@ == "values_tensor"@);
    assert(f[0].name@[8] != f[1].name@[8]);
    assert(f[0].name@[0] != f[8].name@[0]);
    assert(f[0].name@[0] != f[9].name@[0]);
    assert(f[0].name@[0] != f[11].name@[0]);
    assert(f[1].name@[0] != f[8].name@[0]);
    assert(f[1].name@[0] != f[9].name@[0]);
    assert(f[1].name@[0] != f[11].name@[0]);
    assert(f[2].name@[8] != f[3].name@[8]);
    assert(f[2].name@[0] != f[10].name@[0]);
    assert(f[3].name@[0] != f[10].name@[0]);
    assert(f[4].name@[5] != f[5].name@[5]);
    assert(f[4].name@[5] != f[7].name@[5]);
    assert(f[5].name@[5] != f[7].name@[5]);
    assert(f[8].name@[7] != f[9].name@[7]);
    assert(f[8].name@[7] != f[11].name@[7]);
    assert(f[9].name@[7] != f[11].name@[7]);
    assert forall|i: int, j: int| 0 <= i < j < f.len() implies #[trigger] f[i].name@
        != #[trigger] f[j].name@ by {
        assert(i == 0 || i == 1 || i == 2 || i == 3 || i == 4 || i == 5 || i == 6 || i == 7 || i == 8 || i == 9 || i == 10 || i == 11);
        assert(j == 0 || j == 1 || j == 2 || j == 3 || j == 4 || j == 5 || j == 6 || j == 7 || j == 8 || j == 9 || j == 10 || j == 11);
    }
}

/// Reading back the node written for a `LabelEncoder` gives the same operator.
#[verifier::spinoff_prover]
#[verifier::rlimit(60)]
pub proof fn lemma_label_encoder_roundtrip(op: LabelEncoder, inputs: Seq<Seq<char>>, outputs: Seq<Seq<char>>)
    requires
        op.spec_to_node(inputs, outputs) is Ok,
    ensures
        LabelEncoder::spec_parse(op.spec_to_node(inputs, outputs)->Ok_0.node) == Ok::<
            Seq<Option<AttributeValueSpec>>,
            OpErrorSpec,
        >(op.values()),
{
    lemma_label_encoder_fields_distinct();
    assert(LabelEncoder::spec_check(op.values()) is None);
    assert(op.spec_to_node(inputs, outputs) == emit_node("LabelEncoder"@, ML_DOMAIN_STR@, Arity::Exactly(1), Arity::Exactly(1), label_encoder_fields(), op.values(), inputs, outputs));
    lemma_node_roundtrip("LabelEncoder"@, ML_DOMAIN_STR@, Arity::Exactly(1), Arity::Exactly(1), label_encoder_fields(), op.values(), inputs, outputs);
    assert(parse_node("LabelEncoder"@, ML_DOMAIN_STR@, Arity::Exactly(1), Arity::Exactly(1), label_encoder_fields(), op.spec_to_node(inputs, outputs)->Ok_0.node) == Ok::<Seq<Option<AttributeValueSpec>>, OpErrorSpec>(op.values()));
}

// ---------------------------------------------------------------------------
// OneHotEncoder
// ---------------------------------------------------------------------------
/// The attribute schema of `OneHotEncoder`.
pub open spec fn one_hot_encoder_fields() -> Seq<Field> {
    seq![
        Field { name: "cats_int64s", kind: AttrKind::Ints, required: false },
        Field { name: "cats_strings", kind: AttrKind::Strings, required: false },
        Field { name: "zeros", kind: AttrKind::Int, required: false },
    ]
}

fn one_hot_encoder_schema() -> (r: [Field; 3])
    ensures
        r@ == one_hot_encoder_fields(),
{
    let r = [
        Field { name: "cats_int64s", kind: AttrKind::Ints, required: false },
        Field { name: "cats_strings", kind: AttrKind::Strings, required: false },
        Field { name: "zeros", kind: AttrKind::Int, required: false },
    ];
    proof {
        assert(r@ =~= one_hot_encoder_fields());
    }
    r
}

/// `OneHotEncoder`: encodes each category as a one-hot vector.
#[derive(Debug, Clone, PartialEq)]
pub struct OneHotEncoder {
    pub cats_int64s: Option<Vec<i64>>,
    pub cats_strings: Option<Vec<String>>,
    pub zeros: Option<i64>,
}

impl OneHotEncoder {
    /// The attribute values, in schema order.
    pub open spec fn values(&self) -> Seq<Option<AttributeValueSpec>> {
        seq![ints_value(self.cats_int64s), strings_value(self.cats_strings), int_value(self.zeros)]
    }

    /// The node written for this operator, or the first error.
    pub open spec fn spec_to_node(&self, inputs: Seq<Seq<char>>, outputs: Seq<Seq<char>>) -> Result<
        EmittedSpec,
        OpErrorSpec,
    > {
        match Self::spec_check(self.values()) {
            Some(e) => Err(e),
            None => emit_node("OneHotEncoder"@, ML_DOMAIN_STR@, Arity::Exactly(1), Arity::Exactly(1), one_hot_encoder_fields(), self.values(), inputs, outputs),
        }
    }

    /// The attribute values read from a node, or the first error.
    pub open spec fn spec_parse(n: NodeSpec) -> Result<Seq<Option<AttributeValueSpec>>, OpErrorSpec> {
        match parse_node("OneHotEncoder"@, ML_DOMAIN_STR@, Arity::Exactly(1), Arity::Exactly(1), one_hot_encoder_fields(), n) {
            Err(e) => Err(e),
            Ok(vs) => match Self::spec_check(vs) {
                Some(e) => Err(e),
                None => Ok(vs),
            },
        }
    }
}

impl OnnxOp for OneHotEncoder {
    fn op_type() -> (r: &'static str)
        ensures
            r@ == "OneHotEncoder"@,
    {
        "OneHotEncoder"
    }

    fn domain() -> (r: &'static str)
        ensures
            r == ML_DOMAIN_STR,
    {
        ML_DOMAIN_STR
    }

    open spec fn recognizes(node: NodeSpec) -> bool {
        Self::spec_parse(node) is Ok
    }

    open spec fn op_name() -> Seq<char> {
        "OneHotEncoder"@
    }

    open spec fn emits(&self, inputs: Seq<Seq<char>>, outputs: Seq<Seq<char>>) -> Result<
        EmittedSpec,
        OpErrorSpec,
    > {
        self.spec_to_node(inputs, outputs)
    }

    fn to_node(&self, inputs: Vec<String>, outputs: Vec<String>) -> (r: Result<Emitted, OpError>)
        ensures
            match self.spec_to_node(inputs.deep_view(), outputs.deep_view()) {
                Ok(em) => r matches Ok(x) && x.deep_view() == em,
                Err(e) => r matches Err(x) && x.deep_view() == e,
            },
    {
        match self.check() {
            Err(e) => {
                return Err(e);
            },
            Ok(()) => {},
        }
        let mut vals: Vec<Option<AttributeValue>> = Vec::new();
        vals.push(put_ints(&self.cats_int64s));
        vals.push(put_strings(&self.cats_strings));
        vals.push(put_int(self.zeros));
        proof {
            assert(vals.deep_view() =~= self.values());
        }
        build_node("OneHotEncoder", ML_DOMAIN_STR, Arity::Exactly(1), Arity::Exactly(1), &one_hot_encoder_schema(), vals, inputs, outputs)
    }

    #[verifier::rlimit(60)]
    fn from_node(node: &Node) -> (r: Result<Self, OpError>)
        ensures
            r is Ok <==> Self::recognizes(node.deep_view()),
            match Self::spec_parse(node.deep_view()) {
                Ok(vs) => r matches Ok(x) && x.values() == vs,
                Err(e) => r matches Err(x) && x.deep_view() == e,
            },
    {
        let vals = match read_node("OneHotEncoder", ML_DOMAIN_STR, Arity::Exactly(1), Arity::Exactly(1), &one_hot_encoder_schema(), node) {
            Ok(v) => v,
            Err(e) => {
                return Err(e);
            },
        };
        proof {
            lemma_node_well_typed("OneHotEncoder"@, ML_DOMAIN_STR@, Arity::Exactly(1), Arity::Exactly(1), one_hot_encoder_fields(), node.deep_view());
            assert(vals.deep_view()[0] == vals@[0].deep_view());
            assert(vals.deep_view()[1] == vals@[1].deep_view());
            assert(vals.deep_view()[2] == vals@[2].deep_view());
        }
        let cats_int64s = get_ints(vals[0]);
        let cats_strings = get_strings(vals[1]);
        let zeros = get_int(vals[2]);
        let r = OneHotEncoder {
            cats_int64s,
            cats_strings,
            zeros,
        };
        proof {
            assert(r.values() =~= vals.deep_view());
        }
        match r.check() {
            Err(e) => Err(e),
            Ok(()) => Ok(r),
        }
    }
}

proof fn lemma_one_hot_encoder_fields_distinct()
    ensures
        distinct_names(one_hot_encoder_fields()),
{
    let f = one_hot_encoder_fields();
    reveal_strlit("cats_int64s");
    assert(f[0].name@ == "cats_int64s"@);
    reveal_strlit("cats_strings");
    assert(f[1].name@ == "cats_strings"@);
    reveal_strlit("zeros");
    assert(f[2].name@ == "zeros"@);
    assert forall|i: int, j: int| 0 <= i < j < f.len() implies #[trigger] f[i].name@
        != #[trigger] f[j].name@ by {
        assert(i == 0 || i == 1 || i == 2);
        assert(j == 0 || j == 1 || j == 2);
    }
}

/// Reading back the node written for a `OneHotEncoder` gives the same operator.
#[verifier::spinoff_prover]
#[verifier::rlimit(60)]
pub proof fn lemma_one_hot_encoder_roundtrip(op: OneHotEncoder, inputs: Seq<Seq<char>>, outputs: Seq<Seq<char>>)
    requires
        op.spec_to_node(inputs, outputs) is Ok,
    ensures
        OneHotEncoder::spec_parse(op.spec_to_node(inputs, outputs)->Ok_0.node) == Ok::<
            Seq<Option<AttributeValueSpec>>,
            OpErrorSpec,
        >(op.values()),
{
    lemma_one_hot_encoder_fields_distinct();
    assert(OneHotEncoder::spec_check(op.values()) is None);
    assert(op.spec_to_node(inputs, outputs) == emit_node("OneHotEncoder"@, ML_DOMAIN_STR@, Arity::Exactly(1), Arity::Exactly(1), one_hot_encoder_fields(), op.values(), inputs, outputs));
    lemma_node_roundtrip("OneHotEncoder"@, ML_DOMAIN_STR@, Arity::Exactly(1), Arity::Exactly(1), one_hot_encoder_fields(), op.values(), inputs, outputs);
    assert(parse_node("OneHotEncoder"@, ML_DOMAIN_STR@, Arity::Exactly(1), Arity::Exactly(1), one_hot_encoder_fields(), op.spec_to_node(inputs, outputs)->Ok_0.node) == Ok::<Seq<Option<AttributeValueSpec>>, OpErrorSpec>(op.values()));
}

// ---------------------------------------------------------------------------
// DictVectorizer
// ---------------------------------------------------------------------------
/// The attribute schema of `DictVectorizer`.
pub open spec fn dict_vectorizer_fields() -> Seq<Field> {
    seq![
        Field { name: "int64_vocabulary", kind: AttrKind::Ints, required: false },
        Field { name: "string_vocabulary", kind: AttrKind::Strings, required: false },
    ]
}

fn dict_vectorizer_schema() -> (r: [Field; 2])
    ensures
        r@ == dict_vectorizer_fields(),
{
    let r = [
        Field { name: "int64_vocabulary", kind: AttrKind::Ints, required: false },
        Field { name: "string_vocabulary", kind: AttrKind::Strings, required: false },
    ];
    proof {
        assert(r@ =~= dict_vectorizer_fields());
    }
    r
}

/// `DictVectorizer`: turns a map into a dense vector over a vocabulary.
#[derive(Debug, Clone, PartialEq)]
pub struct DictVectorizer {
    pub int64_vocabulary: Option<Vec<i64>>,
    pub string_vocabulary: Option<Vec<String>>,
}

impl DictVectorizer {
    /// The attribute values, in schema order.
    pub open spec fn values(&self) -> Seq<Option<AttributeValueSpec>> {
        seq![ints_value(self.int64_vocabulary), strings_value(self.string_vocabulary)]
    }

    /// The node written for this operator, or the first error.
    pub open spec fn spec_to_node(&self, inputs: Seq<Seq<char>>, outputs: Seq<Seq<char>>) -> Result<
        EmittedSpec,
        OpErrorSpec,
    > {
        match Self::spec_check(self.values()) {
            Some(e) => Err(e),
            None => emit_node("DictVectorizer"@, ML_DOMAIN_STR@, Arity::Exactly(1), Arity::Exactly(1), dict_vectorizer_fields(), self.values(), inputs, outputs),
        }
    }

    /// The attribute values read from a node, or the first error.
    pub open spec fn spec_parse(n: NodeSpec) -> Result<Seq<Option<AttributeValueSpec>>, OpErrorSpec> {
        match parse_node("DictVectorizer"@, ML_DOMAIN_STR@, Arity::Exactly(1), Arity::Exactly(1), dict_vectorizer_fields(), n) {
            Err(e) => Err(e),
            Ok(vs) => match Self::spec_check(vs) {
                Some(e) => Err(e),
                None => Ok(vs),
            },
        }
    }
}

impl OnnxOp for DictVectorizer {
    fn op_type() -> (r: &'static str)
        ensures
            r@ == "DictVectorizer"@,
    {
        "DictVectorizer"
    }

    fn domain() -> (r: &'static str)
        ensures
            r == ML_DOMAIN_STR,
    {
        ML_DOMAIN_STR
    }

    open spec fn recognizes(node: NodeSpec) -> bool {
        Self::spec_parse(node) is Ok
    }

    open spec fn op_name() -> Seq<char> {
        "DictVectorizer"@
    }

    open spec fn emits(&self, inputs: Seq<Seq<char>>, outputs: Seq<Seq<char>>) -> Result<
        EmittedSpec,
        OpErrorSpec,
    > {
        self.spec_to_node(inputs, outputs)
    }

    fn to_node(&self, inputs: Vec<String>, outputs: Vec<String>) -> (r: Result<Emitted, OpError>)
        ensures
            match self.spec_to_node(inputs.deep_view(), outputs.deep_view()) {
                Ok(em) => r matches Ok(x) && x.deep_view() == em,
                Err(e) => r matches Err(x) && x.deep_view() == e,
            },
    {
        match self.check() {
            Err(e) => {
                return Err(e);
            },
            Ok(()) => {},
        }
        let mut vals: Vec<Option<AttributeValue>> = Vec::new();
        vals.push(put_ints(&self.int64_vocabulary));
        vals.push(put_strings(&self.string_vocabulary));
        proof {
            assert(vals.deep_view() =~= self.values());
        }
        build_node("DictVectorizer", ML_DOMAIN_STR, Arity::Exactly(1), Arity::Exactly(1), &dict_vectorizer_schema(), vals, inputs, outputs)
    }

    #[verifier::rlimit(60)]
    fn from_node(node: &Node) -> (r: Result<Self, OpError>)
        ensures
            r is Ok <==> Self::recognizes(node.deep_view()),
            match Self::spec_parse(node.deep_view()) {
                Ok(vs) => r matches Ok(x) && x.values() == vs,
                Err(e) => r matches Err(x) && x.deep_view() == e,
            },
    {
        let vals = match read_node("DictVectorizer", ML_DOMAIN_STR, Arity::Exactly(1), Arity::Exactly(1), &dict_vectorizer_schema(), node) {
            Ok(v) => v,
            Err(e) => {
                return Err(e);
            },
        };
        proof {
            lemma_node_well_typed("DictVectorizer"@, ML_DOMAIN_STR@, Arity::Exactly(1), Arity::Exactly(1), dict_vectorizer_fields(), node.deep_view());
            assert(vals.deep_view()[0] == vals@[0].deep_view());
            assert(vals.deep_view()[1] == vals@[1].deep_view());
        }
        let int64_vocabulary = get_ints(vals[0]);
        let string_vocabulary = get_strings(vals[1]);
        let r = DictVectorizer {
            int64_vocabulary,
            string_vocabulary,
        };
        proof {
            assert(r.values() =~= vals.deep_view());
        }
        match r.check() {
            Err(e) => Err(e),
            Ok(()) => Ok(r),
        }
    }
}

proof fn lemma_dict_vectorizer_fields_distinct()
    ensures
        distinct_names(dict_vectorizer_fields()),
{
    let f = dict_vectorizer_fields();
    reveal_strlit("int64_vocabulary");
    assert(f[0].name@ == "int64_vocabulary"@);
    reveal_strlit("string_vocabulary");
    assert(f[1].name@ == "string_vocabulary"@);
    assert forall|i: int, j: int| 0 <= i < j < f.len() implies #[trigger] f[i].name@
        != #[trigger] f[j].name@ by {
        assert(i == 0 || i == 1);
        assert(j == 0 || j == 1);
    }
}

/// Reading back the node written for a `DictVectorizer` gives the same operator.
#[verifier::spinoff_prover]
#[verifier::rlimit(60)]
pub proof fn lemma_dict_vectorizer_roundtrip(op: DictVectorizer, inputs: Seq<Seq<char>>, outputs: Seq<Seq<char>>)
    requires
        op.spec_to_node(inputs, outputs) is Ok,
    ensures
        DictVectorizer::spec_parse(op.spec_to_node(inputs, outputs)->Ok_0.node) == Ok::<
            Seq<Option<AttributeValueSpec>>,
            OpErrorSpec,
        >(op.values()),
{
    lemma_dict_vectorizer_fields_distinct();
    assert(DictVectorizer::spec_check(op.values()) is None);
    assert(op.spec_to_node(inputs, outputs) == emit_node("DictVectorizer"@, ML_DOMAIN_STR@, Arity::Exactly(1), Arity::Exactly(1), dict_vectorizer_fields(), op.values(), inputs, outputs));
    lemma_node_roundtrip("DictVectorizer"@, ML_DOMAIN_STR@, Arity::Exactly(1), Arity::Exactly(1), dict_vectorizer_fields(), op.values(), inputs, outputs);
    assert(parse_node("DictVectorizer"@, ML_DOMAIN_STR@, Arity::Exactly(1), Arity::Exactly(1), dict_vectorizer_fields(), op.spec_to_node(inputs, outputs)->Ok_0.node) == Ok::<Seq<Option<AttributeValueSpec>>, OpErrorSpec>(op.values()));
}

// ---------------------------------------------------------------------------
// FeatureVectorizer
// ---------------------------------------------------------------------------
/// The attribute schema of `FeatureVectorizer`.
pub open spec fn feature_vectorizer_fields() -> Seq<Field> {
    seq![
        Field { name: "inputdimensions", kind: AttrKind::Ints, required: false },
    ]
}

fn feature_vectorizer_schema() -> (r: [Field; 1])
    ensures
        r@ == feature_vectorizer_fields(),
{
    let r = [
        Field { name: "inputdimensions", kind: AttrKind::Ints, required: false },
    ];
    proof {
        assert(r@ =~= feature_vectorizer_fields());
    }
    r
}

/// `FeatureVectorizer`: concatenates its inputs into one vector.
#[derive(Debug, Clone, PartialEq)]
pub struct FeatureVectorizer {
    pub inputdimensions: Option<Vec<i64>>,
}

impl FeatureVectorizer {
    /// The attribute values, in schema order.
    pub open spec fn values(&self) -> Seq<Option<AttributeValueSpec>> {
        seq![ints_value(self.inputdimensions)]
    }

    /// The node written for this operator, or the first error.
    pub open spec fn spec_to_node(&self, inputs: Seq<Seq<char>>, outputs: Seq<Seq<char>>) -> Result<
        EmittedSpec,
        OpErrorSpec,
    > {
        emit_node("FeatureVectorizer"@, ML_DOMAIN_STR@, Arity::AtLeast(1), Arity::Exactly(1), feature_vectorizer_fields(), self.values(), inputs, outputs)
    }

    /// The attribute values read from a node, or the first error.
    pub open spec fn spec_parse(n: NodeSpec) -> Result<Seq<Option<AttributeValueSpec>>, OpErrorSpec> {
        parse_node("FeatureVectorizer"@, ML_DOMAIN_STR@, Arity::AtLeast(1), Arity::Exactly(1), feature_vectorizer_fields(), n)
    }
}

impl OnnxOp for FeatureVectorizer {
    fn op_type() -> (r: &'static str)
        ensures
            r@ == "FeatureVectorizer"@,
    {
        "FeatureVectorizer"
    }

    fn domain() -> (r: &'static str)
        ensures
            r == ML_DOMAIN_STR,
    {
        ML_DOMAIN_STR
    }

    open spec fn recognizes(node: NodeSpec) -> bool {
        Self::spec_parse(node) is Ok
    }

    open spec fn op_name() -> Seq<char> {
        "FeatureVectorizer"@
    }

    open spec fn emits(&self, inputs: Seq<Seq<char>>, outputs: Seq<Seq<char>>) -> Result<
        EmittedSpec,
        OpErrorSpec,
    > {
        self.spec_to_node(inputs, outputs)
    }

    fn to_node(&self, inputs: Vec<String>, outputs: Vec<String>) -> (r: Result<Emitted, OpError>)
        ensures
            match self.spec_to_node(inputs.deep_view(), outputs.deep_view()) {
                Ok(em) => r matches Ok(x) && x.deep_view() == em,
                Err(e) => r matches Err(x) && x.deep_view() == e,
            },
    {
        let mut vals: Vec<Option<AttributeValue>> = Vec::new();
        vals.push(put_ints(&self.inputdimensions));
        proof {
            assert(vals.deep_view() =~= self.values());
        }
        build_node("FeatureVectorizer", ML_DOMAIN_STR, Arity::AtLeast(1), Arity::Exactly(1), &feature_vectorizer_schema(), vals, inputs, outputs)
    }

    #[verifier::rlimit(60)]
    fn from_node(node: &Node) -> (r: Result<Self, OpError>)
        ensures
            r is Ok <==> Self::recognizes(node.deep_view()),
            match Self::spec_parse(node.deep_view()) {
                Ok(vs) => r matches Ok(x) && x.values() == vs,
                Err(e) => r matches Err(x) && x.deep_view() == e,
            },
    {
        let vals = match read_node("FeatureVectorizer", ML_DOMAIN_STR, Arity::AtLeast(1), Arity::Exactly(1), &feature_vectorizer_schema(), node) {
            Ok(v) => v,
            Err(e) => {
                return Err(e);
            },
        };
        proof {
            lemma_node_well_typed("FeatureVectorizer"@, ML_DOMAIN_STR@, Arity::AtLeast(1), Arity::Exactly(1), feature_vectorizer_fields(), node.deep_view());
            assert(vals.deep_view()[0] == vals@[0].deep_view());
        }
        let inputdimensions = get_ints(vals[0]);
        let r = FeatureVectorizer {
            inputdimensions,
        };
        proof {
            assert(r.values() =~= vals.deep_view());
        }
        Ok(r)
    }
}

proof fn lemma_feature_vectorizer_fields_distinct()
    ensures
        distinct_names(feature_vectorizer_fields()),
{
    let f = feature_vectorizer_fields();
    reveal_strlit("inputdimensions");
    assert(f[0].name@ == "inputdimensions"@);
}

/// Reading back the node written for a `FeatureVectorizer` gives the same operator.
#[verifier::spinoff_prover]
#[verifier::rlimit(60)]
pub proof fn lemma_feature_vectorizer_roundtrip(op: FeatureVectorizer, inputs: Seq<Seq<char>>, outputs: Seq<Seq<char>>)
    requires
        op.spec_to_node(inputs, outputs) is Ok,
    ensures
        FeatureVectorizer::spec_parse(op.spec_to_node(inputs, outputs)->Ok_0.node) == Ok::<
            Seq<Option<AttributeValueSpec>>,
            OpErrorSpec,
        >(op.values()),
{
    lemma_feature_vectorizer_fields_distinct();
    lemma_node_roundtrip("FeatureVectorizer"@, ML_DOMAIN_STR@, Arity::AtLeast(1), Arity::Exactly(1), feature_vectorizer_fields(), op.values(), inputs, outputs);
}

/// Each position of the `Scaler` schema is the attribute named after the
/// field of the operator whose value it holds.
pub proof fn lemma_scaler_slots(op: Scaler)
    ensures
        scaler_fields().len() == 2,
        op.values().len() == 2,
        slot(scaler_fields(), op.values(), 0, "offset"@, floats_value(op.offset)),
        slot(scaler_fields(), op.values(), 1, "scale"@, floats_value(op.scale)),
{
}

/// Each position of the `Imputer` schema is the attribute named after the
/// field of the operator whose value it holds.
pub proof fn lemma_imputer_slots(op: Imputer)
    ensures
        imputer_fields().len() == 4,
        op.values().len() == 4,
        slot(imputer_fields(), op.values(), 0, "imputed_value_floats"@, floats_value(op.imputed_value_floats)),
        slot(imputer_fields(), op.values(), 1, "imputed_value_int64s"@, ints_value(op.imputed_value_int64s)),
        slot(imputer_fields(), op.values(), 2, "replaced_value_float"@, float_value(op.replaced_value_float)),
        slot(imputer_fields(), op.values(), 3, "replaced_value_int64"@, int_value(op.replaced_value_int64)),
{
}

/// Each position of the `Normalizer` schema is the attribute named after the
/// field of the operator whose value it holds.
pub proof fn lemma_normalizer_slots(op: Normalizer)
    ensures
        normalizer_fields().len() == 1,
        op.values().len() == 1,
        slot(normalizer_fields(), op.values(), 0, "norm"@, string_value(op.norm)),
{
}

/// Each position of the `LabelEncoder` schema is the attribute named after the
/// field of the operator whose value it holds.
pub proof fn lemma_label_encoder_slots(op: LabelEncoder)
    ensures
        label_encoder_fields().len() == 12,
        op.values().len() == 12,
        slot(label_encoder_fields(), op.values(), 0, "default_float"@, float_value(op.default_float)),
        slot(label_encoder_fields(), op.values(), 1, "default_int64"@, int_value(op.default_int64)),
        slot(label_encoder_fields(), op.values(), 2, "default_string"@, string_value(op.default_string)),
        slot(label_encoder_fields(), op.values(), 3, "default_tensor"@, tensor_value(op.default_tensor)),
        slot(label_encoder_fields(), op.values(), 4, "keys_floats"@, floats_value(op.keys_floats)),
        slot(label_encoder_fields(), op.values(), 5, "keys_int64s"@, ints_value(op.keys_int64s)),
        slot(label_encoder_fields(), op.values(), 6, "keys_strings"@, strings_value(op.keys_strings)),
        slot(label_encoder_fields(), op.values(), 7, "keys_tensor"@, tensor_value(op.keys_tensor)),
        slot(label_encoder_fields(), op.values(), 8, "values_floats"@, floats_value(op.values_floats)),
        slot(label_encoder_fields(), op.values(), 9, "values_int64s"@, ints_value(op.values_int64s)),
        slot(label_encoder_fields(), op.values(), 10, "values_strings"@, strings_value(op.values_strings)),
        slot(label_encoder_fields(), op.values(), 11, "values_tensor"@, tensor_value(op.values_tensor)),
{
}

/// Each position of the `OneHotEncoder` schema is the attribute named after the
/// field of the operator whose value it holds.
pub proof fn lemma_one_hot_encoder_slots(op: OneHotEncoder)
    ensures
        one_hot_encoder_fields().len() == 3,
        op.values().len() == 3,
        slot(one_hot_encoder_fields(), op.values(), 0, "cats_int64s"@, ints_value(op.cats_int64s)),
        slot(one_hot_encoder_fields(), op.values(), 1, "cats_strings"@, strings_value(op.cats_strings)),
        slot(one_hot_encoder_fields(), op.values(), 2, "zeros"@, int_value(op.zeros)),
{
}

/// Each position of the `DictVectorizer` schema is the attribute named after the
/// field of the operator whose value it holds.
pub proof fn lemma_dict_vectorizer_slots(op: DictVectorizer)
    ensures
        dict_vectorizer_fields().len() == 2,
        op.values().len() == 2,
        slot(dict_vectorizer_fields(), op.values(), 0, "int64_vocabulary"@, ints_value(op.int64_vocabulary)),
        slot(dict_vectorizer_fields(), op.values(), 1, "string_vocabulary"@, strings_value(op.string_vocabulary)),
{
}

/// Each position of the `FeatureVectorizer` schema is the attribute named after the
/// field of the operator whose value it holds.
pub proof fn lemma_feature_vectorizer_slots(op: FeatureVectorizer)
    ensures
        feature_vectorizer_fields().len() == 1,
        op.values().len() == 1,
        slot(feature_vectorizer_fields(), op.values(), 0, "inputdimensions"@, ints_value(op.inputdimensions)),
{
}

} // verus!
