//! ONNX-ML linear models and support vector machines.
use super::preproc::{check_exactly_one, exactly_one_error};
use super::table::{
    build_node, distinct_names, emit_node, floats_value, get_floats, get_int, get_ints, get_string,
    get_strings, int_value, ints_value, lemma_node_roundtrip, lemma_node_well_typed,
    lemma_staged_roundtrip, lemma_staged_well_typed, open_table, parse_node, parse_node_staged,
    put_floats, put_floats_vec, put_int, put_ints, put_string, put_strings, read_node,
    slot, string_value, strings_value, Arity, AttrKind, Field,
};
use super::{Emitted, EmittedSpec, OnnxOp, OpError, OpErrorSpec, ML_DOMAIN_STR};
use crate::ir::{AttributeValue, AttributeValueSpec, Node, NodeSpec};
use vstd::prelude::*;

verus! {

// ---------------------------------------------------------------------------
// Class labels
// ---------------------------------------------------------------------------
/// The schema of a classifier's labels.
pub open spec fn labels_fields() -> Seq<Field> {
    seq![
        Field { name: "classlabels_ints", kind: AttrKind::Ints, required: false },
        Field { name: "classlabels_strings", kind: AttrKind::Strings, required: false },
    ]
}

fn labels_schema() -> (r: [Field; 2])
    ensures
        r@ == labels_fields(),
{
    let r = [
        Field { name: "classlabels_ints", kind: AttrKind::Ints, required: false },
        Field { name: "classlabels_strings", kind: AttrKind::Strings, required: false },
    ];
    proof {
        assert(r@ =~= labels_fields());
    }
    r
}

/// The class labels of a classifier: integers or strings.
#[derive(Debug, Clone, PartialEq)]
pub struct ClassLabels {
    pub ints: Option<Vec<i64>>,
    pub strings: Option<Vec<String>>,
}

impl ClassLabels {
    /// The attribute values, in schema order.
    pub open spec fn values(&self) -> Seq<Option<AttributeValueSpec>> {
        seq![ints_value(self.ints), strings_value(self.strings)]
    }

    /// Exactly one of the two label lists must be set.
    pub open spec fn spec_check(op: Seq<char>, vs: Seq<Option<AttributeValueSpec>>) -> Option<
        OpErrorSpec,
    > {
        exactly_one_error(
            op,
            vs[0] is Some,
            vs[1] is Some,
            "classlabels_*"@,
            "exactly one of classlabels_ints and classlabels_strings must be set"@,
        )
    }

    fn check(&self, op: &'static str) -> (r: Result<(), OpError>)
        ensures
            match Self::spec_check(op@, self.values()) {
                Some(e) => r matches Err(x) && x.deep_view() == e,
                None => r is Ok,
            },
    {
        check_exactly_one(
            op,
            self.ints.is_some(),
            self.strings.is_some(),
            "classlabels_*",
            "exactly one of classlabels_ints and classlabels_strings must be set",
        )
    }

    fn put(&self, vals: &mut Vec<Option<AttributeValue>>)
        ensures
            final(vals).deep_view() == old(vals).deep_view() + self.values(),
    {
        let ghost before = vals.deep_view();
        vals.push(put_ints(&self.ints));
        vals.push(put_strings(&self.strings));
        proof {
            assert(vals.deep_view() =~= before + self.values());
        }
    }

    fn read(a: Option<&AttributeValue>, b: Option<&AttributeValue>) -> (r: Self)
        requires
            a matches Some(x) ==> x.deep_view() is Ints,
            b matches Some(x) ==> x.deep_view() is Strings,
        ensures
            r.values() == seq![a.deep_view(), b.deep_view()],
    {
        let r = ClassLabels { ints: get_ints(a), strings: get_strings(b) };
        proof {
            assert(r.values() =~= seq![a.deep_view(), b.deep_view()]);
        }
        r
    }
}

// ---------------------------------------------------------------------------
// LinearClassifier
// ---------------------------------------------------------------------------
/// The schema of a linear classifier after its labels.
pub open spec fn linear_classifier_rest() -> Seq<Field> {
    seq![
        Field { name: "coefficients", kind: AttrKind::Floats, required: true },
        Field { name: "intercepts", kind: AttrKind::Floats, required: false },
        Field { name: "multi_class", kind: AttrKind::Int, required: false },
        Field { name: "post_transform", kind: AttrKind::Str, required: false },
    ]
}

fn linear_classifier_rest_schema() -> (r: [Field; 4])
    ensures
        r@ == linear_classifier_rest(),
{
    let r = [
        Field { name: "coefficients", kind: AttrKind::Floats, required: true },
        Field { name: "intercepts", kind: AttrKind::Floats, required: false },
        Field { name: "multi_class", kind: AttrKind::Int, required: false },
        Field { name: "post_transform", kind: AttrKind::Str, required: false },
    ];
    proof {
        assert(r@ =~= linear_classifier_rest());
    }
    r
}

/// `LinearClassifier`: a linear classifier. Coefficients are IEEE-754 bit
/// patterns.
#[derive(Debug, Clone, PartialEq)]
pub struct LinearClassifier {
    pub classlabels: ClassLabels,
    pub coefficients: Vec<u32>,
    pub intercepts: Option<Vec<u32>>,
    pub multi_class: Option<i64>,
    pub post_transform: Option<String>,
}

impl LinearClassifier {
    /// The attribute values, in schema order.
    pub open spec fn values(&self) -> Seq<Option<AttributeValueSpec>> {
        self.classlabels.values() + seq![
            Some(AttributeValueSpec::Floats(self.coefficients@)),
            floats_value(self.intercepts),
            int_value(self.multi_class),
            string_value(self.post_transform),
        ]
    }

    /// The labels must be valid and the coefficients non-empty.
    pub open spec fn spec_check(vs: Seq<Option<AttributeValueSpec>>) -> Option<OpErrorSpec> {
        match ClassLabels::spec_check("LinearClassifier"@, vs) {
            Some(e) => Some(e),
            None => if vs[2] matches Some(AttributeValueSpec::Floats(c)) && c.len() == 0 {
                Some(
                    OpErrorSpec::MissingAttribute {
                        op: "LinearClassifier"@,
                        attr: "coefficients"@,
                    },
                )
            } else {
                None
            },
        }
    }

    /// The node written for this classifier, or the first error.
    pub open spec fn spec_to_node(&self, inputs: Seq<Seq<char>>, outputs: Seq<Seq<char>>) -> Result<
        EmittedSpec,
        OpErrorSpec,
    > {
        match Self::spec_check(self.values()) {
            Some(e) => Err(e),
            None => emit_node(
                "LinearClassifier"@,
                ML_DOMAIN_STR@,
                Arity::Exactly(1),
                Arity::Exactly(2),
                labels_fields() + linear_classifier_rest(),
                self.values(),
                inputs,
                outputs,
            ),
        }
    }

    /// The attribute values read from a node, or the first error.
    pub open spec fn spec_parse(n: NodeSpec) -> Result<Seq<Option<AttributeValueSpec>>, OpErrorSpec> {
        match parse_node_staged(
            "LinearClassifier"@,
            ML_DOMAIN_STR@,
            Arity::Exactly(1),
            Arity::Exactly(2),
            labels_fields(),
            |v: Seq<Option<AttributeValueSpec>>| ClassLabels::spec_check("LinearClassifier"@, v),
            linear_classifier_rest(),
            n,
        ) {
            Err(e) => Err(e),
            Ok(vs) => match Self::spec_check(vs) {
                Some(e) => Err(e),
                None => Ok(vs),
            },
        }
    }

    fn check(&self) -> (r: Result<(), OpError>)
        ensures
            match Self::spec_check(self.values()) {
                Some(e) => r matches Err(x) && x.deep_view() == e,
                None => r is Ok,
            },
    {
        match self.classlabels.check("LinearClassifier") {
            Err(e) => {
                return Err(e);
            },
            Ok(()) => {},
        }
        if self.coefficients.len() == 0 {
            return Err(OpError::MissingAttribute { op: "LinearClassifier", attr: "coefficients" });
        }
        Ok(())
    }

    /// A classifier with integer labels and the given coefficients, refused
    /// when there are no coefficients.
    pub fn with_int_labels(labels: Vec<i64>, coefficients: Vec<u32>) -> (r: Result<Self, OpError>)
        ensures
            coefficients@.len() > 0 ==> (r matches Ok(c) && c.values() == seq![
                Some(AttributeValueSpec::Ints(labels@)),
                None,
                Some(AttributeValueSpec::Floats(coefficients@)),
                None,
                None,
                None,
            ]),
            coefficients@.len() == 0 ==> (r matches Err(x) && x.deep_view() == (
            OpErrorSpec::MissingAttribute { op: "LinearClassifier"@, attr: "coefficients"@ })),
    {
        let classifier = LinearClassifier {
            classlabels: ClassLabels { ints: Some(labels), strings: None },
            coefficients,
            intercepts: None,
            multi_class: None,
            post_transform: None,
        };
        proof {
            assert(classifier.values() =~= seq![
                Some(AttributeValueSpec::Ints(labels@)),
                None,
                Some(AttributeValueSpec::Floats(coefficients@)),
                None,
                None,
                None,
            ]);
        }
        match classifier.check() {
            Err(e) => Err(e),
            Ok(()) => Ok(classifier),
        }
    }

    /// A classifier with string labels and the given coefficients, refused
    /// when there are no coefficients.
    pub fn with_string_labels(labels: Vec<String>, coefficients: Vec<u32>) -> (r: Result<
        Self,
        OpError,
    >)
        ensures
            coefficients@.len() > 0 ==> (r matches Ok(c) && c.values() == seq![
                None,
                Some(AttributeValueSpec::Strings(labels.deep_view())),
                Some(AttributeValueSpec::Floats(coefficients@)),
                None,
                None,
                None,
            ]),
            coefficients@.len() == 0 ==> (r matches Err(x) && x.deep_view() == (
            OpErrorSpec::MissingAttribute { op: "LinearClassifier"@, attr: "coefficients"@ })),
    {
        let ghost lv = labels.deep_view();
        let classifier = LinearClassifier {
            classlabels: ClassLabels { ints: None, strings: Some(labels) },
            coefficients,
            intercepts: None,
            multi_class: None,
            post_transform: None,
        };
        proof {
            assert(classifier.values() =~= seq![
                None,
                Some(AttributeValueSpec::Strings(lv)),
                Some(AttributeValueSpec::Floats(coefficients@)),
                None,
                None,
                None,
            ]);
        }
        match classifier.check() {
            Err(e) => Err(e),
            Ok(()) => Ok(classifier),
        }
    }
}

impl OnnxOp for LinearClassifier {
    fn op_type() -> (r: &'static str)
        ensures
            r@ == "LinearClassifier"@,
    {
        "LinearClassifier"
    }

    fn domain() -> (r: &'static str)
        ensures
            r == ML_DOMAIN_STR,
    {
        ML_DOMAIN_STR
    }

    open spec fn recognizes(node: NodeSpec) -> bool {
        Self::spec_parse(node) is Ok
    }

    open spec fn op_name() -> Seq<char> {
        "LinearClassifier"@
    }

    open spec fn emits(&self, inputs: Seq<Seq<char>>, outputs: Seq<Seq<char>>) -> Result<
        EmittedSpec,
        OpErrorSpec,
    > {
        self.spec_to_node(inputs, outputs)
    }

    fn to_node(&self, inputs: Vec<String>, outputs: Vec<String>) -> (r: Result<Emitted, OpError>)
        ensures
            match self.spec_to_node(inputs.deep_view(), outputs.deep_view()) {
                Ok(em) => r matches Ok(x) && x.deep_view() == em,
                Err(e) => r matches Err(x) && x.deep_view() == e,
            },
    {
        match self.check() {
            Err(e) => {
                return Err(e);
            },
            Ok(()) => {},
        }
        let mut vals: Vec<Option<AttributeValue>> = Vec::new();
        proof {
            assert(vals.deep_view() =~= Seq::<Option<AttributeValueSpec>>::empty());
        }
        self.classlabels.put(&mut vals);
        proof {
            assert(vals.deep_view() =~= self.classlabels.values());
        }
        vals.push(put_floats_vec(&self.coefficients));
        vals.push(put_floats(&self.intercepts));
        vals.push(put_int(self.multi_class));
        vals.push(put_string(&self.post_transform));
        proof {
            assert(vals.deep_view() =~= self.values());
        }
        let l = labels_schema();
        let rest = linear_classifier_rest_schema();
        let fields = [l[0], l[1], rest[0], rest[1], rest[2], rest[3]];
        proof {
            assert(fields@ =~= labels_fields() + linear_classifier_rest());
        }
        build_node(
            "LinearClassifier",
            ML_DOMAIN_STR,
            Arity::Exactly(1),
            Arity::Exactly(2),
            &fields,
            vals,
            inputs,
            outputs,
        )
    }

    #[verifier::rlimit(50)]
    fn from_node(node: &Node) -> (r: Result<Self, OpError>)
        ensures
            r is Ok <==> Self::recognizes(node.deep_view()),
            match Self::spec_parse(node.deep_view()) {
                Ok(vs) => r matches Ok(x) && x.values() == vs,
                Err(e) => r matches Err(x) && x.deep_view() == e,
            },
    {
        let ghost n = node.deep_view();
        let ghost check = |v: Seq<Option<AttributeValueSpec>>|
            ClassLabels::spec_check("LinearClassifier"@, v);
        let mut table = match open_table(
            "LinearClassifier",
            ML_DOMAIN_STR,
            Arity::Exactly(1),
            Arity::Exactly(2),
            node,
        ) {
            Ok(t) => t,
            Err(e) => {
                return Err(e);
            },
        };
        let v1 = match table.fields(&labels_schema()) {
            Ok(v) => v,
            Err(e) => {
                return Err(e);
            },
        };
        proof {
            super::table::lemma_parsed_well_typed("LinearClassifier"@, n.attributes, labels_fields());
            assert(v1.deep_view()[0] == v1@[0].deep_view());
            assert(v1.deep_view()[1] == v1@[1].deep_view());
        }
        let classlabels = ClassLabels::read(v1[0], v1[1]);
        match classlabels.check("LinearClassifier") {
            Err(e) => {
                return Err(e);
            },
            Ok(()) => {},
        }
        let ghost t1 = table.entries.deep_view();
        let v2 = match table.fields(&linear_classifier_rest_schema()) {
            Ok(v) => v,
            Err(e) => {
                return Err(e);
            },
        };
        proof {
            super::table::lemma_parsed_well_typed("LinearClassifier"@, t1, linear_classifier_rest());
            assert(v2.deep_view()[0] == v2@[0].deep_view());
            assert(v2.deep_view()[1] == v2@[1].deep_view());
            assert(v2.deep_view()[2] == v2@[2].deep_view());
            assert(v2.deep_view()[3] == v2@[3].deep_view());
        }
        match table.finish() {
            Err(e) => {
                return Err(e);
            },
            Ok(()) => {},
        }
        let coefficients = match get_floats(v2[0]) {
            Some(x) => x,
            None => {
                return Err(OpError::MissingAttribute { op: "LinearClassifier", attr: "coefficients" });
            },
        };
        let r = LinearClassifier {
            classlabels,
            coefficients,
            intercepts: get_floats(v2[1]),
            multi_class: get_int(v2[2]),
            post_transform: get_string(v2[3]),
        };
        proof {
            assert(r.values() =~= v1.deep_view() + v2.deep_view());
        }
        match r.check() {
            Err(e) => Err(e),
            Ok(()) => Ok(r),
        }
    }
}

/// Reading back the node written for a linear classifier gives the same
/// classifier.
#[verifier::spinoff_prover]
pub proof fn lemma_linear_classifier_roundtrip(
    op: LinearClassifier,
    inputs: Seq<Seq<char>>,
    outputs: Seq<Seq<char>>,
)
    requires
        op.spec_to_node(inputs, outputs) is Ok,
    ensures
        LinearClassifier::spec_parse(op.spec_to_node(inputs, outputs)->Ok_0.node) == Ok::<
            Seq<Option<AttributeValueSpec>>,
            OpErrorSpec,
        >(op.values()),
{
    let v1 = op.classlabels.values();
    let v2 = seq![
        Some(AttributeValueSpec::Floats(op.coefficients@)),
        floats_value(op.intercepts),
        int_value(op.multi_class),
        string_value(op.post_transform),
    ];
    let check = |v: Seq<Option<AttributeValueSpec>>|
        ClassLabels::spec_check("LinearClassifier"@, v);
    lemma_linear_classifier_fields_distinct();
    assert(LinearClassifier::spec_check(op.values()) is None);
    assert(ClassLabels::spec_check("LinearClassifier"@, op.values()) is None);
    assert(check(v1) is None);
    lemma_staged_roundtrip(
        "LinearClassifier"@,
        ML_DOMAIN_STR@,
        Arity::Exactly(1),
        Arity::Exactly(2),
        labels_fields(),
        check,
        linear_classifier_rest(),
        v1,
        v2,
        inputs,
        outputs,
    );
}

// ---------------------------------------------------------------------------
// LinearRegressor
// ---------------------------------------------------------------------------
/// The attribute schema of `LinearRegressor`.
pub open spec fn linear_regressor_fields() -> Seq<Field> {
    seq![
        Field { name: "coefficients", kind: AttrKind::Floats, required: true },
        Field { name: "intercepts", kind: AttrKind::Floats, required: false },
        Field { name: "post_transform", kind: AttrKind::Str, required: false },
        Field { name: "targets", kind: AttrKind::Int, required: false },
    ]
}

fn linear_regressor_schema() -> (r: [Field; 4])
    ensures
        r@ == linear_regressor_fields(),
{
    let r = [
        Field { name: "coefficients", kind: AttrKind::Floats, required: true },
        Field { name: "intercepts", kind: AttrKind::Floats, required: false },
        Field { name: "post_transform", kind: AttrKind::Str, required: false },
        Field { name: "targets", kind: AttrKind::Int, required: false },
    ];
    proof {
        assert(r@ =~= linear_regressor_fields());
    }
    r
}

/// `LinearRegressor`: a linear regression. Coefficients are IEEE-754 bit
/// patterns.
#[derive(Debug, Clone, PartialEq)]
pub struct LinearRegressor {
    pub coefficients: Vec<u32>,
    pub intercepts: Option<Vec<u32>>,
    pub post_transform: Option<String>,
    pub targets: Option<i64>,
}

impl LinearRegressor {
    /// The attribute values, in schema order.
    pub open spec fn values(&self) -> Seq<Option<AttributeValueSpec>> {
        seq![
            Some(AttributeValueSpec::Floats(self.coefficients@)),
            floats_value(self.intercepts),
            string_value(self.post_transform),
            int_value(self.targets),
        ]
    }

    /// The node written for this regressor, or the first error: no
    /// coefficients, then the counts.
    pub open spec fn spec_to_node(&self, inputs: Seq<Seq<char>>, outputs: Seq<Seq<char>>) -> Result<
        EmittedSpec,
        OpErrorSpec,
    > {
        if self.coefficients@.len() == 0 {
            Err(OpErrorSpec::MissingAttribute { op: "LinearRegressor"@, attr: "coefficients"@ })
        } else {
            emit_node(
                "LinearRegressor"@,
                ML_DOMAIN_STR@,
                Arity::Exactly(1),
                Arity::Exactly(1),
                linear_regressor_fields(),
                self.values(),
                inputs,
                outputs,
            )
        }
    }

    /// The attribute values read from a node, or the first error.
    pub open spec fn spec_parse(n: NodeSpec) -> Result<Seq<Option<AttributeValueSpec>>, OpErrorSpec> {
        parse_node(
            "LinearRegressor"@,
            ML_DOMAIN_STR@,
            Arity::Exactly(1),
            Arity::Exactly(1),
            linear_regressor_fields(),
            n,
        )
    }
}

impl OnnxOp for LinearRegressor {
    fn op_type() -> (r: &'static str)
        ensures
            r@ == "LinearRegressor"@,
    {
        "LinearRegressor"
    }

    fn domain() -> (r: &'static str)
        ensures
            r == ML_DOMAIN_STR,
    {
        ML_DOMAIN_STR
    }

    open spec fn recognizes(node: NodeSpec) -> bool {
        Self::spec_parse(node) is Ok
    }

    open spec fn op_name() -> Seq<char> {
        "LinearRegressor"@
    }

    open spec fn emits(&self, inputs: Seq<Seq<char>>, outputs: Seq<Seq<char>>) -> Result<
        EmittedSpec,
        OpErrorSpec,
    > {
        self.spec_to_node(inputs, outputs)
    }

    fn to_node(&self, inputs: Vec<String>, outputs: Vec<String>) -> (r: Result<Emitted, OpError>)
        ensures
            match self.spec_to_node(inputs.deep_view(), outputs.deep_view()) {
                Ok(em) => r matches Ok(x) && x.deep_view() == em,
                Err(e) => r matches Err(x) && x.deep_view() == e,
            },
    {
        if self.coefficients.len() == 0 {
            return Err(OpError::MissingAttribute { op: "LinearRegressor", attr: "coefficients" });
        }
        let mut vals: Vec<Option<AttributeValue>> = Vec::new();
        vals.push(put_floats_vec(&self.coefficients));
        vals.push(put_floats(&self.intercepts));
        vals.push(put_string(&self.post_transform));
        vals.push(put_int(self.targets));
        proof {
            assert(vals.deep_view() =~= self.values());
        }
        build_node(
            "LinearRegressor",
            ML_DOMAIN_STR,
            Arity::Exactly(1),
            Arity::Exactly(1),
            &linear_regressor_schema(),
            vals,
            inputs,
            outputs,
        )
    }

    #[verifier::rlimit(50)]
    fn from_node(node: &Node) -> (r: Result<Self, OpError>)
        ensures
            r is Ok <==> Self::recognizes(node.deep_view()),
            match Self::spec_parse(node.deep_view()) {
                Ok(vs) => r matches Ok(x) && x.values() == vs,
                Err(e) => r matches Err(x) && x.deep_view() == e,
            },
    {
        let vals = match read_node(
            "LinearRegressor",
            ML_DOMAIN_STR,
            Arity::Exactly(1),
            Arity::Exactly(1),
            &linear_regressor_schema(),
            node,
        ) {
            Ok(v) => v,
            Err(e) => {
                return Err(e);
            },
        };
        proof {
            lemma_node_well_typed(
                "LinearRegressor"@,
                ML_DOMAIN_STR@,
                Arity::Exactly(1),
                Arity::Exactly(1),
                linear_regressor_fields(),
                node.deep_view(),
            );
            assert(vals.deep_view()[0] == vals@[0].deep_view());
            assert(vals.deep_view()[1] == vals@[1].deep_view());
            assert(vals.deep_view()[2] == vals@[2].deep_view());
            assert(vals.deep_view()[3] == vals@[3].deep_view());
        }
        let coefficients = match get_floats(vals[0]) {
            Some(x) => x,
            None => {
                return Err(OpError::MissingAttribute { op: "LinearRegressor", attr: "coefficients" });
            },
        };
        let r = LinearRegressor {
            coefficients,
            intercepts: get_floats(vals[1]),
            post_transform: get_string(vals[2]),
            targets: get_int(vals[3]),
        };
        proof {
            assert(r.values() =~= vals.deep_view());
        }
        Ok(r)
    }
}

/// Reading back the node written for a linear regressor gives the same
/// regressor.
#[verifier::spinoff_prover]
pub proof fn lemma_linear_regressor_roundtrip(
    op: LinearRegressor,
    inputs: Seq<Seq<char>>,
    outputs: Seq<Seq<char>>,
)
    requires
        op.spec_to_node(inputs, outputs) is Ok,
    ensures
        LinearRegressor::spec_parse(op.spec_to_node(inputs, outputs)->Ok_0.node) == Ok::<
            Seq<Option<AttributeValueSpec>>,
            OpErrorSpec,
        >(op.values()),
{
    lemma_linear_regressor_fields_distinct();
    assert(op.spec_to_node(inputs, outputs) == emit_node(
        "LinearRegressor"@,
        ML_DOMAIN_STR@,
        Arity::Exactly(1),
        Arity::Exactly(1),
        linear_regressor_fields(),
        op.values(),
        inputs,
        outputs,
    ));
    lemma_node_roundtrip(
        "LinearRegressor"@,
        ML_DOMAIN_STR@,
        Arity::Exactly(1),
        Arity::Exactly(1),
        linear_regressor_fields(),
        op.values(),
        inputs,
        outputs,
    );
}

// ---------------------------------------------------------------------------
// Support vector machines
// ---------------------------------------------------------------------------
/// The schema of the settings that SVM classifiers and regressors share.
pub open spec fn svm_common_fields() -> Seq<Field> {
    seq![
        Field { name: "coefficients", kind: AttrKind::Floats, required: false },
        Field { name: "kernel_params", kind: AttrKind::Floats, required: false },
        Field { name: "kernel_type", kind: AttrKind::Str, required: false },
        Field { name: "post_transform", kind: AttrKind::Str, required: false },
        Field { name: "prob_a", kind: AttrKind::Floats, required: false },
        Field { name: "prob_b", kind: AttrKind::Floats, required: false },
        Field { name: "rho", kind: AttrKind::Floats, required: false },
        Field { name: "support_vectors", kind: AttrKind::Floats, required: false },
    ]
}

fn svm_common_schema() -> (r: [Field; 8])
    ensures
        r@ == svm_common_fields(),
{
    let r = [
        Field { name: "coefficients", kind: AttrKind::Floats, required: false },
        Field { name: "kernel_params", kind: AttrKind::Floats, required: false },
        Field { name: "kernel_type", kind: AttrKind::Str, required: false },
        Field { name: "post_transform", kind: AttrKind::Str, required: false },
        Field { name: "prob_a", kind: AttrKind::Floats, required: false },
        Field { name: "prob_b", kind: AttrKind::Floats, required: false },
        Field { name: "rho", kind: AttrKind::Floats, required: false },
        Field { name: "support_vectors", kind: AttrKind::Floats, required: false },
    ];
    proof {
        assert(r@ =~= svm_common_fields());
    }
    r
}

/// The settings that SVM classifiers and regressors share. Numbers are
/// IEEE-754 bit patterns.
#[derive(Debug, Clone, PartialEq)]
pub struct SvmCommon {
    pub coefficients: Option<Vec<u32>>,
    pub kernel_params: Option<Vec<u32>>,
    pub kernel_type: Option<String>,
    pub post_transform: Option<String>,
    pub prob_a: Option<Vec<u32>>,
    pub prob_b: Option<Vec<u32>>,
    pub rho: Option<Vec<u32>>,
    pub support_vectors: Option<Vec<u32>>,
}

impl SvmCommon {
    /// The attribute values, in schema order.
    pub open spec fn values(&self) -> Seq<Option<AttributeValueSpec>> {
        seq![
            floats_value(self.coefficients),
            floats_value(self.kernel_params),
            string_value(self.kernel_type),
            string_value(self.post_transform),
            floats_value(self.prob_a),
            floats_value(self.prob_b),
            floats_value(self.rho),
            floats_value(self.support_vectors),
        ]
    }

    fn put(&self, vals: &mut Vec<Option<AttributeValue>>)
        ensures
            final(vals).deep_view() == old(vals).deep_view() + self.values(),
    {
        let ghost before = vals.deep_view();
        vals.push(put_floats(&self.coefficients));
        vals.push(put_floats(&self.kernel_params));
        vals.push(put_string(&self.kernel_type));
        vals.push(put_string(&self.post_transform));
        vals.push(put_floats(&self.prob_a));
        vals.push(put_floats(&self.prob_b));
        vals.push(put_floats(&self.rho));
        vals.push(put_floats(&self.support_vectors));
        proof {
            assert(vals.deep_view() =~= before + self.values());
        }
    }

    /// The shared settings read from the first eight values.
    fn read(vals: &Vec<Option<&AttributeValue>>) -> (r: Self)
        requires
            8 <= vals@.len(),
            well_typed_at(svm_common_fields(), vals.deep_view(), 0),
        ensures
            r.values() == vals.deep_view().subrange(0, 8),
    {
        let ghost d = vals.deep_view();
        proof {
            let f = svm_common_fields();
            assert(d[0] == vals@[0].deep_view() && d[0int + 0] == d[0]);
            assert(d[1] == vals@[1].deep_view() && d[0int + 1] == d[1]);
            assert(d[2] == vals@[2].deep_view() && d[0int + 2] == d[2]);
            assert(d[3] == vals@[3].deep_view() && d[0int + 3] == d[3]);
            assert(d[4] == vals@[4].deep_view() && d[0int + 4] == d[4]);
            assert(d[5] == vals@[5].deep_view() && d[0int + 5] == d[5]);
            assert(d[6] == vals@[6].deep_view() && d[0int + 6] == d[6]);
            assert(d[7] == vals@[7].deep_view() && d[0int + 7] == d[7]);
            assert(f[0].kind == AttrKind::Floats && f[1].kind == AttrKind::Floats);
            assert(f[2].kind == AttrKind::Str && f[3].kind == AttrKind::Str);
            assert(f[4].kind == AttrKind::Floats && f[5].kind == AttrKind::Floats);
            assert(f[6].kind == AttrKind::Floats && f[7].kind == AttrKind::Floats);
        }
        let r = SvmCommon {
            coefficients: get_floats(vals[0]),
            kernel_params: get_floats(vals[1]),
            kernel_type: get_string(vals[2]),
            post_transform: get_string(vals[3]),
            prob_a: get_floats(vals[4]),
            prob_b: get_floats(vals[5]),
            rho: get_floats(vals[6]),
            support_vectors: get_floats(vals[7]),
        };
        proof {
            assert(r.values() =~= d.subrange(0, 8));
        }
        r
    }
}

/// Whether the values at positions `at..` have the kinds of a schema's
/// fields, or are absent.
pub open spec fn well_typed_at(
    fields: Seq<Field>,
    vals: Seq<Option<AttributeValueSpec>>,
    at: int,
) -> bool {
    forall|k: int|
        0 <= k < fields.len() ==> match #[trigger] vals[at + k] {
            Some(v) => super::table::kind_matches(v, fields[k].kind),
            None => true,
        }
}

// ---------------------------------------------------------------------------
// SVMClassifier
// ---------------------------------------------------------------------------
/// The schema of an SVM classifier after its labels.
pub open spec fn svm_classifier_rest() -> Seq<Field> {
    seq![
        Field { name: "coefficients", kind: AttrKind::Floats, required: false },
        Field { name: "kernel_params", kind: AttrKind::Floats, required: false },
        Field { name: "kernel_type", kind: AttrKind::Str, required: false },
        Field { name: "post_transform", kind: AttrKind::Str, required: false },
        Field { name: "prob_a", kind: AttrKind::Floats, required: false },
        Field { name: "prob_b", kind: AttrKind::Floats, required: false },
        Field { name: "rho", kind: AttrKind::Floats, required: false },
        Field { name: "support_vectors", kind: AttrKind::Floats, required: false },
        Field { name: "vectors_per_class", kind: AttrKind::Ints, required: false },
    ]
}

fn svm_classifier_rest_schema() -> (r: [Field; 9])
    ensures
        r@ == svm_classifier_rest(),
{
    let c = svm_common_schema();
    let r = [
        c[0],
        c[1],
        c[2],
        c[3],
        c[4],
        c[5],
        c[6],
        c[7],
        Field { name: "vectors_per_class", kind: AttrKind::Ints, required: false },
    ];
    proof {
        assert(r@ =~= svm_classifier_rest());
    }
    r
}

/// `SVMClassifier`: a support vector classifier.
#[derive(Debug, Clone, PartialEq)]
pub struct SvmClassifier {
    pub classlabels: ClassLabels,
    pub common: SvmCommon,
    pub vectors_per_class: Option<Vec<i64>>,
}

impl SvmClassifier {
    /// The attribute values, in schema order.
    pub open spec fn values(&self) -> Seq<Option<AttributeValueSpec>> {
        self.classlabels.values() + self.rest_values()
    }

    /// The attribute values after the labels, in schema order.
    pub open spec fn rest_values(&self) -> Seq<Option<AttributeValueSpec>> {
        seq![
            floats_value(self.common.coefficients),
            floats_value(self.common.kernel_params),
            string_value(self.common.kernel_type),
            string_value(self.common.post_transform),
            floats_value(self.common.prob_a),
            floats_value(self.common.prob_b),
            floats_value(self.common.rho),
            floats_value(self.common.support_vectors),
            ints_value(self.vectors_per_class),
        ]
    }

    /// The node written for this classifier, or the first error.
    pub open spec fn spec_to_node(&self, inputs: Seq<Seq<char>>, outputs: Seq<Seq<char>>) -> Result<
        EmittedSpec,
        OpErrorSpec,
    > {
        match ClassLabels::spec_check("SVMClassifier"@, self.values()) {
            Some(e) => Err(e),
            None => emit_node(
                "SVMClassifier"@,
                ML_DOMAIN_STR@,
                Arity::Exactly(1),
                Arity::Exactly(2),
                labels_fields() + svm_classifier_rest(),
                self.values(),
                inputs,
                outputs,
            ),
        }
    }

    /// The attribute values read from a node, or the first error.
    pub open spec fn spec_parse(n: NodeSpec) -> Result<Seq<Option<AttributeValueSpec>>, OpErrorSpec> {
        parse_node_staged(
            "SVMClassifier"@,
            ML_DOMAIN_STR@,
            Arity::Exactly(1),
            Arity::Exactly(2),
            labels_fields(),
            |v: Seq<Option<AttributeValueSpec>>| ClassLabels::spec_check("SVMClassifier"@, v),
            svm_classifier_rest(),
            n,
        )
    }
}

impl OnnxOp for SvmClassifier {
    fn op_type() -> (r: &'static str)
        ensures
            r@ == "SVMClassifier"@,
    {
        "SVMClassifier"
    }

    fn domain() -> (r: &'static str)
        ensures
            r == ML_DOMAIN_STR,
    {
        ML_DOMAIN_STR
    }

    open spec fn recognizes(node: NodeSpec) -> bool {
        Self::spec_parse(node) is Ok
    }

    open spec fn op_name() -> Seq<char> {
        "SVMClassifier"@
    }

    open spec fn emits(&self, inputs: Seq<Seq<char>>, outputs: Seq<Seq<char>>) -> Result<
        EmittedSpec,
        OpErrorSpec,
    > {
        self.spec_to_node(inputs, outputs)
    }

    fn to_node(&self, inputs: Vec<String>, outputs: Vec<String>) -> (r: Result<Emitted, OpError>)
        ensures
            match self.spec_to_node(inputs.deep_view(), outputs.deep_view()) {
                Ok(em) => r matches Ok(x) && x.deep_view() == em,
                Err(e) => r matches Err(x) && x.deep_view() == e,
            },
    {
        match self.classlabels.check("SVMClassifier") {
            Err(e) => {
                return Err(e);
            },
            Ok(()) => {},
        }
        let mut vals: Vec<Option<AttributeValue>> = Vec::new();
        proof {
            assert(vals.deep_view() =~= Seq::<Option<AttributeValueSpec>>::empty());
        }
        self.classlabels.put(&mut vals);
        proof {
            assert(vals.deep_view() =~= self.classlabels.values());
        }
        self.common.put(&mut vals);
        let ghost mid = vals.deep_view();
        proof {
            assert(mid =~= self.classlabels.values() + self.common.values());
        }
        vals.push(put_ints(&self.vectors_per_class));
        proof {
            assert(vals.deep_view() =~= mid.push(ints_value(self.vectors_per_class)));
            assert(self.common.values().push(ints_value(self.vectors_per_class)) =~= self.rest_values());
            assert(vals.deep_view() =~= self.values());
        }
        let l = labels_schema();
        let rest = svm_classifier_rest_schema();
        let fields = [
            l[0],
            l[1],
            rest[0],
            rest[1],
            rest[2],
            rest[3],
            rest[4],
            rest[5],
            rest[6],
            rest[7],
            rest[8],
        ];
        proof {
            assert(fields@ =~= labels_fields() + svm_classifier_rest());
        }
        build_node(
            "SVMClassifier",
            ML_DOMAIN_STR,
            Arity::Exactly(1),
            Arity::Exactly(2),
            &fields,
            vals,
            inputs,
            outputs,
        )
    }

    #[verifier::rlimit(50)]
    fn from_node(node: &Node) -> (r: Result<Self, OpError>)
        ensures
            r is Ok <==> Self::recognizes(node.deep_view()),
            match Self::spec_parse(node.deep_view()) {
                Ok(vs) => r matches Ok(x) && x.values() == vs,
                Err(e) => r matches Err(x) && x.deep_view() == e,
            },
    {
        let ghost n = node.deep_view();
        let mut table = match open_table(
            "SVMClassifier",
            ML_DOMAIN_STR,
            Arity::Exactly(1),
            Arity::Exactly(2),
            node,
        ) {
            Ok(t) => t,
            Err(e) => {
                return Err(e);
            },
        };
        let v1 = match table.fields(&labels_schema()) {
            Ok(v) => v,
            Err(e) => {
                return Err(e);
            },
        };
        proof {
            super::table::lemma_parsed_well_typed("SVMClassifier"@, n.attributes, labels_fields());
            assert(v1.deep_view()[0] == v1@[0].deep_view());
            assert(v1.deep_view()[1] == v1@[1].deep_view());
        }
        let classlabels = ClassLabels::read(v1[0], v1[1]);
        match classlabels.check("SVMClassifier") {
            Err(e) => {
                return Err(e);
            },
            Ok(()) => {},
        }
        let ghost t1 = table.entries.deep_view();
        let v2 = match table.fields(&svm_classifier_rest_schema()) {
            Ok(v) => v,
            Err(e) => {
                return Err(e);
            },
        };
        proof {
            super::table::lemma_parsed_well_typed("SVMClassifier"@, t1, svm_classifier_rest());
            assert(well_typed_at(svm_common_fields(), v2.deep_view(), 0)) by {
                assert forall|k: int| 0 <= k < svm_common_fields().len() implies match #[trigger] v2.deep_view()[0 + k] {
                    Some(v) => super::table::kind_matches(v, svm_common_fields()[k].kind),
                    None => true,
                } by {
                    assert(svm_classifier_rest()[k] == svm_common_fields()[k]);
                }
            }
            assert(v2.deep_view()[8] == v2@[8].deep_view());
        }
        match table.finish() {
            Err(e) => {
                return Err(e);
            },
            Ok(()) => {},
        }
        let common = SvmCommon::read(&v2);
        let r = SvmClassifier { classlabels, common, vectors_per_class: get_ints(v2[8]) };
        proof {
            assert(r.values() =~= v1.deep_view() + v2.deep_view());
        }
        Ok(r)
    }
}

/// Reading back the node written for an SVM classifier gives the same
/// classifier.
#[verifier::spinoff_prover]
#[verifier::rlimit(60)]
pub proof fn lemma_svm_classifier_roundtrip(
    op: SvmClassifier,
    inputs: Seq<Seq<char>>,
    outputs: Seq<Seq<char>>,
)
    requires
        op.spec_to_node(inputs, outputs) is Ok,
    ensures
        SvmClassifier::spec_parse(op.spec_to_node(inputs, outputs)->Ok_0.node) == Ok::<
            Seq<Option<AttributeValueSpec>>,
            OpErrorSpec,
        >(op.values()),
{
    let v1 = op.classlabels.values();
    let v2 = op.rest_values();
    let check = |v: Seq<Option<AttributeValueSpec>>| ClassLabels::spec_check("SVMClassifier"@, v);
    lemma_svm_classifier_fields_distinct();
    assert(ClassLabels::spec_check("SVMClassifier"@, op.values()) is None);
    assert(check(v1) is None);
    assert(op.values() =~= v1 + v2);
    lemma_staged_roundtrip(
        "SVMClassifier"@,
        ML_DOMAIN_STR@,
        Arity::Exactly(1),
        Arity::Exactly(2),
        labels_fields(),
        check,
        svm_classifier_rest(),
        v1,
        v2,
        inputs,
        outputs,
    );
}

// ---------------------------------------------------------------------------
// SVMRegressor
// ---------------------------------------------------------------------------
/// The attribute schema of `SVMRegressor`.
pub open spec fn svm_regressor_fields() -> Seq<Field> {
    seq![
        Field { name: "coefficients", kind: AttrKind::Floats, required: false },
        Field { name: "kernel_params", kind: AttrKind::Floats, required: false },
        Field { name: "kernel_type", kind: AttrKind::Str, required: false },
        Field { name: "post_transform", kind: AttrKind::Str, required: false },
        Field { name: "prob_a", kind: AttrKind::Floats, required: false },
        Field { name: "prob_b", kind: AttrKind::Floats, required: false },
        Field { name: "rho", kind: AttrKind::Floats, required: false },
        Field { name: "support_vectors", kind: AttrKind::Floats, required: false },
        Field { name: "n_supports", kind: AttrKind::Int, required: false },
        Field { name: "one_class", kind: AttrKind::Int, required: false },
    ]
}

fn svm_regressor_schema() -> (r: [Field; 10])
    ensures
        r@ == svm_regressor_fields(),
{
    let c = svm_common_schema();
    let r = [
        c[0],
        c[1],
        c[2],
        c[3],
        c[4],
        c[5],
        c[6],
        c[7],
        Field { name: "n_supports", kind: AttrKind::Int, required: false },
        Field { name: "one_class", kind: AttrKind::Int, required: false },
    ];
    proof {
        assert(r@ =~= svm_regressor_fields());
    }
    r
}

/// `SVMRegressor`: a support vector regression.
#[derive(Debug, Clone, PartialEq)]
pub struct SvmRegressor {
    pub common: SvmCommon,
    pub n_supports: Option<i64>,
    pub one_class: Option<i64>,
}

impl SvmRegressor {
    /// The attribute values, in schema order.
    pub open spec fn values(&self) -> Seq<Option<AttributeValueSpec>> {
        seq![
            floats_value(self.common.coefficients),
            floats_value(self.common.kernel_params),
            string_value(self.common.kernel_type),
            string_value(self.common.post_transform),
            floats_value(self.common.prob_a),
            floats_value(self.common.prob_b),
            floats_value(self.common.rho),
            floats_value(self.common.support_vectors),
            int_value(self.n_supports),
            int_value(self.one_class),
        ]
    }

    /// The node written for this regressor, or the count error.
    pub open spec fn spec_to_node(&self, inputs: Seq<Seq<char>>, outputs: Seq<Seq<char>>) -> Result<
        EmittedSpec,
        OpErrorSpec,
    > {
        emit_node(
            "SVMRegressor"@,
            ML_DOMAIN_STR@,
            Arity::Exactly(1),
            Arity::Exactly(1),
            svm_regressor_fields(),
            self.values(),
            inputs,
            outputs,
        )
    }

    /// The attribute values read from a node, or the first error.
    pub open spec fn spec_parse(n: NodeSpec) -> Result<Seq<Option<AttributeValueSpec>>, OpErrorSpec> {
        parse_node(
            "SVMRegressor"@,
            ML_DOMAIN_STR@,
            Arity::Exactly(1),
            Arity::Exactly(1),
            svm_regressor_fields(),
            n,
        )
    }
}

impl OnnxOp for SvmRegressor {
    fn op_type() -> (r: &'static str)
        ensures
            r@ == "SVMRegressor"@,
    {
        "SVMRegressor"
    }

    fn domain() -> (r: &'static str)
        ensures
            r == ML_DOMAIN_STR,
    {
        ML_DOMAIN_STR
    }

    open spec fn recognizes(node: NodeSpec) -> bool {
        Self::spec_parse(node) is Ok
    }

    open spec fn op_name() -> Seq<char> {
        "SVMRegressor"@
    }

    open spec fn emits(&self, inputs: Seq<Seq<char>>, outputs: Seq<Seq<char>>) -> Result<
        EmittedSpec,
        OpErrorSpec,
    > {
        self.spec_to_node(inputs, outputs)
    }

    fn to_node(&self, inputs: Vec<String>, outputs: Vec<String>) -> (r: Result<Emitted, OpError>)
        ensures
            match self.spec_to_node(inputs.deep_view(), outputs.deep_view()) {
                Ok(em) => r matches Ok(x) && x.deep_view() == em,
                Err(e) => r matches Err(x) && x.deep_view() == e,
            },
    {
        let mut vals: Vec<Option<AttributeValue>> = Vec::new();
        proof {
            assert(vals.deep_view() =~= Seq::<Option<AttributeValueSpec>>::empty());
        }
        self.common.put(&mut vals);
        let ghost mid = vals.deep_view();
        proof {
            assert(mid =~= self.common.values());
        }
        vals.push(put_int(self.n_supports));
        vals.push(put_int(self.one_class));
        proof {
            assert(vals.deep_view() =~= mid.push(int_value(self.n_supports)).push(
                int_value(self.one_class),
            ));
            assert(mid.push(int_value(self.n_supports)).push(int_value(self.one_class))
                =~= self.values());
        }
        build_node(
            "SVMRegressor",
            ML_DOMAIN_STR,
            Arity::Exactly(1),
            Arity::Exactly(1),
            &svm_regressor_schema(),
            vals,
            inputs,
            outputs,
        )
    }

    #[verifier::rlimit(50)]
    fn from_node(node: &Node) -> (r: Result<Self, OpError>)
        ensures
            r is Ok <==> Self::recognizes(node.deep_view()),
            match Self::spec_parse(node.deep_view()) {
                Ok(vs) => r matches Ok(x) && x.values() == vs,
                Err(e) => r matches Err(x) && x.deep_view() == e,
            },
    {
        let vals = match read_node(
            "SVMRegressor",
            ML_DOMAIN_STR,
            Arity::Exactly(1),
            Arity::Exactly(1),
            &svm_regressor_schema(),
            node,
        ) {
            Ok(v) => v,
            Err(e) => {
                return Err(e);
            },
        };
        proof {
            lemma_node_well_typed(
                "SVMRegressor"@,
                ML_DOMAIN_STR@,
                Arity::Exactly(1),
                Arity::Exactly(1),
                svm_regressor_fields(),
                node.deep_view(),
            );
            assert(well_typed_at(svm_common_fields(), vals.deep_view(), 0)) by {
                assert forall|k: int| 0 <= k < svm_common_fields().len() implies match #[trigger] vals.deep_view()[0 + k] {
                    Some(v) => super::table::kind_matches(v, svm_common_fields()[k].kind),
                    None => true,
                } by {
                    assert(svm_regressor_fields()[k] == svm_common_fields()[k]);
                }
            }
            assert(vals.deep_view()[8] == vals@[8].deep_view());
            assert(vals.deep_view()[9] == vals@[9].deep_view());
        }
        let common = SvmCommon::read(&vals);
        let r = SvmRegressor {
            common,
            n_supports: get_int(vals[8]),
            one_class: get_int(vals[9]),
        };
        proof {
            assert(r.values() =~= vals.deep_view());
        }
        Ok(r)
    }
}

/// Reading back the node written for an SVM regressor gives the same
/// regressor.
#[verifier::spinoff_prover]
#[verifier::rlimit(60)]
pub proof fn lemma_svm_regressor_roundtrip(
    op: SvmRegressor,
    inputs: Seq<Seq<char>>,
    outputs: Seq<Seq<char>>,
)
    requires
        op.spec_to_node(inputs, outputs) is Ok,
    ensures
        SvmRegressor::spec_parse(op.spec_to_node(inputs, outputs)->Ok_0.node) == Ok::<
            Seq<Option<AttributeValueSpec>>,
            OpErrorSpec,
        >(op.values()),
{
    lemma_svm_regressor_fields_distinct();
    lemma_node_roundtrip(
        "SVMRegressor"@,
        ML_DOMAIN_STR@,
        Arity::Exactly(1),
        Arity::Exactly(1),
        svm_regressor_fields(),
        op.values(),
        inputs,
        outputs,
    );
}

proof fn lemma_linear_classifier_fields_distinct()
    ensures
        distinct_names(labels_fields() + linear_classifier_rest()),
{
    let f = labels_fields() + linear_classifier_rest();
    reveal_strlit("classlabels_ints");
    assert(f[0].name@ == "classlabels_ints"@);
    reveal_strlit("classlabels_strings");
    assert(f[1].name@ == "classlabels_strings"@);
    reveal_strlit("coefficients");
    assert(f[2].name@ == "coefficients"@);
    reveal_strlit("intercepts");
    assert(f[3].name@ == "intercepts"@);
    reveal_strlit("multi_class");
    assert(f[4].name@ == "multi_class"@);
    reveal_strlit("post_transform");
    assert(f[5].name@ == "post_transform"@);
    assert forall|i: int, j: int| 0 <= i < j < f.len() implies #[trigger] f[i].name@
        != #[trigger] f[j].name@ by {
        assert(i == 0 || i == 1 || i == 2 || i == 3 || i == 4 || i == 5);
        assert(j == 0 || j == 1 || j == 2 || j == 3 || j == 4 || j == 5);
    }
}

proof fn lemma_linear_regressor_fields_distinct()
    ensures
        distinct_names(linear_regressor_fields()),
{
    let f = linear_regressor_fields();
    reveal_strlit("coefficients");
    assert(f[0].name@ == "coefficients"@);
    reveal_strlit("intercepts");
    assert(f[1].name@ == "intercepts"@);
    reveal_strlit("post_transform");
    assert(f[2].name@ == "post_transform"@);
    reveal_strlit("targets");
    assert(f[3].name@ == "targets"@);
    assert forall|i: int, j: int| 0 <= i < j < f.len() implies #[trigger] f[i].name@
        != #[trigger] f[j].name@ by {
        assert(i == 0 || i == 1 || i == 2 || i == 3);
        assert(j == 0 || j == 1 || j == 2 || j == 3);
    }
}

proof fn lemma_svm_classifier_fields_distinct()
    ensures
        distinct_names(labels_fields() + svm_classifier_rest()),
{
    let f = labels_fields() + svm_classifier_rest();
    reveal_strlit("classlabels_ints");
    assert(f[0].name@ == "classlabels_ints"@);
    reveal_strlit("classlabels_strings");
    assert(f[1].name@ == "classlabels_strings"@);
    reveal_strlit("coefficients");
    assert(f[2].name@ == "coefficients"@);
    reveal_strlit("kernel_params");
    assert(f[3].name@ == "kernel_params"@);
    reveal_strlit("kernel_type");
    assert(f[4].name@ == "kernel_type"@);
    reveal_strlit("post_transform");
    assert(f[5].name@ == "post_transform"@);
    reveal_strlit("prob_a");
    assert(f[6].name@ == "prob_a"@);
    reveal_strlit("prob_b");
    assert(f[7].name@ == "prob_b"@);
    reveal_strlit("rho");
    assert(f[8].name@ == "rho"@);
    reveal_strlit("support_vectors");
    assert(f[9].name@ == "support_vectors"@);
    reveal_strlit("vectors_per_class");
    assert(f[10].name@ == "vectors_per_class"@);
    assert(f[6].name@[5] != f[7].name@[5]);
    assert forall|i: int, j: int| 0 <= i < j < f.len() implies #[trigger] f[i].name@
        != #[trigger] f[j].name@ by {
        assert(i == 0 || i == 1 || i == 2 || i == 3 || i == 4 || i == 5 || i == 6 || i == 7 || i == 8 || i == 9 || i == 10);
        assert(j == 0 || j == 1 || j == 2 || j == 3 || j == 4 || j == 5 || j == 6 || j == 7 || j == 8 || j == 9 || j == 10);
    }
}

proof fn lemma_svm_regressor_fields_distinct()
    ensures
        distinct_names(svm_regressor_fields()),
{
    let f = svm_regressor_fields();
    reveal_strlit("coefficients");
    assert(f[0].name@ == "coefficients"@);
    reveal_strlit("kernel_params");
    assert(f[1].name@ == "kernel_params"@);
    reveal_strlit("kernel_type");
    assert(f[2].name@ == "kernel_type"@);
    reveal_strlit("post_transform");
    assert(f[3].name@ == "post_transform"@);
    reveal_strlit("prob_a");
    assert(f[4].name@ == "prob_a"@);
    reveal_strlit("prob_b");
    assert(f[5].name@ == "prob_b"@);
    reveal_strlit("rho");
    assert(f[6].name@ == "rho"@);
    reveal_strlit("support_vectors");
    assert(f[7].name@ == "support_vectors"@);
    reveal_strlit("n_supports");
    assert(f[8].name@ == "n_supports"@);
    reveal_strlit("one_class");
    assert(f[9].name@ == "one_class"@);
    assert(f[4].name@[5] != f[5].name@[5]);
    assert forall|i: int, j: int| 0 <= i < j < f.len() implies #[trigger] f[i].name@
        != #[trigger] f[j].name@ by {
        assert(i == 0 || i == 1 || i == 2 || i == 3 || i == 4 || i == 5 || i == 6 || i == 7 || i == 8 || i == 9);
        assert(j == 0 || j == 1 || j == 2 || j == 3 || j == 4 || j == 5 || j == 6 || j == 7 || j == 8 || j == 9);
    }
}

/// Each position of the `LinearRegressor` schema is the attribute named after the
/// field of the operator whose value it holds.
pub proof fn lemma_linear_regressor_slots(op: LinearRegressor)
    ensures
        linear_regressor_fields().len() == 4,
        op.values().len() == 4,
        slot(linear_regressor_fields(), op.values(), 0, "coefficients"@, Some(AttributeValueSpec::Floats(op.coefficients@))),
        slot(linear_regressor_fields(), op.values(), 1, "intercepts"@, floats_value(op.intercepts)),
        slot(linear_regressor_fields(), op.values(), 2, "post_transform"@, string_value(op.post_transform)),
        slot(linear_regressor_fields(), op.values(), 3, "targets"@, int_value(op.targets)),
{
}

/// Each position of the `LinearClassifier` schema is the attribute named after the
/// field of the operator whose value it holds.
pub proof fn lemma_linear_classifier_slots(op: LinearClassifier)
    ensures
        (labels_fields() + linear_classifier_rest()).len() == 6,
        op.values().len() == 6,
        slot((labels_fields() + linear_classifier_rest()), op.values(), 0, "classlabels_ints"@, ints_value(op.classlabels.ints)),
        slot((labels_fields() + linear_classifier_rest()), op.values(), 1, "classlabels_strings"@, strings_value(op.classlabels.strings)),
        slot((labels_fields() + linear_classifier_rest()), op.values(), 2, "coefficients"@, Some(AttributeValueSpec::Floats(op.coefficients@))),
        slot((labels_fields() + linear_classifier_rest()), op.values(), 3, "intercepts"@, floats_value(op.intercepts)),
        slot((labels_fields() + linear_classifier_rest()), op.values(), 4, "multi_class"@, int_value(op.multi_class)),
        slot((labels_fields() + linear_classifier_rest()), op.values(), 5, "post_transform"@, string_value(op.post_transform)),
{
}

/// Each position of the `SVMClassifier` schema is the attribute named after the
/// field of the operator whose value it holds.
pub proof fn lemma_svm_classifier_slots(op: SvmClassifier)
    ensures
        (labels_fields() + svm_classifier_rest()).len() == 11,
        op.values().len() == 11,
        slot((labels_fields() + svm_classifier_rest()), op.values(), 0, "classlabels_ints"@, ints_value(op.classlabels.ints)),
        slot((labels_fields() + svm_classifier_rest()), op.values(), 1, "classlabels_strings"@, strings_value(op.classlabels.strings)),
        slot((labels_fields() + svm_classifier_rest()), op.values(), 2, "coefficients"@, floats_value(op.common.coefficients)),
        slot((labels_fields() + svm_classifier_rest()), op.values(), 3, "kernel_params"@, floats_value(op.common.kernel_params)),
        slot((labels_fields() + svm_classifier_rest()), op.values(), 4, "kernel_type"@, string_value(op.common.kernel_type)),
        slot((labels_fields() + svm_classifier_rest()), op.values(), 5, "post_transform"@, string_value(op.common.post_transform)),
        slot((labels_fields() + svm_classifier_rest()), op.values(), 6, "prob_a"@, floats_value(op.common.prob_a)),
        slot((labels_fields() + svm_classifier_rest()), op.values(), 7, "prob_b"@, floats_value(op.common.prob_b)),
        slot((labels_fields() + svm_classifier_rest()), op.values(), 8, "rho"@, floats_value(op.common.rho)),
        slot((labels_fields() + svm_classifier_rest()), op.values(), 9, "support_vectors"@, floats_value(op.common.support_vectors)),
        slot((labels_fields() + svm_classifier_rest()), op.values(), 10, "vectors_per_class"@, ints_value(op.vectors_per_class)),
{
}

/// Each position of the `SVMRegressor` schema is the attribute named after the
/// field of the operator whose value it holds.
pub proof fn lemma_svm_regressor_slots(op: SvmRegressor)
    ensures
        svm_regressor_fields().len() == 10,
        op.values().len() == 10,
        slot(svm_regressor_fields(), op.values(), 0, "coefficients"@, floats_value(op.common.coefficients)),
        slot(svm_regressor_fields(), op.values(), 1, "kernel_params"@, floats_value(op.common.kernel_params)),
        slot(svm_regressor_fields(), op.values(), 2, "kernel_type"@, string_value(op.common.kernel_type)),
        slot(svm_regressor_fields(), op.values(), 3, "post_transform"@, string_value(op.common.post_transform)),
        slot(svm_regressor_fields(), op.values(), 4, "prob_a"@, floats_value(op.common.prob_a)),
        slot(svm_regressor_fields(), op.values(), 5, "prob_b"@, floats_value(op.common.prob_b)),
        slot(svm_regressor_fields(), op.values(), 6, "rho"@, floats_value(op.common.rho)),
        slot(svm_regressor_fields(), op.values(), 7, "support_vectors"@, floats_value(op.common.support_vectors)),
        slot(svm_regressor_fields(), op.values(), 8, "n_supports"@, int_value(op.n_supports)),
        slot(svm_regressor_fields(), op.values(), 9, "one_class"@, int_value(op.one_class)),
{
}

} // verus!
