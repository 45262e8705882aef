//! Building a graph from typed operators, and exporting a model.
use crate::ir::validate::{
    graph_conditions, is_report_of, lemma_report_empty, validate_model, ValidationError,
    ValidationErrorSpec,
};
use crate::ir::{
    Attribute, AttributeSpec, Dim, DimSpec, Graph, GraphSpec, Model, ModelSpec, Node, NodeSpec,
    OpsetId, OpsetIdSpec, Tensor, TensorData, TensorSpec, TensorStorageSpec, ValueInfo,
    ValueInfoSpec, ValueType, IR_VERSION, PRODUCER_VERSION,
};
use crate::ml::{
    Emitted, EmittedSpec, OnnxOp, OpError, OpErrorSpec, OpSink, CORE_TYPED_OPSET_TARGET,
    ML_DOMAIN_STR, ML_EXPORT_OPSET_TARGET, ONNX_DOMAIN_STR,
};
use crate::ir::validate::{joined, validation_messages, validation_texts};
use crate::ml::op_error_text;
use crate::text::{concat, debug_quoted, decimal, push_str, quoted, str_eq, usize_to_string};
use vstd::prelude::*;
use vstd::utf8::encode_utf8;

verus! {

// ---------------------------------------------------------------------------
// Values and errors
// ---------------------------------------------------------------------------
/// The name of a value in a graph being built.
#[derive(Debug, PartialEq, Eq, Hash)]
pub struct ValueRef(pub String);

impl DeepView for ValueRef {
    type V = Seq<char>;

    open spec fn deep_view(&self) -> Seq<char> {
        self.0@
    }
}

impl Clone for ValueRef {
    fn clone(&self) -> (r: Self)
        ensures
            r.deep_view() == self.deep_view(),
    {
        ValueRef(self.0.clone())
    }
}

impl ValueRef {
    /// The value's name.
    pub fn name(&self) -> (r: &str)
        ensures
            r@ == self.0@,
    {
        self.0.as_str()
    }

    /// The value's name, taken out.
    pub fn into_string(self) -> (r: String)
        ensures
            r@ == self.0@,
    {
        self.0
    }
}

/// Mathematical model of [`ExportError`].
pub enum ExportErrorSpec {
    DuplicateName(Seq<char>),
    LengthMismatch { name: Seq<char>, expected: usize, got: usize },
    Op(OpErrorSpec),
    Validation(Seq<ValidationErrorSpec>),
}

/// Why a graph could not be built or a model exported.
#[derive(Debug, PartialEq)]
pub enum ExportError {
    DuplicateName(String),
    LengthMismatch { name: String, expected: usize, got: usize },
    Op(OpError),
    Validation(Vec<ValidationError>),
}

impl DeepView for ExportError {
    type V = ExportErrorSpec;

    open spec fn deep_view(&self) -> ExportErrorSpec {
        match self {
            ExportError::DuplicateName(n) => ExportErrorSpec::DuplicateName(n@),
            ExportError::LengthMismatch { name, expected, got } => ExportErrorSpec::LengthMismatch {
                name: name@,
                expected: *expected,
                got: *got,
            },
            ExportError::Op(e) => ExportErrorSpec::Op(e.deep_view()),
            ExportError::Validation(v) => ExportErrorSpec::Validation(v.deep_view()),
        }
    }
}

/// The text of an export error; validation errors each follow on a line of
/// their own, after `- `.
pub open spec fn export_error_text(e: ExportErrorSpec) -> Seq<char> {
    match e {
        ExportErrorSpec::DuplicateName(name) => "exported value "@ + debug_quoted(name)
            + " is already defined"@,
        ExportErrorSpec::LengthMismatch { name, expected, got } => "initializer "@ + debug_quoted(
            name,
        ) + ": shape implies "@ + decimal(expected as nat) + " elements but data carries "@
            + decimal(got as nat),
        ExportErrorSpec::Op(e) => "invalid op for export: "@ + op_error_text(e),
        ExportErrorSpec::Validation(errors) => "exported graph failed validation ("@ + decimal(
            errors.len(),
        ) + " error(s)):"@ + if errors.len() == 0 {
            Seq::empty()
        } else {
            "\n- "@ + joined(validation_texts(errors), "\n- "@)
        },
    }
}

impl ExportError {
    /// The error as text.
    pub fn message(&self) -> (r: String)
        ensures
            r@ == export_error_text(self.deep_view()),
    {
        match self {
            ExportError::DuplicateName(name) => {
                let mut m = String::from_str("exported value ");
                push_str(&mut m, quoted(name.as_str()).as_str());
                push_str(&mut m, " is already defined");
                m
            },
            ExportError::LengthMismatch { name, expected, got } => {
                let mut m = String::from_str("initializer ");
                push_str(&mut m, quoted(name.as_str()).as_str());
                push_str(&mut m, ": shape implies ");
                push_str(&mut m, usize_to_string(*expected).as_str());
                push_str(&mut m, " elements but data carries ");
                push_str(&mut m, usize_to_string(*got).as_str());
                m
            },
            ExportError::Op(e) => concat("invalid op for export: ", e.message().as_str()),
            ExportError::Validation(errors) => {
                let mut m = String::from_str("exported graph failed validation (");
                push_str(&mut m, usize_to_string(errors.len()).as_str());
                push_str(&mut m, " error(s)):");
                if errors.len() > 0 {
                    push_str(&mut m, "\n- ");
                    let lines = crate::ir::validate::join_texts(&validation_messages(errors), "\n- ");
                    push_str(&mut m, lines.as_str());
                }
                m
            },
        }
    }
}

// ---------------------------------------------------------------------------
// The order of operator set domains
// ---------------------------------------------------------------------------
/// Lexicographic order of byte strings, a proper prefix first: the order
/// of `str`.
pub open spec fn bytes_less(a: Seq<u8>, b: Seq<u8>) -> bool
    decreases a.len(),
{
    if b.len() == 0 {
        false
    } else if a.len() == 0 {
        true
    } else if a[0] != b[0] {
        a[0] < b[0]
    } else {
        bytes_less(a.drop_first(), b.drop_first())
    }
}

/// No byte string comes before itself.
pub proof fn lemma_bytes_less_irreflexive(a: Seq<u8>)
    ensures
        !bytes_less(a, a),
    decreases a.len(),
{
    if a.len() > 0 {
        lemma_bytes_less_irreflexive(a.drop_first());
    }
}

/// Of two different byte strings, one comes before the other.
pub proof fn lemma_bytes_less_total(a: Seq<u8>, b: Seq<u8>)
    ensures
        a == b || bytes_less(a, b) || bytes_less(b, a),
    decreases a.len(),
{
    if a.len() == 0 && b.len() == 0 {
        assert(a =~= b);
    } else if a.len() > 0 && b.len() > 0 && a[0] == b[0] {
        let ta = a.drop_first();
        let tb = b.drop_first();
        lemma_bytes_less_total(ta, tb);
        if ta == tb {
            assert(ta.len() == tb.len());
            assert(a.len() == ta.len() + 1);
            assert(b.len() == tb.len() + 1);
            assert forall|i: int| 0 <= i < a.len() implies a[i] == b[i] by {
                if i > 0 {
                    assert(a[i] == ta[i - 1]);
                    assert(b[i] == tb[i - 1]);
                }
            }
            assert(a =~= b);
        }
    }
}

/// The order of byte strings is transitive.
pub proof fn lemma_bytes_less_transitive(a: Seq<u8>, b: Seq<u8>, c: Seq<u8>)
    requires
        bytes_less(a, b),
        bytes_less(b, c),
    ensures
        bytes_less(a, c),
    decreases a.len(),
{
    if a.len() > 0 && a[0] == b[0] && b[0] == c[0] {
        lemma_bytes_less_transitive(a.drop_first(), b.drop_first(), c.drop_first());
    }
}

/// Whether the first byte string comes before the second.
fn bytes_before(a: &[u8], b: &[u8]) -> (r: bool)
    ensures
        r == bytes_less(a@, b@),
{
    let mut i: usize = 0;
    proof {
        assert(a@.skip(0) =~= a@);
        assert(b@.skip(0) =~= b@);
    }
    while i < a.len() && i < b.len()
        invariant
            0 <= i <= a@.len(),
            i <= b@.len(),
            bytes_less(a@, b@) == bytes_less(a@.skip(i as int), b@.skip(i as int)),
        decreases a@.len() - i,
    {
        if a[i] != b[i] {
            proof {
                assert(a@.skip(i as int)[0] == a@[i as int]);
                assert(b@.skip(i as int)[0] == b@[i as int]);
            }
            return a[i] < b[i];
        }
        proof {
            assert(a@.skip(i as int).drop_first() =~= a@.skip(i + 1));
            assert(b@.skip(i as int).drop_first() =~= b@.skip(i + 1));
        }
        i = i + 1;
    }
    i < b.len()
}

/// The key by which operator sets are ordered: the UTF-8 bytes of the
/// domain.
pub open spec fn domain_key(d: Seq<char>) -> Seq<u8> {
    encode_utf8(d)
}

/// Whether operator sets are in strictly increasing order of domain.
pub open spec fn opsets_sorted(s: Seq<OpsetIdSpec>) -> bool {
    forall|i: int, j: int|
        0 <= i < j < s.len() ==> bytes_less(
            #[trigger] domain_key(s[i].domain),
            #[trigger] domain_key(s[j].domain),
        )
}

/// The versions of a list of operator sets, by domain.
pub open spec fn opset_map(s: Seq<OpsetIdSpec>) -> Map<Seq<char>, i64>
    decreases s.len(),
{
    if s.len() == 0 {
        Map::empty()
    } else {
        opset_map(s.drop_last()).insert(s.last().domain, s.last().version)
    }
}

/// The versions after declaring `version` for `domain`: the higher of it
/// and the one already declared.
pub open spec fn declared(m: Map<Seq<char>, i64>, domain: Seq<char>, version: i64) -> Map<
    Seq<char>,
    i64,
> {
    if m.contains_key(domain) && m[domain] >= version {
        m
    } else {
        m.insert(domain, version)
    }
}

/// The versions after a node of `domain` is added: the default domain and
/// `ai.onnx.ml` are declared at the library's export targets, other domains
/// are left to the caller.
pub open spec fn opset_for_domain(m: Map<Seq<char>, i64>, domain: Seq<char>) -> Map<Seq<char>, i64> {
    if domain == ONNX_DOMAIN_STR@ {
        declared(m, domain, CORE_TYPED_OPSET_TARGET)
    } else if domain == ML_DOMAIN_STR@ {
        declared(m, domain, ML_EXPORT_OPSET_TARGET)
    } else {
        m
    }
}

/// Sorted operator sets name each domain once.
proof fn lemma_sorted_distinct(s: Seq<OpsetIdSpec>)
    requires
        opsets_sorted(s),
    ensures
        forall|i: int, j: int| 0 <= i < j < s.len() ==> s[i].domain != s[j].domain,
{
    assert forall|i: int, j: int| 0 <= i < j < s.len() implies s[i].domain != s[j].domain by {
        lemma_bytes_less_irreflexive(domain_key(s[i].domain));
        assert(bytes_less(domain_key(s[i].domain), domain_key(s[j].domain)));
    }
}

/// Each operator set of a list with distinct domains is found by its
/// domain.
proof fn lemma_opset_map_lookup(s: Seq<OpsetIdSpec>)
    requires
        forall|i: int, j: int| 0 <= i < j < s.len() ==> s[i].domain != s[j].domain,
    ensures
        forall|i: int|
            0 <= i < s.len() ==> opset_map(s).contains_key(#[trigger] s[i].domain) && opset_map(
                s,
            )[s[i].domain] == s[i].version,
    decreases s.len(),
{
    if s.len() > 0 {
        let t = s.drop_last();
        lemma_opset_map_lookup(t);
        assert forall|i: int| 0 <= i < s.len() implies opset_map(s).contains_key(
            #[trigger] s[i].domain,
        ) && opset_map(s)[s[i].domain] == s[i].version by {
            if i < s.len() - 1 {
                assert(t[i] == s[i]);
            }
        }
    }
}

/// A domain that no operator set of a list names is not found.
proof fn lemma_opset_map_absent(s: Seq<OpsetIdSpec>, d: Seq<char>)
    requires
        forall|i: int| 0 <= i < s.len() ==> s[i].domain != d,
    ensures
        !opset_map(s).contains_key(d),
    decreases s.len(),
{
    if s.len() > 0 {
        lemma_opset_map_absent(s.drop_last(), d);
        assert(s.last() == s[s.len() - 1]);
    }
}

/// Raising the version of one operator set of a list with distinct domains.
proof fn lemma_opset_map_update(s: Seq<OpsetIdSpec>, i: int, v: i64)
    requires
        0 <= i < s.len(),
        forall|a: int, b: int| 0 <= a < b < s.len() ==> s[a].domain != s[b].domain,
    ensures
        opset_map(s.update(i, OpsetIdSpec { domain: s[i].domain, version: v })) == opset_map(
            s,
        ).insert(s[i].domain, v),
    decreases s.len(),
{
    let x = OpsetIdSpec { domain: s[i].domain, version: v };
    if i == s.len() - 1 {
        assert(s.update(i, x).drop_last() =~= s.drop_last());
        assert(opset_map(s.update(i, x)) =~= opset_map(s).insert(s[i].domain, v));
    } else {
        assert(s.update(i, x).drop_last() =~= s.drop_last().update(i, x));
        lemma_opset_map_update(s.drop_last(), i, v);
        assert(s.last().domain != s[i].domain);
        assert(opset_map(s.update(i, x)) =~= opset_map(s).insert(s[i].domain, v));
    }
}

/// Inserting an operator set of a new domain anywhere in a list.
proof fn lemma_opset_map_insert(s: Seq<OpsetIdSpec>, p: int, x: OpsetIdSpec)
    requires
        0 <= p <= s.len(),
        forall|i: int| 0 <= i < s.len() ==> s[i].domain != x.domain,
    ensures
        opset_map(s.insert(p, x)) == opset_map(s).insert(x.domain, x.version),
    decreases s.len(),
{
    if p == s.len() {
        assert(s.insert(p, x).drop_last() =~= s);
        assert(s.insert(p, x).last() == x);
    } else {
        assert(s.insert(p, x).drop_last() =~= s.drop_last().insert(p, x));
        assert(s.insert(p, x).last() == s.last());
        lemma_opset_map_insert(s.drop_last(), p, x);
        assert(opset_map(s.insert(p, x)) =~= opset_map(s).insert(x.domain, x.version));
    }
}

/// Where an operator set of `domain` is or belongs in a sorted list: its
/// index and `true` when it is there, else the index of the first one
/// whose domain comes after it, and `false`.
fn opset_slot(opsets: &Vec<OpsetId>, domain: &str) -> (r: (usize, bool))
    requires
        opsets_sorted(opsets.deep_view()),
    ensures
        r.0 <= opsets@.len(),
        r.1 ==> r.0 < opsets@.len() && opsets.deep_view()[r.0 as int].domain == domain@,
        !r.1 ==> (forall|j: int|
            0 <= j < r.0 ==> bytes_less(
                domain_key(#[trigger] opsets.deep_view()[j].domain),
                domain_key(domain@),
            )),
        !r.1 && r.0 < opsets@.len() ==> bytes_less(
            domain_key(domain@),
            domain_key(opsets.deep_view()[r.0 as int].domain),
        ),
{
    let mut i: usize = 0;
    while i < opsets.len()
        invariant
            0 <= i <= opsets@.len(),
            forall|j: int|
                0 <= j < i ==> bytes_less(
                    domain_key(#[trigger] opsets.deep_view()[j].domain),
                    domain_key(domain@),
                ),
        decreases opsets@.len() - i,
    {
        let d = opsets[i].domain.as_str();
        if str_eq(d, domain) {
            return (i, true);
        }
        if bytes_before(domain.as_bytes(), d.as_bytes()) {
            return (i, false);
        }
        proof {
            lemma_bytes_less_total(domain_key(d@), domain_key(domain@));
            if domain_key(d@) == domain_key(domain@) {
                crate::text::lemma_utf8_roundtrip(d@);
                crate::text::lemma_utf8_roundtrip(domain@);
            }
        }
        i = i + 1;
    }
    (i, false)
}

// ---------------------------------------------------------------------------
// Names of values
// ---------------------------------------------------------------------------
/// Whether a character is an ASCII letter or digit.
pub open spec fn is_ascii_alnum(c: char) -> bool {
    ('0' <= c && c <= '9') || ('a' <= c && c <= 'z') || ('A' <= c && c <= 'Z')
}

/// The part of an operator name used in the names of its outputs: its ASCII
/// letters and digits, or `Op` when it has none.
pub open spec fn name_stem(op_type: Seq<char>) -> Seq<char> {
    let kept = op_type.filter(|c: char| is_ascii_alnum(c));
    if kept.len() == 0 {
        "Op"@
    } else {
        kept
    }
}

/// The name of output `k` of `count` outputs of node `index`:
/// `node_{index}_{stem}_out`, followed by `_{k}` when there are several.
pub open spec fn output_name(index: nat, stem: Seq<char>, count: nat, k: nat) -> Seq<char> {
    let base = "node_"@ + decimal(index) + "_"@ + stem + "_out"@;
    if count == 1 {
        base
    } else {
        base + "_"@ + decimal(k)
    }
}

/// The names of the outputs of node `index`.
pub open spec fn output_names(index: nat, stem: Seq<char>, count: nat) -> Seq<Seq<char>> {
    Seq::new(count, |k: int| output_name(index, stem, count, k as nat))
}

/// The name stem of an operator name.
fn stem_of(op_type: &str) -> (r: String)
    ensures
        r@ == name_stem(op_type@),
{
    let n = op_type.unicode_len();
    let mut kept = String::new();
    let mut i: usize = 0;
    proof {
        reveal(Seq::filter);
        assert(op_type@.take(0) =~= Seq::<char>::empty());
    }
    while i < n
        invariant
            n == op_type@.len(),
            0 <= i <= n,
            kept@ == op_type@.take(i as int).filter(|c: char| is_ascii_alnum(c)),
        decreases n - i,
    {
        let c = op_type.get_char(i);
        proof {
            reveal(Seq::filter);
            assert(op_type@.take(i + 1).drop_last() =~= op_type@.take(i as int));
            assert(op_type@.take(i + 1).last() == c);
        }
        if ('0' <= c && c <= '9') || ('a' <= c && c <= 'z') || ('A' <= c && c <= 'Z') {
            kept = concat(kept.as_str(), op_type.substring_char(i, i + 1));
            proof {
                assert(op_type@.subrange(i as int, i + 1) =~= seq![c]);
            }
        }
        i = i + 1;
    }
    proof {
        assert(op_type@.take(n as int) =~= op_type@);
    }
    if kept.as_str().unicode_len() == 0 {
        String::from_str("Op")
    } else {
        kept
    }
}

/// The names of the outputs of node `index`, for an operator named
/// `op_type`.
fn make_output_names(index: usize, op_type: &str, count: usize) -> (r: Vec<String>)
    ensures
        r.deep_view() == output_names(index as nat, name_stem(op_type@), count as nat),
{
    let stem = stem_of(op_type);
    let prefix = concat("node_", usize_to_string(index).as_str());
    let prefix = concat(prefix.as_str(), "_");
    let prefix = concat(prefix.as_str(), stem.as_str());
    let base = concat(prefix.as_str(), "_out");
    let mut names: Vec<String> = Vec::new();
    let mut k: usize = 0;
    while k < count
        invariant
            0 <= k <= count,
            base@ == "node_"@ + decimal(index as nat) + "_"@ + name_stem(op_type@) + "_out"@,
            names.deep_view() == output_names(index as nat, name_stem(op_type@), count as nat).take(
                k as int,
            ),
        decreases count - k,
    {
        let name = if count == 1 {
            base.clone()
        } else {
            let with_sep = concat(base.as_str(), "_");
            concat(with_sep.as_str(), usize_to_string(k).as_str())
        };
        let ghost before = names.deep_view();
        names.push(name);
        proof {
            let all = output_names(index as nat, name_stem(op_type@), count as nat);
            assert(name@ == all[k as int]);
            assert(names.deep_view() =~= before.push(name@));
            assert(all.take(k + 1) =~= all.take(k as int).push(all[k as int]));
        }
        k = k + 1;
    }
    proof {
        let all = output_names(index as nat, name_stem(op_type@), count as nat);
        assert(all.take(count as int) =~= all);
    }
    names
}

/// Value references for names.
fn value_refs(names: Vec<String>) -> (r: Vec<ValueRef>)
    ensures
        r.deep_view() == names.deep_view(),
{
    let mut r: Vec<ValueRef> = Vec::new();
    let mut i: usize = 0;
    while i < names.len()
        invariant
            0 <= i <= names@.len(),
            r.deep_view() == names.deep_view().take(i as int),
        decreases names@.len() - i,
    {
        let ghost before = r.deep_view();
        r.push(ValueRef(names[i].clone()));
        proof {
            assert(r.deep_view() =~= before.push(names.deep_view()[i as int]));
            assert(r.deep_view() =~= names.deep_view().take(i + 1));
        }
        i = i + 1;
    }
    proof {
        assert(names.deep_view().take(i as int) =~= names.deep_view());
    }
    r
}

/// The names of value references.
fn ref_names(refs: Vec<ValueRef>) -> (r: Vec<String>)
    ensures
        r.deep_view() == refs.deep_view(),
{
    let mut r: Vec<String> = Vec::new();
    let mut i: usize = 0;
    while i < refs.len()
        invariant
            0 <= i <= refs@.len(),
            r.deep_view() == refs.deep_view().take(i as int),
        decreases refs@.len() - i,
    {
        let ghost before = r.deep_view();
        r.push(refs[i].0.clone());
        proof {
            assert(r.deep_view() =~= before.push(refs.deep_view()[i as int]));
            assert(r.deep_view() =~= refs.deep_view().take(i + 1));
        }
        i = i + 1;
    }
    proof {
        assert(refs.deep_view().take(i as int) =~= refs.deep_view());
    }
    r
}

// ---------------------------------------------------------------------------
// The builder
// ---------------------------------------------------------------------------
/// Mathematical model of [`GraphBuilder`]: the graph so far, the names
/// defined in it so far in the order they were claimed, and the version
/// declared for each operator set domain.
#[verifier::ext_equal]
pub struct BuilderSpec {
    pub graph: GraphSpec,
    pub defined: Seq<Seq<char>>,
    pub opsets: Map<Seq<char>, i64>,
}

/// The names after claiming `name`, or the name when it is already defined.
/// The empty name is never claimed.
pub open spec fn claim_name(defined: Seq<Seq<char>>, name: Seq<char>) -> Result<
    Seq<Seq<char>>,
    Seq<char>,
> {
    if name.len() == 0 {
        Ok(defined)
    } else if defined.contains(name) {
        Err(name)
    } else {
        Ok(defined.push(name))
    }
}

/// The names after claiming each of `names` in turn, and the first that
/// was already defined, after which no more are claimed.
pub open spec fn claim_all(defined: Seq<Seq<char>>, names: Seq<Seq<char>>) -> (
    Seq<Seq<char>>,
    Option<Seq<char>>,
)
    decreases names.len(),
{
    if names.len() == 0 {
        (defined, None)
    } else {
        let (d, e) = claim_all(defined, names.drop_last());
        if e is Some {
            (d, e)
        } else {
            match claim_name(d, names.last()) {
                Ok(d2) => (d2, None),
                Err(n) => (d, Some(n)),
            }
        }
    }
}

/// A graph with one more node.
pub open spec fn with_node(g: GraphSpec, n: NodeSpec) -> GraphSpec {
    GraphSpec { nodes: g.nodes.push(n), ..g }
}

/// A graph with one more initializer.
pub open spec fn with_initializer(g: GraphSpec, t: TensorSpec) -> GraphSpec {
    GraphSpec { initializers: g.initializers.push(t), ..g }
}

/// The builder after adding each initializer in turn, its name claimed
/// first, and the first name that was already defined.
pub open spec fn add_initializers(b: BuilderSpec, ts: Seq<TensorSpec>) -> (
    BuilderSpec,
    Option<Seq<char>>,
)
    decreases ts.len(),
{
    if ts.len() == 0 {
        (b, None)
    } else {
        let (b1, e) = add_initializers(b, ts.drop_last());
        if e is Some {
            (b1, e)
        } else {
            match claim_name(b1.defined, ts.last().name) {
                Err(n) => (b1, Some(n)),
                Ok(d) => (
                    BuilderSpec {
                        graph: with_initializer(b1.graph, ts.last()),
                        defined: d,
                        opsets: b1.opsets,
                    },
                    None,
                ),
            }
        }
    }
}

/// The builder after taking an emitted node: its initializers are added,
/// then its outputs claimed, then the node added and its domain's operator
/// set declared; and the first name that was already defined.
pub open spec fn push_emitted_spec(b: BuilderSpec, em: EmittedSpec) -> (
    BuilderSpec,
    Option<Seq<char>>,
) {
    let (b1, e1) = add_initializers(b, em.initializers);
    if e1 is Some {
        (b1, e1)
    } else {
        let (d, e2) = claim_all(b1.defined, em.node.outputs);
        if e2 is Some {
            (BuilderSpec { defined: d, ..b1 }, e2)
        } else {
            (
                BuilderSpec {
                    graph: with_node(b1.graph, em.node),
                    defined: d,
                    opsets: opset_for_domain(b1.opsets, em.node.domain),
                },
                None,
            )
        }
    }
}

/// A node with the given parts and nothing else.
pub open spec fn plain_node(
    op_type: Seq<char>,
    domain: Seq<char>,
    inputs: Seq<Seq<char>>,
    outputs: Seq<Seq<char>>,
    attributes: Seq<AttributeSpec>,
) -> NodeSpec {
    NodeSpec {
        name: None,
        op_type,
        domain,
        inputs,
        outputs,
        attributes,
        overload: Seq::empty(),
        doc_string: Seq::empty(),
        metadata: Seq::empty(),
        device_configurations: Seq::empty(),
    }
}

/// The number of elements a shape of fixed dimensions holds, multiplied
/// from `acc` left to right; `None` where a dimension is not fixed or is
/// negative, or a product does not fit in `usize`.
pub open spec fn fixed_len_from(acc: usize, dims: Seq<DimSpec>) -> Option<usize>
    decreases dims.len(),
{
    if dims.len() == 0 {
        Some(acc)
    } else {
        match dims[0] {
            DimSpec::Fixed(v) => if v < 0 || acc * (v as usize) > usize::MAX {
                None
            } else {
                fixed_len_from((acc * (v as usize)) as usize, dims.drop_first())
            },
            _ => None,
        }
    }
}

/// The number of elements a shape of fixed dimensions holds.
pub open spec fn fixed_len(shape: Seq<DimSpec>) -> Option<usize> {
    fixed_len_from(1, shape)
}

/// Whether every dimension of a shape is a fixed, non-negative size.
pub open spec fn dims_fixed(shape: Seq<DimSpec>) -> bool {
    forall|i: int| 0 <= i < shape.len() ==> #[trigger] dim_fixed(shape[i])
}

/// Whether a dimension is a fixed, non-negative size.
pub open spec fn dim_fixed(d: DimSpec) -> bool {
    d matches DimSpec::Fixed(v) && v >= 0
}

/// The product of the sizes of a shape of fixed dimensions.
pub open spec fn dims_product(shape: Seq<DimSpec>) -> int
    decreases shape.len(),
{
    if shape.len() == 0 {
        1
    } else {
        (shape[0]->Fixed_0 as int) * dims_product(shape.drop_first())
    }
}

/// The product of the sizes of a shape of fixed dimensions, a zero size
/// counted as one: a bound on every partial product.
pub open spec fn dims_bound(shape: Seq<DimSpec>) -> int
    decreases shape.len(),
{
    if shape.len() == 0 {
        1
    } else {
        (if shape[0]->Fixed_0 > 0 { shape[0]->Fixed_0 as int } else { 1 }) * dims_bound(
            shape.drop_first(),
        )
    }
}

proof fn lemma_dims_bound_positive(shape: Seq<DimSpec>)
    ensures
        dims_bound(shape) >= 1,
    decreases shape.len(),
{
    if shape.len() > 0 {
        lemma_dims_bound_positive(shape.drop_first());
        let m: int = if shape[0]->Fixed_0 > 0 { shape[0]->Fixed_0 as int } else { 1 };
        let b = dims_bound(shape.drop_first());
        assert(m * b >= 1) by (nonlinear_arith)
            requires
                m >= 1,
                b >= 1,
        ;
    }
}

proof fn lemma_fixed_len_from(acc: usize, dims: Seq<DimSpec>)
    ensures
        !dims_fixed(dims) ==> fixed_len_from(acc, dims) is None,
        dims_fixed(dims) && acc * dims_bound(dims) <= usize::MAX ==> fixed_len_from(acc, dims)
            == Some((acc * dims_product(dims)) as usize),
    decreases dims.len(),
{
    if dims.len() > 0 {
        let rest = dims.drop_first();
        lemma_dims_bound_positive(rest);
        if !dims_fixed(dims) && dim_fixed(dims[0]) {
            let i = choose|i: int| 0 <= i < dims.len() && !#[trigger] dim_fixed(dims[i]);
            assert(!dim_fixed(rest[i - 1]));
        }
        if dims_fixed(dims) {
            assert forall|i: int| 0 <= i < rest.len() implies #[trigger] dim_fixed(rest[i]) by {
                assert(dim_fixed(dims[i + 1]));
            }
            assert(dim_fixed(dims[0]));
        }
        match dims[0] {
            DimSpec::Fixed(v) => {
                if v >= 0 {
                    let m: int = if v > 0 { v as int } else { 1 };
                    let b = dims_bound(rest);
                    let p = dims_product(rest);
                    let a = acc as int;
                    assert(dims_bound(dims) == m * b);
                    assert(dims_product(dims) == v * p);
                    if dims_fixed(dims) && a * (m * b) <= usize::MAX {
                        if a == 0 {
                            assert(acc * (v as usize) == 0) by (nonlinear_arith)
                                requires
                                    acc == 0,
                            ;
                            let z: usize = 0;
                            assert(z * b == 0);
                            assert(z * p == 0);
                            assert(a * (v * p) == 0) by (nonlinear_arith)
                                requires
                                    a == 0,
                            ;
                            lemma_fixed_len_from(z, rest);
                            assert(fixed_len_from(acc, dims) == fixed_len_from(z, rest));
                        } else {
                            assert(v <= a * (m * b)) by (nonlinear_arith)
                                requires
                                    0 <= v <= m,
                                    b >= 1,
                                    a >= 1,
                            ;
                            assert((a * v) * b <= a * (m * b)) by (nonlinear_arith)
                                requires
                                    0 <= v <= m,
                                    a >= 0,
                                    b >= 1,
                            ;
                            assert(a * v <= (a * v) * b) by (nonlinear_arith)
                                requires
                                    a * v >= 0,
                                    b >= 1,
                            ;
                            assert((a * v) * p == a * (v * p)) by (nonlinear_arith);
                            assert((v as usize) as int == v);
                            let n: usize = (a * v) as usize;
                            assert(n as int == a * v);
                            assert(acc * (v as usize) == a * v);
                            lemma_fixed_len_from(n, rest);
                            assert(fixed_len_from(acc, dims) == fixed_len_from(n, rest));
                            assert(n * p == a * (v * p));
                        }
                    } else {
                        lemma_fixed_len_from((acc * (v as usize)) as usize, rest);
                    }
                }
            },
            _ => {},
        }
    }
}

/// A shape whose dimensions are all fixed and non-negative holds the
/// product of its sizes, where that product with zero sizes counted as one
/// fits in `usize`; a shape with a symbolic, unknown or negative dimension
/// fixes no number of elements.
pub proof fn lemma_fixed_len_product(shape: Seq<DimSpec>)
    ensures
        !dims_fixed(shape) ==> fixed_len(shape) is None,
        dims_fixed(shape) && dims_bound(shape) <= usize::MAX ==> fixed_len(shape) == Some(
            dims_product(shape) as usize,
        ),
{
    lemma_fixed_len_from(1, shape);
}

/// The number of elements a shape of fixed dimensions holds.
fn fixed_len_of(shape: &Vec<Dim>) -> (r: Option<usize>)
    ensures
        r == fixed_len(shape.deep_view()),
{
    let ghost dims = shape.deep_view();
    let mut acc: usize = 1;
    let mut i: usize = 0;
    proof {
        assert(dims.skip(0) =~= dims);
    }
    while i < shape.len()
        invariant
            dims == shape.deep_view(),
            0 <= i <= shape@.len(),
            fixed_len(dims) == fixed_len_from(acc, dims.skip(i as int)),
        decreases shape@.len() - i,
    {
        proof {
            assert(dims.skip(i as int)[0] == dims[i as int]);
            assert(dims.skip(i as int).drop_first() =~= dims.skip(i + 1));
        }
        match &shape[i] {
            Dim::Fixed(v) => {
                if *v < 0 {
                    return None;
                }
                let factor = *v as usize;
                match acc.checked_mul(factor) {
                    Some(p) => {
                        acc = p;
                    },
                    None => {
                        return None;
                    },
                }
            },
            _ => {
                return None;
            },
        }
        i = i + 1;
    }
    proof {
        assert(dims.skip(i as int).len() == 0);
    }
    Some(acc)
}

/// Builds one graph: its inputs, outputs, initializers and nodes, with
/// every name defined once and the operator sets its nodes need.
pub struct GraphBuilder {
    graph: Graph,
    defined: Vec<String>,
    opsets: OpsetTable,
}

impl View for GraphBuilder {
    type V = BuilderSpec;

    closed spec fn view(&self) -> BuilderSpec {
        BuilderSpec {
            graph: self.graph.deep_view(),
            defined: self.defined.deep_view(),
            opsets: self.opsets@,
        }
    }
}

/// The operator sets a graph needs, kept in increasing order of domain.
struct OpsetTable {
    entries: Vec<OpsetId>,
}

impl View for OpsetTable {
    type V = Map<Seq<char>, i64>;

    closed spec fn view(&self) -> Map<Seq<char>, i64> {
        opset_map(self.entries.deep_view())
    }
}

impl OpsetTable {
    /// The entries are in increasing order of domain.
    #[verifier::type_invariant]
    closed spec fn inv(self) -> bool {
        opsets_sorted(self.entries.deep_view())
    }

    /// A table with no operator set.
    fn new() -> (r: Self)
        ensures
            r@ == Map::<Seq<char>, i64>::empty(),
    {
        let r = OpsetTable { entries: Vec::new() };
        proof {
            assert(r.entries.deep_view() =~= Seq::<OpsetIdSpec>::empty());
        }
        r
    }

    /// The entries, in increasing order of domain.
    fn to_entries(&self) -> (r: Vec<OpsetId>)
        ensures
            opsets_sorted(r.deep_view()),
            opset_map(r.deep_view()) == self@,
    {
        proof {
            use_type_invariant(self);
        }
        let r = self.entries.clone();
        proof {
            assert(r.deep_view() =~= self.entries.deep_view());
        }
        r
    }

    /// Declares `domain` at `version` at least.
    fn declare(&mut self, domain: String, version: i64)
        ensures
            final(self)@ == declared(old(self)@, domain@, version),
    {
        proof {
            use_type_invariant(&*self);
        }
        let ghost s = self.entries.deep_view();
        proof {
            lemma_sorted_distinct(s);
            lemma_opset_map_lookup(s);
        }
        let (slot, found) = opset_slot(&self.entries, domain.as_str());
        if found {
            if version > self.entries[slot].version {
                let entry = OpsetId { domain, version };
                let mut opsets: Vec<OpsetId> = Vec::new();
                std::mem::swap(&mut opsets, &mut self.entries);
                opsets.set(slot, entry);
                proof {
                    assert(opsets.deep_view() =~= s.update(
                        slot as int,
                        OpsetIdSpec { domain: s[slot as int].domain, version },
                    ));
                    lemma_opset_map_update(s, slot as int, version);
                    assert forall|i: int, j: int|
                        0 <= i < j < opsets.deep_view().len() implies bytes_less(
                        #[trigger] domain_key(opsets.deep_view()[i].domain),
                        #[trigger] domain_key(opsets.deep_view()[j].domain),
                    ) by {
                        assert(opsets.deep_view()[i].domain == s[i].domain);
                        assert(opsets.deep_view()[j].domain == s[j].domain);
                    }
                }
                self.entries = opsets;
            }
        } else {
            let x = OpsetId { domain, version };
            let ghost xv = x.deep_view();
            let mut opsets: Vec<OpsetId> = Vec::new();
            std::mem::swap(&mut opsets, &mut self.entries);
            opsets.insert(slot, x);
            proof {
                let t = opsets.deep_view();
                assert(t =~= s.insert(slot as int, xv));
                let p = slot as int;
                assert forall|i: int| 0 <= i < s.len() implies s[i].domain != xv.domain by {
                    lemma_bytes_less_irreflexive(domain_key(xv.domain));
                    if i < p {
                        assert(bytes_less(domain_key(s[i].domain), domain_key(xv.domain)));
                    } else if i == p {
                        assert(bytes_less(domain_key(xv.domain), domain_key(s[p].domain)));
                    } else {
                        assert(bytes_less(domain_key(s[p].domain), domain_key(s[i].domain)));
                        lemma_bytes_less_transitive(
                            domain_key(xv.domain),
                            domain_key(s[p].domain),
                            domain_key(s[i].domain),
                        );
                    }
                }
                lemma_opset_map_insert(s, p, xv);
                lemma_opset_map_absent(s, xv.domain);
                assert forall|i: int, j: int| 0 <= i < j < t.len() implies bytes_less(
                    #[trigger] domain_key(t[i].domain),
                    #[trigger] domain_key(t[j].domain),
                ) by {
                    if j < p {
                        assert(t[i] == s[i] && t[j] == s[j]);
                    } else if j == p {
                        assert(t[i] == s[i] && t[j] == xv);
                    } else if i < p {
                        assert(t[i] == s[i] && t[j] == s[j - 1]);
                    } else if i == p {
                        assert(t[i] == xv && t[j] == s[j - 1]);
                        if j - 1 > p {
                            lemma_bytes_less_transitive(
                                domain_key(xv.domain),
                                domain_key(s[p].domain),
                                domain_key(s[j - 1].domain),
                            );
                        }
                    } else {
                        assert(t[i] == s[i - 1] && t[j] == s[j - 1]);
                    }
                }
            }
            self.entries = opsets;
        }
    }
}

impl GraphBuilder {
    /// A builder of an empty graph with the given name.
    pub fn new(name: String) -> (r: Self)
        ensures
            r@ == (BuilderSpec {
                graph: crate::ir::graph::spec_empty_graph(name@),
                defined: Seq::empty(),
                opsets: Map::empty(),
            }),
    {
        let r = GraphBuilder {
            graph: Graph::new(name),
            defined: Vec::new(),
            opsets: OpsetTable::new(),
        };
        proof {
            assert(r.defined.deep_view() =~= Seq::<Seq<char>>::empty());
        }
        r
    }

    /// The name of the graph.
    pub fn graph_name(&self) -> (r: &str)
        ensures
            r@ == self@.graph.name,
    {
        self.graph.name.as_str()
    }

    /// Declares that the graph needs `domain` at `version` at least.
    pub fn declare_opset(&mut self, domain: String, version: i64)
        ensures
            final(self)@ == (BuilderSpec {
                opsets: declared(old(self)@.opsets, domain@, version),
                ..old(self)@
            }),
    {
        self.opsets.declare(domain, version);
    }

    /// Declares the operator set a node of `domain` needs, where the library
    /// knows it.
    fn track_opset_for_domain(&mut self, domain: &str)
        ensures
            final(self)@ == (BuilderSpec { opsets: opset_for_domain(old(self)@.opsets, domain@), ..old(self)@ }),
    {
        if str_eq(domain, ONNX_DOMAIN_STR) {
            self.declare_opset(String::from_str(domain), CORE_TYPED_OPSET_TARGET);
        } else if str_eq(domain, ML_DOMAIN_STR) {
            self.declare_opset(String::from_str(domain), ML_EXPORT_OPSET_TARGET);
        }
    }

    /// Whether a name is already defined.
    fn is_defined(&self, name: &str) -> (r: bool)
        ensures
            r == self@.defined.contains(name@),
    {
        let mut i: usize = 0;
        while i < self.defined.len()
            invariant
                0 <= i <= self.defined@.len(),
                forall|j: int| 0 <= j < i ==> self.defined.deep_view()[j] != name@,
            decreases self.defined@.len() - i,
        {
            if str_eq(self.defined[i].as_str(), name) {
                proof {
                    assert(self.defined.deep_view()[i as int] == name@);
                }
                return true;
            }
            i = i + 1;
        }
        false
    }

    /// Claims a name for a new value.
    fn claim(&mut self, name: &str) -> (r: Result<(), ExportError>)
        ensures
            match claim_name(old(self)@.defined, name@) {
                Ok(d) => r is Ok && final(self)@ == (BuilderSpec { defined: d, ..old(self)@ }),
                Err(n) => r matches Err(x) && x.deep_view() == ExportErrorSpec::DuplicateName(n)
                    && final(self)@ == old(self)@,
            },
    {
        if name.unicode_len() == 0 {
            return Ok(());
        }
        if self.is_defined(name) {
            return Err(ExportError::DuplicateName(String::from_str(name)));
        }
        let ghost before = self.defined.deep_view();
        self.defined.push(String::from_str(name));
        proof {
            assert(self.defined.deep_view() =~= before.push(name@));
            assert(self@ =~= BuilderSpec { defined: before.push(name@), ..old(self)@ });
        }
        Ok(())
    }

    /// Claims each name in turn, stopping at the first already defined.
    fn claim_each(&mut self, names: &Vec<String>) -> (r: Result<(), ExportError>)
        ensures
            ({
                let (d, e) = claim_all(old(self)@.defined, names.deep_view());
                &&& final(self)@ == (BuilderSpec { defined: d, ..old(self)@ })
                &&& match e {
                    Some(n) => r matches Err(x) && x.deep_view() == ExportErrorSpec::DuplicateName(n),
                    None => r is Ok,
                }
            }),
    {
        let ghost b = self@;
        let mut k: usize = 0;
        proof {
            assert(names.deep_view().take(0) =~= Seq::<Seq<char>>::empty());
        }
        while k < names.len()
            invariant
                0 <= k <= names@.len(),
                claim_all(b.defined, names.deep_view().take(k as int)) == (
                    self@.defined,
                    None::<Seq<char>>,
                ),
                self@ == (BuilderSpec { defined: self@.defined, ..b }),
                b == old(self)@,
            decreases names@.len() - k,
        {
            let ghost d0 = self@.defined;
            proof {
                assert(names.deep_view().take(k + 1).drop_last() =~= names.deep_view().take(
                    k as int,
                ));
            }
            proof {
                assert(names.deep_view().take(k + 1).last() == names.deep_view()[k as int]);
            }
            match self.claim(names[k].as_str()) {
                Ok(()) => {},
                Err(e) => {
                    proof {
                        lemma_claim_all_stops(b.defined, names.deep_view(), k as int + 1);
                    }
                    return Err(e);
                },
            }
            proof {
                assert(self@ =~= BuilderSpec { defined: self@.defined, ..b });
            }
            k = k + 1;
        }
        proof {
            assert(names.deep_view().take(k as int) =~= names.deep_view());
        }
        Ok(())
    }

    /// Adds a graph input. Its name must not be defined yet.
    pub fn input(&mut self, name: String, value_type: ValueType) -> (r: Result<ValueRef, ExportError>)
        ensures
            match claim_name(old(self)@.defined, name@) {
                Ok(d) => r matches Ok(v) && v.deep_view() == name@ && final(self)@ == (BuilderSpec {
                    graph: GraphSpec {
                        inputs: old(self)@.graph.inputs.push(
                            ValueInfoSpec {
                                name: name@,
                                value_type: Some(value_type.deep_view()),
                                doc_string: Seq::empty(),
                            },
                        ),
                        ..old(self)@.graph
                    },
                    defined: d,
                    ..old(self)@
                }),
                Err(n) => r matches Err(x) && x.deep_view() == ExportErrorSpec::DuplicateName(n)
                    && final(self)@ == old(self)@,
            },
    {
        match self.claim(name.as_str()) {
            Ok(()) => {},
            Err(e) => {
                return Err(e);
            },
        }
        let ghost mid = self@;
        let info = ValueInfo::new(name.clone(), value_type);
        let ghost iv = info.deep_view();
        self.graph.inputs.push(info);
        proof {
            assert(self@.graph.inputs =~= mid.graph.inputs.push(iv));
            assert(self@ =~= BuilderSpec {
                graph: GraphSpec { inputs: mid.graph.inputs.push(iv), ..mid.graph },
                ..mid
            });
        }
        Ok(ValueRef(name))
    }

    /// Adds a graph output; outputs name values defined elsewhere.
    pub fn output(&mut self, name: String, value_type: ValueType) -> (r: Result<ValueRef, ExportError>)
        ensures
            r matches Ok(v) && v.deep_view() == name@,
            final(self)@ == (BuilderSpec {
                graph: GraphSpec {
                    outputs: old(self)@.graph.outputs.push(
                        ValueInfoSpec {
                            name: name@,
                            value_type: Some(value_type.deep_view()),
                            doc_string: Seq::empty(),
                        },
                    ),
                    ..old(self)@.graph
                },
                ..old(self)@
            }),
    {
        let ghost mid = self@;
        let info = ValueInfo::new(name.clone(), value_type);
        let ghost iv = info.deep_view();
        self.graph.outputs.push(info);
        proof {
            assert(self@.graph.outputs =~= mid.graph.outputs.push(iv));
            assert(self@ =~= BuilderSpec {
                graph: GraphSpec { outputs: mid.graph.outputs.push(iv), ..mid.graph },
                ..mid
            });
        }
        Ok(ValueRef(name))
    }

    /// Adds an initializer of the given shape holding `data`. Where the
    /// shape fixes the number of elements and the data has a number of
    /// elements, the two must agree; the name must not be defined yet.
    pub fn initializer(&mut self, name: String, shape: Vec<Dim>, data: TensorData) -> (r: Result<
        ValueRef,
        ExportError,
    >)
        ensures
            ({
                let count = data.deep_view().count();
                let expected = fixed_len(shape.deep_view());
                if expected is Some && count is Some && count->0 != expected->0 as nat {
                    &&& r matches Err(x) && x.deep_view() == (ExportErrorSpec::LengthMismatch {
                        name: name@,
                        expected: expected->0,
                        got: count->0 as usize,
                    })
                    &&& final(self)@ == old(self)@
                } else {
                    match claim_name(old(self)@.defined, name@) {
                        Ok(d) => r matches Ok(v) && v.deep_view() == name@ && final(self)@ == (
                        BuilderSpec {
                            graph: with_initializer(
                                old(self)@.graph,
                                TensorSpec {
                                    name: name@,
                                    elem: data.deep_view().elem(),
                                    shape: shape.deep_view(),
                                    data: TensorStorageSpec::Inline(data.deep_view()),
                                    doc_string: Seq::empty(),
                                },
                            ),
                            defined: d,
                            ..old(self)@
                        }),
                        Err(n) => r matches Err(x) && x.deep_view() == ExportErrorSpec::DuplicateName(
                            n,
                        ) && final(self)@ == old(self)@,
                    }
                }
            }),
    {
        match (fixed_len_of(&shape), data.len()) {
            (Some(expected), Some(got)) => {
                if expected != got {
                    return Err(ExportError::LengthMismatch { name, expected, got });
                }
            },
            _ => {},
        }
        match self.claim(name.as_str()) {
            Ok(()) => {},
            Err(e) => {
                return Err(e);
            },
        }
        let ghost mid = self@;
        let elem = data.elem_type();
        let tensor = Tensor::new(name.clone(), elem, shape, data);
        let ghost tv = tensor.deep_view();
        self.graph.initializers.push(tensor);
        proof {
            assert(self@.graph.initializers =~= mid.graph.initializers.push(tv));
            assert(self@ =~= BuilderSpec { graph: with_initializer(mid.graph, tv), ..mid });
        }
        Ok(ValueRef(name))
    }

    /// Adds a tensor as an initializer; its name must not be defined yet.
    pub fn initializer_tensor(&mut self, tensor: Tensor) -> (r: Result<ValueRef, ExportError>)
        ensures
            match claim_name(old(self)@.defined, tensor.name@) {
                Ok(d) => r matches Ok(v) && v.deep_view() == tensor.name@ && final(self)@ == (
                BuilderSpec {
                    graph: with_initializer(old(self)@.graph, tensor.deep_view()),
                    defined: d,
                    ..old(self)@
                }),
                Err(n) => r matches Err(x) && x.deep_view() == ExportErrorSpec::DuplicateName(n)
                    && final(self)@ == old(self)@,
            },
    {
        let name = tensor.name.clone();
        match self.claim(name.as_str()) {
            Ok(()) => {},
            Err(e) => {
                return Err(e);
            },
        }
        let ghost mid = self@;
        let ghost tv = tensor.deep_view();
        self.graph.initializers.push(tensor);
        proof {
            assert(self@.graph.initializers =~= mid.graph.initializers.push(tv));
            assert(self@ =~= BuilderSpec { graph: with_initializer(mid.graph, tv), ..mid });
        }
        Ok(ValueRef(name))
    }

    /// Adds a node of the given operator, naming its outputs after the node's
    /// index and the operator: `node_{index}_{stem}_out`, or with `_{k}`
    /// after it for output `k` when there are several. Each output name is
    /// claimed in turn; at the first that is already defined the node is not
    /// added, and the names claimed before it stay claimed.
    pub fn push_node(
        &mut self,
        op_type: &str,
        domain: &str,
        inputs: Vec<String>,
        attributes: Vec<Attribute>,
        num_outputs: usize,
    ) -> (r: Result<Vec<ValueRef>, ExportError>)
        ensures
            ({
                let b = old(self)@;
                let names = output_names(
                    b.graph.nodes.len(),
                    name_stem(op_type@),
                    num_outputs as nat,
                );
                let (d, e) = claim_all(b.defined, names);
                match e {
                    Some(n) => r matches Err(x) && x.deep_view() == ExportErrorSpec::DuplicateName(n)
                        && final(self)@ == (BuilderSpec { defined: d, ..b }),
                    None => r matches Ok(v) && v.deep_view() == names && final(self)@ == (
                    BuilderSpec {
                        graph: with_node(
                            b.graph,
                            plain_node(
                                op_type@,
                                domain@,
                                inputs.deep_view(),
                                names,
                                attributes.deep_view(),
                            ),
                        ),
                        defined: d,
                        opsets: opset_for_domain(b.opsets, domain@),
                    }),
                }
            }),
    {
        let index = self.graph.nodes.len();
        let outputs = make_output_names(index, op_type, num_outputs);
        match self.claim_each(&outputs) {
            Ok(()) => {},
            Err(e) => {
                return Err(e);
            },
        }
        let node_outputs = outputs.clone();
        proof {
            assert(node_outputs.deep_view() =~= outputs.deep_view());
        }
        let node = Node::new(
            String::from_str(op_type),
            String::from_str(domain),
            inputs,
            node_outputs,
            attributes,
        );
        self.track_opset_for_domain(domain);
        let ghost mid = self@;
        let ghost nv = node.deep_view();
        self.graph.nodes.push(node);
        proof {
            assert(self@.graph.nodes =~= mid.graph.nodes.push(nv));
            assert(self@ =~= BuilderSpec { graph: with_node(mid.graph, nv), ..mid });
        }
        Ok(value_refs(outputs))
    }

    /// Adds each initializer of an emitted node in turn.
    #[verifier::loop_isolation(false)]
    fn add_emitted_initializers(&mut self, initializers: Vec<Tensor>) -> (r: Result<(), ExportError>)
        ensures
            ({
                let (b, e) = add_initializers(old(self)@, initializers.deep_view());
                &&& final(self)@ == b
                &&& match e {
                    Some(n) => r matches Err(x) && x.deep_view() == ExportErrorSpec::DuplicateName(n),
                    None => r is Ok,
                }
            }),
    {
        let ghost b0 = self@;
        let ghost ts = initializers.deep_view();
        let mut rest = initializers;
        let mut k: usize = 0;
        let n = rest.len();
        proof {
            assert(ts.len() == n);
            assert(ts.take(0) =~= Seq::<TensorSpec>::empty());
            assert(rest.deep_view() =~= ts.skip(0));
        }
        while rest.len() > 0
            invariant
                k + rest@.len() == ts.len(),
                rest.deep_view() == ts.skip(k as int),
                add_initializers(b0, ts.take(k as int)) == (self@, None::<Seq<char>>),
                b0 == old(self)@,
                ts.len() <= usize::MAX,
            decreases rest@.len(),
        {
            let ghost before = rest.deep_view();
            let tensor = rest.remove(0);
            proof {
                assert(tensor.deep_view() == before[0]);
                assert(tensor.deep_view() == ts[k as int]);
                assert(rest.deep_view() =~= before.drop_first());
                assert(rest.deep_view() =~= ts.skip(k + 1));
                assert(ts.take(k + 1).drop_last() =~= ts.take(k as int));
                assert(ts.take(k + 1).last() == ts[k as int]);
            }
            let name = tensor.name.clone();
            let ghost pre = self@;
            match self.claim(name.as_str()) {
                Ok(()) => {},
                Err(e) => {
                    proof {
                        assert(name@ == ts[k as int].name);
                        assert(claim_name(pre.defined, ts[k as int].name) is Err);
                        assert(add_initializers(b0, ts.take(k + 1)) == (pre, Some(name@)));
                        lemma_add_initializers_stops(b0, ts, k as int + 1);
                    }
                    return Err(e);
                },
            }
            let ghost mid = self@;
            self.graph.initializers.push(tensor);
            proof {
                assert(self@.graph.initializers =~= mid.graph.initializers.push(ts[k as int]));
                assert(self@ =~= BuilderSpec {
                    graph: with_initializer(mid.graph, ts[k as int]),
                    ..mid
                });
                assert(ts.take(k + 1).last() == ts[k as int]);
            }
            k = k + 1;
        }
        proof {
            assert(ts.take(k as int) =~= ts);
        }
        Ok(())
    }

    /// Takes an emitted node: adds its initializers, claims its outputs,
    /// adds the node and declares its domain's operator set.
    fn push_emitted(&mut self, emitted: Emitted) -> (r: Result<(), ExportError>)
        ensures
            ({
                let (b, e) = push_emitted_spec(old(self)@, emitted.deep_view());
                &&& final(self)@ == b
                &&& match e {
                    Some(n) => r matches Err(x) && x.deep_view() == ExportErrorSpec::DuplicateName(n),
                    None => r is Ok,
                }
            }),
    {
        let Emitted { node, initializers } = emitted;
        match self.add_emitted_initializers(initializers) {
            Ok(()) => {},
            Err(e) => {
                return Err(e);
            },
        }
        match self.claim_each(&node.outputs) {
            Ok(()) => {},
            Err(e) => {
                return Err(e);
            },
        }
        self.track_opset_for_domain(node.domain.as_str());
        let ghost mid = self@;
        let ghost nv = node.deep_view();
        self.graph.nodes.push(node);
        proof {
            assert(self@.graph.nodes =~= mid.graph.nodes.push(nv));
            assert(self@ =~= BuilderSpec { graph: with_node(mid.graph, nv), ..mid });
        }
        Ok(())
    }

    /// Adds the node of a typed operator applied to `inputs`, with outputs
    /// named as [`GraphBuilder::push_node`] names them. An operator that
    /// cannot be converted leaves the builder as it was.
    pub fn emit_op<O: OnnxOp>(&mut self, op: &O, inputs: Vec<ValueRef>, num_outputs: usize) -> (r:
        Result<Vec<ValueRef>, ExportError>)
        ensures
            ({
                let b = old(self)@;
                let names = output_names(b.graph.nodes.len(), name_stem(O::op_name()), num_outputs as nat);
                match op.emits(inputs.deep_view(), names) {
                    Err(e) => r matches Err(x) && x.deep_view() == ExportErrorSpec::Op(e)
                        && final(self)@ == b,
                    Ok(em) => {
                        let (b2, e) = push_emitted_spec(b, em);
                        &&& final(self)@ == b2
                        &&& match e {
                            Some(n) => r matches Err(x) && x.deep_view()
                                == ExportErrorSpec::DuplicateName(n),
                            None => r matches Ok(v) && v.deep_view() == names,
                        }
                    },
                }
            }),
    {
        let index = self.graph.nodes.len();
        let outputs = make_output_names(index, O::op_type(), num_outputs);
        let node_outputs = outputs.clone();
        proof {
            assert(node_outputs.deep_view() =~= outputs.deep_view());
        }
        let emitted = match op.to_node(ref_names(inputs), node_outputs) {
            Ok(em) => em,
            Err(e) => {
                return Err(ExportError::Op(e));
            },
        };
        match self.push_emitted(emitted) {
            Ok(()) => {},
            Err(e) => {
                return Err(e);
            },
        }
        Ok(value_refs(outputs))
    }

    /// The graph built and the operator sets it needs, in increasing order
    /// of domain.
    pub fn finish(self) -> (r: (Graph, Vec<OpsetId>))
        ensures
            r.0.deep_view() == self@.graph,
            opsets_sorted(r.1.deep_view()),
            opset_map(r.1.deep_view()) == self@.opsets,
    {
        let opsets = self.opsets.to_entries();
        (self.graph, opsets)
    }

    /// The operator sets the graph needs so far, in increasing order of
    /// domain.
    pub fn opset_import(&self) -> (r: Vec<OpsetId>)
        ensures
            opsets_sorted(r.deep_view()),
            opset_map(r.deep_view()) == self@.opsets,
    {
        self.opsets.to_entries()
    }
}

/// Once a name was found already defined, claiming more names changes
/// nothing.
proof fn lemma_claim_all_stops(defined: Seq<Seq<char>>, names: Seq<Seq<char>>, k: int)
    requires
        0 <= k <= names.len(),
        claim_all(defined, names.take(k)).1 is Some,
    ensures
        claim_all(defined, names) == claim_all(defined, names.take(k)),
    decreases names.len(),
{
    if names.len() == k {
        assert(names.take(k) =~= names);
    } else {
        assert(names.drop_last().take(k) =~= names.take(k));
        lemma_claim_all_stops(defined, names.drop_last(), k);
    }
}

/// Once an initializer's name was found already defined, adding more
/// initializers changes nothing.
proof fn lemma_add_initializers_stops(b: BuilderSpec, ts: Seq<TensorSpec>, k: int)
    requires
        0 <= k <= ts.len(),
        add_initializers(b, ts.take(k)).1 is Some,
    ensures
        add_initializers(b, ts) == add_initializers(b, ts.take(k)),
    decreases ts.len(),
{
    if ts.len() == k {
        assert(ts.take(k) =~= ts);
    } else {
        assert(ts.drop_last().take(k) =~= ts.take(k));
        lemma_add_initializers_stops(b, ts.drop_last(), k);
    }
}

/// Claiming a name never defines it twice: the names defined stay distinct.
pub proof fn lemma_claim_keeps_distinct(defined: Seq<Seq<char>>, name: Seq<char>)
    requires
        defined.no_duplicates(),
    ensures
        claim_name(defined, name) matches Ok(d) ==> d.no_duplicates(),
{
    if name.len() > 0 && !defined.contains(name) {
        let d = defined.push(name);
        assert forall|i: int, j: int| 0 <= i < d.len() && 0 <= j < d.len() && i != j implies d[i]
            != d[j] by {
            if i == d.len() - 1 {
                assert(defined.contains(d[j]) ==> d[j] != name);
                assert(defined[j] == d[j]);
            } else if j == d.len() - 1 {
                assert(defined[i] == d[i]);
            }
        }
    }
}

/// Claiming names in turn never defines one twice.
pub proof fn lemma_claims_keep_distinct(defined: Seq<Seq<char>>, names: Seq<Seq<char>>)
    requires
        defined.no_duplicates(),
    ensures
        claim_all(defined, names).0.no_duplicates(),
    decreases names.len(),
{
    if names.len() > 0 {
        lemma_claims_keep_distinct(defined, names.drop_last());
        let (d, e) = claim_all(defined, names.drop_last());
        if e is None {
            lemma_claim_keeps_distinct(d, names.last());
        }
    }
}

/// Adding initializers never defines a name twice.
pub proof fn lemma_initializers_keep_distinct(b: BuilderSpec, ts: Seq<TensorSpec>)
    requires
        b.defined.no_duplicates(),
    ensures
        add_initializers(b, ts).0.defined.no_duplicates(),
    decreases ts.len(),
{
    if ts.len() > 0 {
        lemma_initializers_keep_distinct(b, ts.drop_last());
        let (b1, e) = add_initializers(b, ts.drop_last());
        if e is None {
            lemma_claim_keeps_distinct(b1.defined, ts.last().name);
        }
    }
}

/// Taking an emitted node never defines a name twice: of the values of a
/// graph being built, none is defined by two of its inputs, initializers
/// or node outputs.
pub proof fn lemma_emit_keeps_distinct(b: BuilderSpec, em: EmittedSpec)
    requires
        b.defined.no_duplicates(),
    ensures
        push_emitted_spec(b, em).0.defined.no_duplicates(),
{
    lemma_initializers_keep_distinct(b, em.initializers);
    let (b1, e1) = add_initializers(b, em.initializers);
    if e1 is None {
        lemma_claims_keep_distinct(b1.defined, em.node.outputs);
    }
}

impl OpSink for GraphBuilder {
    type Error = ExportError;

    open spec fn reports(e: OpErrorSpec, err: ExportError) -> bool {
        err.deep_view() == ExportErrorSpec::Op(e)
    }

    open spec fn takes(
        before: GraphBuilder,
        em: EmittedSpec,
        after: GraphBuilder,
        r: Result<(Vec<String>, Vec<String>), ExportError>,
    ) -> bool {
        let (b, e) = push_emitted_spec(before@, em);
        &&& after@ == b
        &&& match e {
            Some(n) => r matches Err(x) && x.deep_view() == ExportErrorSpec::DuplicateName(n),
            None => r matches Ok(io) && io.0.deep_view() == em.node.inputs
                && io.1.deep_view() == em.node.outputs,
        }
    }

    fn op_error(e: OpError) -> (r: ExportError)
        ensures
            r.deep_view() == ExportErrorSpec::Op(e.deep_view()),
    {
        ExportError::Op(e)
    }

    fn emit(&mut self, emitted: Emitted) -> (r: Result<(Vec<String>, Vec<String>), ExportError>)
        ensures
            ({
                let (b, e) = push_emitted_spec(old(self)@, emitted.deep_view());
                &&& final(self)@ == b
                &&& match e {
                    Some(n) => r matches Err(x) && x.deep_view() == ExportErrorSpec::DuplicateName(n),
                    None => r matches Ok(io) && io.0.deep_view() == emitted.node.inputs.deep_view()
                        && io.1.deep_view() == emitted.node.outputs.deep_view(),
                }
            }),
    {
        let inputs = emitted.node.inputs.clone();
        let outputs = emitted.node.outputs.clone();
        proof {
            assert(inputs.deep_view() =~= emitted.node.inputs.deep_view());
            assert(outputs.deep_view() =~= emitted.node.outputs.deep_view());
        }
        match self.push_emitted(emitted) {
            Ok(()) => Ok((inputs, outputs)),
            Err(e) => Err(e),
        }
    }
}

// ---------------------------------------------------------------------------
// Exporting a model
// ---------------------------------------------------------------------------
/// Something that builds its graph with a [`GraphBuilder`].
pub trait ToOnnx {
    /// Whether adding this value's nodes may turn a builder `before` into
    /// `after` and answer `r`. An implementation that says nothing of this
    /// promises nothing.
    closed spec fn builds(
        &self,
        before: BuilderSpec,
        after: BuilderSpec,
        r: Result<ValueRef, ExportError>,
    ) -> bool {
        true
    }

    /// Adds this value's nodes to the graph and answers with its output.
    fn to_graph(&self, builder: &mut GraphBuilder) -> (r: Result<ValueRef, ExportError>)
        ensures
            self.builds(old(builder)@, final(builder)@, r),
    ;
}

/// A builder with an empty graph of the given name and nothing defined.
pub open spec fn fresh_builder(name: Seq<char>) -> BuilderSpec {
    BuilderSpec {
        graph: crate::ir::graph::spec_empty_graph(name),
        defined: Seq::empty(),
        opsets: Map::empty(),
    }
}

/// Whether a graph validates with no error: it meets the conditions that
/// validation checks.
pub open spec fn graph_valid(g: GraphSpec) -> bool {
    graph_conditions(g)
}

/// A graph validates with no error exactly when its report is empty.
proof fn lemma_graph_valid(g: GraphSpec, e: Seq<ValidationErrorSpec>)
    requires
        is_report_of(g, e),
    ensures
        e.len() == 0 <==> graph_valid(g),
{
    lemma_report_empty(g, e);
}

/// Whether `r` is what exporting the graph built in `b` gives: the model of
/// the graph and the operator sets it needs, in increasing order of domain,
/// when the graph validates, and otherwise every problem found.
pub open spec fn export_outcome(b: BuilderSpec, r: Result<Model, ExportError>) -> bool {
    match r {
        Ok(m) => {
            &&& graph_valid(b.graph)
            &&& m.deep_view() == (ModelSpec {
                ir_version: IR_VERSION,
                opset_import: m.opset_import.deep_view(),
                producer_name: "serde-onnx"@,
                producer_version: PRODUCER_VERSION@,
                domain: Seq::empty(),
                model_version: 0,
                doc_string: Seq::empty(),
                metadata: Seq::empty(),
                graph: b.graph,
                functions_raw: Seq::empty(),
                training_info_raw: Seq::empty(),
                configurations: Seq::empty(),
            })
            &&& opsets_sorted(m.opset_import.deep_view())
            &&& opset_map(m.opset_import.deep_view()) == b.opsets
        },
        Err(ExportError::Validation(errs)) => !graph_valid(b.graph) && is_report_of(
            b.graph,
            errs.deep_view(),
        ),
        Err(_) => false,
    }
}

/// Builds the graph of `value` under the given name, as a model of this
/// library importing the operator sets its nodes need. A graph that does
/// not validate is refused with every problem found.
pub fn export_model<T: ToOnnx>(value: &T, graph_name: String) -> (r: Result<Model, ExportError>)
    ensures
        r matches Ok(m) ==> is_report_of(m.graph.deep_view(), Seq::empty())
            && opsets_sorted(m.opset_import.deep_view()) && m.ir_version == IR_VERSION,
        exists|after: BuilderSpec, built: Result<ValueRef, ExportError>|
            #[trigger] value.builds(fresh_builder(graph_name@), after, built) && match built {
                Err(e) => r == Err::<Model, ExportError>(e),
                Ok(_) => export_outcome(after, r),
            },
{
    let ghost name = graph_name@;
    let mut builder = GraphBuilder::new(graph_name);
    let built = value.to_graph(&mut builder);
    let ghost built_g = built;
    let ghost after = builder@;
    match built {
        Ok(_) => {},
        Err(e) => {
            let r = Err(e);
            proof {
                assert(value.builds(fresh_builder(name), after, built_g));
                assert(built_g == Err::<ValueRef, ExportError>(e));
                assert(r == Err::<Model, ExportError>(e));
            }
            return r;
        },
    }
    let (graph, opsets) = builder.finish();
    let model = Model::new(graph, opsets);
    let report = validate_model(&model);
    proof {
        lemma_graph_valid(after.graph, report.errors.deep_view());
        assert(value.builds(fresh_builder(name), after, built_g));
    }
    if !report.is_ok() {
        let r = Err(ExportError::Validation(report.errors));
        proof {
            assert(export_outcome(after, r));
        }
        return r;
    }
    proof {
        assert(report.errors.deep_view() =~= Seq::<ValidationErrorSpec>::empty());
        assert(graph_valid(after.graph));
        assert(model.graph.deep_view() == after.graph);
        assert(export_outcome(after, Ok::<Model, ExportError>(model)));
    }
    Ok(model)
}

} // verus!
