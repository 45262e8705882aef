//! Attribute schemas: how an operator's attributes are read from a node and
//! written to one.
use super::{Emitted, EmittedSpec, OpError, OpErrorSpec};
use crate::ir::{
    first_named, lemma_first_named, spec_attribute, Attribute, AttributeSpec, AttributeValue,
    AttributeValueSpec, Node, NodeSpec, TensorSpec,
};
use crate::text::{concat, decimal, str_eq, usize_to_string};
use vstd::prelude::*;

verus! {

/// The kind of value an operator expects in an attribute.
#[derive(Clone, Copy, Debug, PartialEq, Eq, Structural)]
pub enum AttrKind {
    Float,
    Int,
    Str,
    Tensor,
    Floats,
    Ints,
    Strings,
}

/// One attribute of an operator's schema.
#[derive(Clone, Copy, Debug)]
pub struct Field {
    pub name: &'static str,
    pub kind: AttrKind,
    pub required: bool,
}

/// How many inputs or outputs an operator takes.
#[derive(Clone, Copy, Debug, PartialEq, Eq, Structural)]
pub enum Arity {
    Exactly(usize),
    Between(usize, usize),
    AtLeast(usize),
}

/// Whether a value has the kind an attribute expects.
pub open spec fn kind_matches(v: AttributeValueSpec, k: AttrKind) -> bool {
    match k {
        AttrKind::Float => v is Float,
        AttrKind::Int => v is Int,
        AttrKind::Str => v is String,
        AttrKind::Tensor => v is Tensor,
        AttrKind::Floats => v is Floats,
        AttrKind::Ints => v is Ints,
        AttrKind::Strings => v is Strings,
    }
}

/// The name of a kind, as errors report it.
pub open spec fn kind_label(k: AttrKind) -> Seq<char> {
    match k {
        AttrKind::Float => "float"@,
        AttrKind::Int => "int"@,
        AttrKind::Str => "string"@,
        AttrKind::Tensor => "tensor"@,
        AttrKind::Floats => "floats"@,
        AttrKind::Ints => "ints"@,
        AttrKind::Strings => "strings"@,
    }
}

/// Whether a count is allowed.
pub open spec fn arity_ok(a: Arity, n: nat) -> bool {
    match a {
        Arity::Exactly(k) => n == k,
        Arity::Between(lo, hi) => lo <= n <= hi,
        Arity::AtLeast(lo) => lo <= n,
    }
}

/// How an arity is written in errors: `1`, `1..=2`, `1..`.
pub open spec fn arity_label(a: Arity) -> Seq<char> {
    match a {
        Arity::Exactly(k) => decimal(k as nat),
        Arity::Between(lo, hi) => decimal(lo as nat) + "..="@ + decimal(hi as nat),
        Arity::AtLeast(lo) => decimal(lo as nat) + ".."@,
    }
}

/// The first count error of an operator applied to `n_in` inputs and
/// `n_out` outputs, inputs first.
pub open spec fn arity_error(
    op: Seq<char>,
    n_in: nat,
    n_out: nat,
    ins: Arity,
    outs: Arity,
) -> Option<OpErrorSpec> {
    if !arity_ok(ins, n_in) {
        Some(OpErrorSpec::WrongInputCount { op, expected: arity_label(ins), got: n_in as usize })
    } else if !arity_ok(outs, n_out) {
        Some(OpErrorSpec::WrongOutputCount { op, expected: arity_label(outs), got: n_out as usize })
    } else {
        None
    }
}

/// The names of a list of attributes.
pub open spec fn entry_names(entries: Seq<AttributeSpec>) -> Seq<Seq<char>> {
    entries.map_values(|a: AttributeSpec| a.name)
}

/// The error for the first attribute whose name repeats an earlier one.
pub open spec fn dup_error(op: Seq<char>, names: Seq<Seq<char>>) -> Option<OpErrorSpec>
    decreases names.len(),
{
    if names.len() == 0 {
        None
    } else {
        match dup_error(op, names.drop_last()) {
            Some(e) => Some(e),
            None => if names.drop_last().contains(names.last()) {
                Some(OpErrorSpec::DuplicateAttribute { op, attr: names.last() })
            } else {
                None
            },
        }
    }
}

/// Puts a value in front of the values of a successful parse.
pub open spec fn prepend_value(
    v: Option<AttributeValueSpec>,
    r: Result<(Seq<Option<AttributeValueSpec>>, Seq<AttributeSpec>), OpErrorSpec>,
) -> Result<(Seq<Option<AttributeValueSpec>>, Seq<AttributeSpec>), OpErrorSpec> {
    match r {
        Ok((vs, rest)) => Ok((seq![v] + vs, rest)),
        Err(e) => Err(e),
    }
}

/// Takes one field out of a list of attributes with distinct names: the
/// value of the attribute of that name (`None` when there is none) and the
/// attributes left, or an error when the field is required and absent, or
/// the attribute has the wrong kind.
pub open spec fn take_field(op: Seq<char>, entries: Seq<AttributeSpec>, f: Field) -> Result<
    (Option<AttributeValueSpec>, Seq<AttributeSpec>),
    OpErrorSpec,
> {
    match first_named(entry_names(entries), f.name@) {
        None => if f.required {
            Err(OpErrorSpec::MissingAttribute { op, attr: f.name@ })
        } else {
            Ok((None, entries))
        },
        Some(i) => if kind_matches(entries[i].value, f.kind) {
            Ok((Some(entries[i].value), entries.remove(i)))
        } else {
            Err(
                OpErrorSpec::WrongAttributeType { op, attr: f.name@, expected: kind_label(f.kind) },
            )
        },
    }
}

/// Reads the fields of a schema, in order, from a list of attributes with
/// distinct names. Gives the values found (absent ones as `None`) and the
/// attributes left over, or the first error.
pub open spec fn parse_fields(
    op: Seq<char>,
    entries: Seq<AttributeSpec>,
    fields: Seq<Field>,
) -> Result<(Seq<Option<AttributeValueSpec>>, Seq<AttributeSpec>), OpErrorSpec>
    decreases fields.len(),
{
    if fields.len() == 0 {
        Ok((Seq::empty(), entries))
    } else {
        match take_field(op, entries, fields[0]) {
            Err(e) => Err(e),
            Ok((v, rest)) => prepend_value(v, parse_fields(op, rest, fields.drop_first())),
        }
    }
}

/// The error for attributes that no field took.
pub open spec fn finish_error(op: Seq<char>, rest: Seq<AttributeSpec>) -> Option<OpErrorSpec> {
    if rest.len() == 0 {
        None
    } else {
        Some(OpErrorSpec::UnknownAttribute { op, attr: rest[0].name })
    }
}

/// The attributes of a node that is the given operator with allowed counts
/// and distinct attribute names, or the first error.
pub open spec fn node_attrs(
    op: Seq<char>,
    domain: Seq<char>,
    ins: Arity,
    outs: Arity,
    n: NodeSpec,
) -> Result<Seq<AttributeSpec>, OpErrorSpec> {
    if n.domain != domain || n.op_type != op {
        Err(
            OpErrorSpec::WrongOp {
                expected_domain: domain,
                expected_op: op,
                got_domain: n.domain,
                got_op: n.op_type,
            },
        )
    } else {
        match arity_error(op, n.inputs.len(), n.outputs.len(), ins, outs) {
            Some(e) => Err(e),
            None => match dup_error(op, entry_names(n.attributes)) {
                Some(e) => Err(e),
                None => Ok(n.attributes),
            },
        }
    }
}

/// Reads a node with a single schema: the values of its fields, or the
/// first error, ending with attributes that no field takes.
pub open spec fn parse_node(
    op: Seq<char>,
    domain: Seq<char>,
    ins: Arity,
    outs: Arity,
    fields: Seq<Field>,
    n: NodeSpec,
) -> Result<Seq<Option<AttributeValueSpec>>, OpErrorSpec> {
    match node_attrs(op, domain, ins, outs, n) {
        Err(e) => Err(e),
        Ok(t) => match parse_fields(op, t, fields) {
            Err(e) => Err(e),
            Ok((vs, rest)) => match finish_error(op, rest) {
                Some(e) => Err(e),
                None => Ok(vs),
            },
        },
    }
}

/// The attribute written for one field value, if the value is present.
pub open spec fn emit_one(name: Seq<char>, v: Option<AttributeValueSpec>) -> Seq<AttributeSpec> {
    match v {
        Some(x) => seq![spec_attribute(name, x)],
        None => Seq::empty(),
    }
}

/// The attributes written for a list of field values: one per present
/// value, in schema order.
pub open spec fn emit_attrs(fields: Seq<Field>, vals: Seq<Option<AttributeValueSpec>>) -> Seq<
    AttributeSpec,
>
    decreases fields.len(),
{
    if fields.len() == 0 || vals.len() == 0 {
        Seq::empty()
    } else {
        emit_attrs(fields.drop_last(), vals.drop_last()) + emit_one(
            fields.last().name@,
            vals.last(),
        )
    }
}

/// The node of an operator with the given wiring and attributes.
pub open spec fn op_node(
    op: Seq<char>,
    domain: Seq<char>,
    inputs: Seq<Seq<char>>,
    outputs: Seq<Seq<char>>,
    attributes: Seq<AttributeSpec>,
) -> NodeSpec {
    NodeSpec {
        name: None,
        op_type: op,
        domain,
        inputs,
        outputs,
        attributes,
        overload: Seq::empty(),
        doc_string: Seq::empty(),
        metadata: Seq::empty(),
        device_configurations: Seq::empty(),
    }
}

/// The emitted node of an operator whose attributes are `vals`, or the
/// count error.
pub open spec fn emit_node(
    op: Seq<char>,
    domain: Seq<char>,
    ins: Arity,
    outs: Arity,
    fields: Seq<Field>,
    vals: Seq<Option<AttributeValueSpec>>,
    inputs: Seq<Seq<char>>,
    outputs: Seq<Seq<char>>,
) -> Result<EmittedSpec, OpErrorSpec> {
    match arity_error(op, inputs.len(), outputs.len(), ins, outs) {
        Some(e) => Err(e),
        None => Ok(
            EmittedSpec {
                node: op_node(op, domain, inputs, outputs, emit_attrs(fields, vals)),
                initializers: Seq::<TensorSpec>::empty(),
            },
        ),
    }
}

/// Whether each value has its field's kind, and each required field a value.
pub open spec fn well_typed(fields: Seq<Field>, vals: Seq<Option<AttributeValueSpec>>) -> bool {
    &&& fields.len() == vals.len()
    &&& forall|k: int|
        0 <= k < fields.len() ==> match #[trigger] vals[k] {
            Some(v) => kind_matches(v, fields[k].kind),
            None => !fields[k].required,
        }
}

/// Whether the fields of a schema have distinct names.
pub open spec fn distinct_names(fields: Seq<Field>) -> bool {
    forall|i: int, j: int|
        0 <= i < j < fields.len() ==> #[trigger] fields[i].name@ != #[trigger] fields[j].name@
}

/// Whether no attribute of a list carries the name of a field.
pub open spec fn names_outside(rest: Seq<AttributeSpec>, fields: Seq<Field>) -> bool {
    forall|i: int, k: int|
        0 <= i < rest.len() && 0 <= k < fields.len() ==> #[trigger] rest[i].name
            != #[trigger] fields[k].name@
}

/// Whether a list of names has no repeats.
pub open spec fn names_distinct(names: Seq<Seq<char>>) -> bool {
    forall|i: int, j: int| 0 <= i < j < names.len() ==> #[trigger] names[i] != #[trigger] names[j]
}

// ---------------------------------------------------------------------------
// Lemmas on the schema specifications
// ---------------------------------------------------------------------------
/// Writing values field by field, seen from the front.
pub proof fn lemma_emit_front(fields: Seq<Field>, vals: Seq<Option<AttributeValueSpec>>)
    requires
        fields.len() == vals.len(),
        fields.len() > 0,
    ensures
        emit_attrs(fields, vals) == emit_one(fields[0].name@, vals[0]) + emit_attrs(
            fields.drop_first(),
            vals.drop_first(),
        ),
    decreases fields.len(),
{
    if fields.len() == 1 {
        assert(fields.drop_last().len() == 0);
        assert(emit_attrs(fields.drop_last(), vals.drop_last()) =~= Seq::<AttributeSpec>::empty());
        assert(fields.last() == fields[0]);
        assert(vals.last() == vals[0]);
        assert(emit_attrs(fields.drop_first(), vals.drop_first()) =~= Seq::<AttributeSpec>::empty());
        assert(emit_attrs(fields, vals) =~= emit_one(fields[0].name@, vals[0]));
    } else {
        lemma_emit_front(fields.drop_last(), vals.drop_last());
        assert(fields.drop_last().drop_first() =~= fields.drop_first().drop_last());
        assert(vals.drop_last().drop_first() =~= vals.drop_first().drop_last());
        assert(fields.drop_first().last() == fields.last());
        assert(vals.drop_first().last() == vals.last());
        assert(fields.drop_last()[0] == fields[0]);
        assert(vals.drop_last()[0] == vals[0]);
        assert(emit_attrs(fields, vals) =~= emit_one(fields[0].name@, vals[0]) + emit_attrs(
            fields.drop_first(),
            vals.drop_first(),
        ));
    }
}

/// Writing two schemas one after the other writes their concatenation.
pub proof fn lemma_emit_concat(
    f1: Seq<Field>,
    v1: Seq<Option<AttributeValueSpec>>,
    f2: Seq<Field>,
    v2: Seq<Option<AttributeValueSpec>>,
)
    requires
        f1.len() == v1.len(),
        f2.len() == v2.len(),
    ensures
        emit_attrs(f1 + f2, v1 + v2) == emit_attrs(f1, v1) + emit_attrs(f2, v2),
    decreases f2.len(),
{
    if f2.len() == 0 {
        assert(f1 + f2 =~= f1);
        assert(v1 + v2 =~= v1);
        assert(emit_attrs(f2, v2) =~= Seq::<AttributeSpec>::empty());
        assert(emit_attrs(f1, v1) + emit_attrs(f2, v2) =~= emit_attrs(f1, v1));
    } else {
        lemma_emit_concat(f1, v1, f2.drop_last(), v2.drop_last());
        assert((f1 + f2).drop_last() =~= f1 + f2.drop_last());
        assert((v1 + v2).drop_last() =~= v1 + v2.drop_last());
        assert(emit_attrs(f1 + f2, v1 + v2) =~= emit_attrs(f1, v1) + emit_attrs(f2, v2));
    }
}

/// Every attribute written for a schema carries the name of one of its
/// fields, and its value has that field's kind.
pub proof fn lemma_emit_names(fields: Seq<Field>, vals: Seq<Option<AttributeValueSpec>>, i: int)
    requires
        well_typed(fields, vals),
        0 <= i < emit_attrs(fields, vals).len(),
    ensures
        exists|k: int|
            0 <= k < fields.len() && #[trigger] fields[k].name@ == emit_attrs(fields, vals)[i].name
                && vals[k] == Some(emit_attrs(fields, vals)[i].value),
    decreases fields.len(),
{
    let prev = emit_attrs(fields.drop_last(), vals.drop_last());
    let k = fields.len() - 1;
    assert(well_typed(fields.drop_last(), vals.drop_last())) by {
        assert forall|j: int| 0 <= j < fields.drop_last().len() implies match #[trigger] vals.drop_last()[j] {
            Some(v) => kind_matches(v, fields.drop_last()[j].kind),
            None => !fields.drop_last()[j].required,
        } by {
            assert(vals.drop_last()[j] == vals[j]);
        }
    }
    if i < prev.len() {
        lemma_emit_names(fields.drop_last(), vals.drop_last(), i);
        let w = choose|w: int|
            0 <= w < fields.drop_last().len() && #[trigger] fields.drop_last()[w].name@
                == prev[i].name && vals.drop_last()[w] == Some(prev[i].value);
        assert(fields[w].name@ == emit_attrs(fields, vals)[i].name);
    } else {
        assert(fields[k].name@ == emit_attrs(fields, vals)[i].name);
    }
}

/// The tail of a well-typed schema with distinct names is one too, and the
/// attributes that avoid the schema's names avoid the tail's.
proof fn lemma_tail_facts(fields: Seq<Field>, vals: Seq<Option<AttributeValueSpec>>, rest: Seq<AttributeSpec>)
    requires
        well_typed(fields, vals),
        distinct_names(fields),
        names_outside(rest, fields),
        fields.len() > 0,
    ensures
        well_typed(fields.drop_first(), vals.drop_first()),
        distinct_names(fields.drop_first()),
        names_outside(rest, fields.drop_first()),
        !fields[0].required ==> true,
{
    let tail_f = fields.drop_first();
    let tail_v = vals.drop_first();
    assert forall|j: int| 0 <= j < tail_f.len() implies match #[trigger] tail_v[j] {
        Some(v) => kind_matches(v, tail_f[j].kind),
        None => !tail_f[j].required,
    } by {
        assert(tail_v[j] == vals[j + 1]);
        assert(tail_f[j] == fields[j + 1]);
    }
    assert forall|i: int, j: int| 0 <= i < j < tail_f.len() implies #[trigger] tail_f[i].name@
        != #[trigger] tail_f[j].name@ by {
        assert(tail_f[i] == fields[i + 1]);
        assert(tail_f[j] == fields[j + 1]);
    }
    assert forall|i: int, k: int| 0 <= i < rest.len() && 0 <= k < tail_f.len() implies #[trigger] rest[i].name
        != #[trigger] tail_f[k].name@ by {
        assert(tail_f[k] == fields[k + 1]);
    }
}

/// Taking the first field of a schema from the attributes written for it
/// gives its value and the attributes of the other fields.
proof fn lemma_take_emitted(
    op: Seq<char>,
    fields: Seq<Field>,
    vals: Seq<Option<AttributeValueSpec>>,
    rest: Seq<AttributeSpec>,
)
    requires
        well_typed(fields, vals),
        distinct_names(fields),
        names_outside(rest, fields),
        fields.len() > 0,
    ensures
        take_field(op, emit_attrs(fields, vals) + rest, fields[0]) == Ok::<
            (Option<AttributeValueSpec>, Seq<AttributeSpec>),
            OpErrorSpec,
        >((vals[0], emit_attrs(fields.drop_first(), vals.drop_first()) + rest)),
{
    let f = fields[0];
    let tail_f = fields.drop_first();
    let tail_v = vals.drop_first();
    lemma_emit_front(fields, vals);
    lemma_tail_facts(fields, vals, rest);
    let tail_e = emit_attrs(tail_f, tail_v);
    let entries = emit_attrs(fields, vals) + rest;
    let names = entry_names(entries);
    match vals[0] {
        Some(v) => {
            assert(entries[0] == spec_attribute(f.name@, v));
            assert(names[0] == f.name@);
            lemma_first_named(names, f.name@, 0);
            assert(entries.remove(0) =~= tail_e + rest);
        },
        None => {
            assert(entries =~= tail_e + rest);
            assert forall|j: int| 0 <= j < names.len() implies names[j] != f.name@ by {
                if j < tail_e.len() {
                    lemma_emit_names(tail_f, tail_v, j);
                    let k = choose|k: int|
                        0 <= k < tail_f.len() && #[trigger] tail_f[k].name@ == tail_e[j].name
                            && tail_v[k] == Some(tail_e[j].value);
                    assert(tail_f[k] == fields[k + 1]);
                    assert(fields[0].name@ != fields[k + 1].name@);
                } else {
                    assert(entries[j] == rest[j - tail_e.len()]);
                    assert(rest[j - tail_e.len()].name != fields[0].name@);
                }
            }
            lemma_first_named(names, f.name@, names.len() as int);
        },
    }
}

/// Reading a schema from the attributes written for it, followed by
/// attributes of other names, gives back the values and the others.
#[verifier::spinoff_prover]
pub proof fn lemma_parse_emitted(
    op: Seq<char>,
    fields: Seq<Field>,
    vals: Seq<Option<AttributeValueSpec>>,
    rest: Seq<AttributeSpec>,
)
    requires
        well_typed(fields, vals),
        distinct_names(fields),
        names_outside(rest, fields),
    ensures
        parse_fields(op, emit_attrs(fields, vals) + rest, fields) == Ok::<
            (Seq<Option<AttributeValueSpec>>, Seq<AttributeSpec>),
            OpErrorSpec,
        >((vals, rest)),
    decreases fields.len(),
{
    if fields.len() == 0 {
        assert(emit_attrs(fields, vals) + rest =~= rest);
        assert(vals =~= Seq::<Option<AttributeValueSpec>>::empty());
    } else {
        let entries = emit_attrs(fields, vals) + rest;
        let tail = emit_attrs(fields.drop_first(), vals.drop_first()) + rest;
        lemma_take_emitted(op, fields, vals, rest);
        lemma_tail_facts(fields, vals, rest);
        lemma_parse_emitted(op, fields.drop_first(), vals.drop_first(), rest);
        assert(parse_fields(op, entries, fields) == prepend_value(
            vals[0],
            parse_fields(op, tail, fields.drop_first()),
        ));
        assert(vals =~= seq![vals[0]] + vals.drop_first());
    }
}

/// The first repeat of a prefix is the first repeat of the whole list.
pub proof fn lemma_dup_prefix(op: Seq<char>, names: Seq<Seq<char>>, k: int)
    requires
        0 <= k <= names.len(),
        dup_error(op, names.take(k)) is Some,
    ensures
        dup_error(op, names) == dup_error(op, names.take(k)),
    decreases names.len() - k,
{
    if k < names.len() {
        assert(names.take(k + 1).drop_last() =~= names.take(k));
        lemma_dup_prefix(op, names, k + 1);
    } else {
        assert(names.take(k) =~= names);
    }
}

/// A list of distinct names has no repeat to report.
pub proof fn lemma_no_dup_error(op: Seq<char>, names: Seq<Seq<char>>)
    requires
        names_distinct(names),
    ensures
        dup_error(op, names) is None,
    decreases names.len(),
{
    if names.len() > 0 {
        let init = names.drop_last();
        assert(names_distinct(init)) by {
            assert forall|i: int, j: int| 0 <= i < j < init.len() implies #[trigger] init[i]
                != #[trigger] init[j] by {
                assert(init[i] == names[i]);
                assert(init[j] == names[j]);
            }
        }
        lemma_no_dup_error(op, init);
        if init.contains(names.last()) {
            let w = choose|w: int| 0 <= w < init.len() && init[w] == names.last();
            assert(names[w] == names[names.len() - 1]);
        }
    }
}

/// The attributes written for a schema with distinct names have distinct
/// names.
pub proof fn lemma_emit_distinct(fields: Seq<Field>, vals: Seq<Option<AttributeValueSpec>>)
    requires
        well_typed(fields, vals),
        distinct_names(fields),
    ensures
        names_distinct(entry_names(emit_attrs(fields, vals))),
    decreases fields.len(),
{
    if fields.len() > 0 {
        let tail_f = fields.drop_first();
        let tail_v = vals.drop_first();
        lemma_emit_front(fields, vals);
        assert(well_typed(tail_f, tail_v)) by {
            assert forall|j: int| 0 <= j < tail_f.len() implies match #[trigger] tail_v[j] {
                Some(v) => kind_matches(v, tail_f[j].kind),
                None => !tail_f[j].required,
            } by {
                assert(tail_v[j] == vals[j + 1]);
                assert(tail_f[j] == fields[j + 1]);
            }
        }
        assert(distinct_names(tail_f)) by {
            assert forall|i: int, j: int| 0 <= i < j < tail_f.len() implies #[trigger] tail_f[i].name@
                != #[trigger] tail_f[j].name@ by {
                assert(tail_f[i] == fields[i + 1]);
                assert(tail_f[j] == fields[j + 1]);
            }
        }
        lemma_emit_distinct(tail_f, tail_v);
        let tail_e = emit_attrs(tail_f, tail_v);
        let all = emit_attrs(fields, vals);
        let head = emit_one(fields[0].name@, vals[0]);
        let names = entry_names(all);
        assert forall|i: int, j: int| 0 <= i < j < names.len() implies #[trigger] names[i]
            != #[trigger] names[j] by {
            if i < head.len() {
                assert(i == 0);
                lemma_emit_names(tail_f, tail_v, j - head.len());
                let k = choose|k: int|
                    0 <= k < tail_f.len() && #[trigger] tail_f[k].name@ == tail_e[j
                        - head.len()].name && tail_v[k] == Some(tail_e[j - head.len()].value);
                assert(tail_f[k] == fields[k + 1]);
                assert(all[j] == tail_e[j - head.len()]);
            } else {
                assert(all[i] == tail_e[i - head.len()]);
                assert(all[j] == tail_e[j - head.len()]);
                assert(entry_names(tail_e)[i - head.len()] != entry_names(tail_e)[j - head.len()]);
            }
        }
    }
}

/// Reading the node written for well-typed values gives the values back.
pub proof fn lemma_node_roundtrip(
    op: Seq<char>,
    domain: Seq<char>,
    ins: Arity,
    outs: Arity,
    fields: Seq<Field>,
    vals: Seq<Option<AttributeValueSpec>>,
    inputs: Seq<Seq<char>>,
    outputs: Seq<Seq<char>>,
)
    requires
        well_typed(fields, vals),
        distinct_names(fields),
        emit_node(op, domain, ins, outs, fields, vals, inputs, outputs) is Ok,
    ensures
        parse_node(
            op,
            domain,
            ins,
            outs,
            fields,
            emit_node(op, domain, ins, outs, fields, vals, inputs, outputs)->Ok_0.node,
        ) == Ok::<Seq<Option<AttributeValueSpec>>, OpErrorSpec>(vals),
{
    let attrs = emit_attrs(fields, vals);
    lemma_emit_distinct(fields, vals);
    lemma_no_dup_error(op, entry_names(attrs));
    lemma_parse_emitted(op, fields, vals, Seq::empty());
    assert(attrs + Seq::<AttributeSpec>::empty() =~= attrs);
}

// ---------------------------------------------------------------------------
// Executable parts
// ---------------------------------------------------------------------------
/// Whether a value has the given kind.
pub fn kind_of(v: &AttributeValue, k: AttrKind) -> (r: bool)
    ensures
        r == kind_matches(v.deep_view(), k),
{
    match (k, v) {
        (AttrKind::Float, AttributeValue::Float(_)) => true,
        (AttrKind::Int, AttributeValue::Int(_)) => true,
        (AttrKind::Str, AttributeValue::String(_)) => true,
        (AttrKind::Tensor, AttributeValue::Tensor(_)) => true,
        (AttrKind::Floats, AttributeValue::Floats(_)) => true,
        (AttrKind::Ints, AttributeValue::Ints(_)) => true,
        (AttrKind::Strings, AttributeValue::Strings(_)) => true,
        _ => false,
    }
}

/// The name of a kind, as errors report it.
pub fn kind_name(k: AttrKind) -> (r: &'static str)
    ensures
        r@ == kind_label(k),
{
    proof {
        reveal_strlit("float");
        reveal_strlit("int");
        reveal_strlit("string");
        reveal_strlit("tensor");
        reveal_strlit("floats");
        reveal_strlit("ints");
        reveal_strlit("strings");
    }
    match k {
        AttrKind::Float => "float",
        AttrKind::Int => "int",
        AttrKind::Str => "string",
        AttrKind::Tensor => "tensor",
        AttrKind::Floats => "floats",
        AttrKind::Ints => "ints",
        AttrKind::Strings => "strings",
    }
}

/// How an arity is written in errors.
pub fn arity_text(a: Arity) -> (r: String)
    ensures
        r@ == arity_label(a),
{
    match a {
        Arity::Exactly(k) => usize_to_string(k),
        Arity::Between(lo, hi) => {
            let a = usize_to_string(lo);
            let b = concat(a.as_str(), "..=");
            let c = usize_to_string(hi);
            concat(b.as_str(), c.as_str())
        },
        Arity::AtLeast(lo) => {
            let a = usize_to_string(lo);
            concat(a.as_str(), "..")
        },
    }
}

/// Whether a count is allowed.
pub fn arity_allows(a: Arity, n: usize) -> (r: bool)
    ensures
        r == arity_ok(a, n as nat),
{
    match a {
        Arity::Exactly(k) => n == k,
        Arity::Between(lo, hi) => lo <= n && n <= hi,
        Arity::AtLeast(lo) => lo <= n,
    }
}

/// Checks the number of inputs and outputs, inputs first.
pub fn check_counts(op: &'static str, n_in: usize, n_out: usize, ins: Arity, outs: Arity) -> (r:
    Result<(), OpError>)
    ensures
        match arity_error(op@, n_in as nat, n_out as nat, ins, outs) {
            Some(e) => r matches Err(x) && x.deep_view() == e,
            None => r is Ok,
        },
{
    if !arity_allows(ins, n_in) {
        return Err(OpError::WrongInputCount { op, expected: arity_text(ins), got: n_in });
    }
    if !arity_allows(outs, n_out) {
        return Err(OpError::WrongOutputCount { op, expected: arity_text(outs), got: n_out });
    }
    Ok(())
}

/// Checks that a node applies the given operator.
pub fn check_op(op: &'static str, domain: &'static str, node: &Node) -> (r: Result<(), OpError>)
    ensures
        r is Ok <==> (node.domain@ == domain@ && node.op_type@ == op@),
        r matches Err(e) ==> e.deep_view() == (OpErrorSpec::WrongOp {
            expected_domain: domain@,
            expected_op: op@,
            got_domain: node.domain@,
            got_op: node.op_type@,
        }),
{
    if !str_eq(node.domain.as_str(), domain) || !str_eq(node.op_type.as_str(), op) {
        return Err(
            OpError::WrongOp {
                expected_domain: domain,
                expected_op: op,
                got_domain: node.domain.clone(),
                got_op: node.op_type.clone(),
            },
        );
    }
    Ok(())
}

/// The attributes of a node that no field has taken yet.
pub struct AttrTable<'a> {
    pub op: &'static str,
    pub entries: Vec<&'a Attribute>,
}

/// Whether a list of attributes has one of the given name.
fn has_entry(entries: &Vec<&Attribute>, name: &String) -> (r: bool)
    ensures
        r == entry_names(entries.deep_view()).contains(name@),
{
    let ghost names = entry_names(entries.deep_view());
    let mut i: usize = 0;
    while i < entries.len()
        invariant
            0 <= i <= entries.len(),
            names == entry_names(entries.deep_view()),
            forall|j: int| 0 <= j < i ==> names[j] != name@,
        decreases entries.len() - i,
    {
        if entries[i].name == *name {
            proof {
                assert(names[i as int] == name@);
            }
            return true;
        }
        i = i + 1;
    }
    false
}

impl<'a> AttrTable<'a> {
    /// The table of a node's attributes, refused when two share a name.
    pub fn new(op: &'static str, node: &'a Node) -> (r: Result<Self, OpError>)
        ensures
            match dup_error(op@, entry_names(node.attributes.deep_view())) {
                Some(e) => r matches Err(x) && x.deep_view() == e,
                None => r matches Ok(t) && t.op == op && t.entries.deep_view()
                    == node.attributes.deep_view(),
            },
    {
        let ghost all = node.attributes.deep_view();
        let ghost names = entry_names(all);
        let mut entries: Vec<&'a Attribute> = Vec::new();
        let mut i: usize = 0;
        proof {
            assert(names.take(0) =~= Seq::<Seq<char>>::empty());
            assert(entries.deep_view() =~= all.take(0));
        }
        while i < node.attributes.len()
            invariant
                0 <= i <= node.attributes.len(),
                all == node.attributes.deep_view(),
                names == entry_names(all),
                entries.deep_view() == all.take(i as int),
                dup_error(op@, names.take(i as int)) is None,
            decreases node.attributes.len() - i,
        {
            let a = &node.attributes[i];
            proof {
                assert(names.take(i + 1).drop_last() =~= names.take(i as int));
                assert(names.take(i + 1).last() == a.name@);
                assert(entry_names(entries.deep_view()) =~= names.take(i as int));
            }
            if has_entry(&entries, &a.name) {
                proof {
                    lemma_dup_prefix(op@, names, i + 1);
                }
                return Err(OpError::DuplicateAttribute { op, attr: a.name.clone() });
            }
            let ghost prev = entries.deep_view();
            entries.push(a);
            proof {
                assert(entries.deep_view() =~= all.take(i + 1));
            }
            i = i + 1;
        }
        proof {
            assert(all.take(i as int) =~= all);
            assert(names.take(i as int) =~= names);
        }
        Ok(AttrTable { op, entries })
    }

    /// Takes the attribute of the given name out of the table.
    pub fn take(&mut self, name: &str) -> (r: Option<&'a AttributeValue>)
        ensures
            final(self).op == old(self).op,
            match first_named(entry_names(old(self).entries.deep_view()), name@) {
                None => r is None && final(self).entries.deep_view() == old(self).entries.deep_view(),
                Some(i) => r matches Some(v) && v.deep_view() == old(self).entries.deep_view()[i].value && final(self).entries.deep_view() == old(self).entries.deep_view().remove(i),
            },
    {
        let ghost names = entry_names(self.entries.deep_view());
        let mut i: usize = 0;
        proof {
            assert(self.entries.deep_view() == old(self).entries.deep_view());
        }
        while i < self.entries.len()
            invariant
                0 <= i <= self.entries.len(),
                self.op == old(self).op,
                self.entries@ == old(self).entries@,
                names == entry_names(old(self).entries.deep_view()),
                forall|j: int| 0 <= j < i ==> names[j] != name@,
            decreases self.entries.len() - i,
        {
            if str_eq(self.entries[i].name.as_str(), name) {
                proof {
                    lemma_first_named(names, name@, i as int);
                }
                let ghost before = self.entries.deep_view();
                let a = self.entries.remove(i);
                proof {
                    assert(self.entries.deep_view() =~= before.remove(i as int));
                }
                return Some(&a.value);
            }
            i = i + 1;
        }
        proof {
            lemma_first_named(names, name@, i as int);
        }
        None
    }

    /// Takes the value of one field: `None` when absent and optional, an
    /// error when absent and required or of the wrong kind.
    pub fn field(&mut self, f: Field) -> (r: Result<Option<&'a AttributeValue>, OpError>)
        ensures
            final(self).op == old(self).op,
            match take_field(old(self).op@, old(self).entries.deep_view(), f) {
                Ok((v, rest)) => r matches Ok(x) && x.deep_view() == v && final(
                    self).entries.deep_view() == rest,
                Err(e) => r matches Err(x) && x.deep_view() == e,
            },
    {
        match self.take(f.name) {
            None => {
                if f.required {
                    Err(OpError::MissingAttribute { op: self.op, attr: f.name })
                } else {
                    Ok(None)
                }
            },
            Some(v) => {
                if kind_of(v, f.kind) {
                    Ok(Some(v))
                } else {
                    Err(
                        OpError::WrongAttributeType {
                            op: self.op,
                            attr: String::from_str(f.name),
                            expected: kind_name(f.kind),
                        },
                    )
                }
            },
        }
    }

    /// Takes the values of a schema's fields, in order.
    pub fn fields(&mut self, fields: &[Field]) -> (r: Result<Vec<Option<&'a AttributeValue>>, OpError>)
        ensures
            final(self).op == old(self).op,
            match parse_fields(old(self).op@, old(self).entries.deep_view(), fields@) {
                Ok((vs, rest)) => r matches Ok(x) && x.deep_view() == vs && final(self).entries.deep_view() == rest,
                Err(e) => r matches Err(x) && x.deep_view() == e,
            },
    {
        let ghost op = self.op@;
        let ghost start = self.entries.deep_view();
        let mut out: Vec<Option<&'a AttributeValue>> = Vec::new();
        let mut k: usize = 0;
        proof {
            assert(fields@.skip(0) =~= fields@);
            assert(prepend_value_all(out.deep_view(), parse_fields(op, start, fields@.skip(0)))
                == parse_fields(op, start, fields@)) by {
                assert(out.deep_view() =~= Seq::<Option<AttributeValueSpec>>::empty());
                lemma_prepend_empty(parse_fields(op, start, fields@));
            }
        }
        while k < fields.len()
            invariant
                0 <= k <= fields.len(),
                self.op == old(self).op,
                self.op@ == op,
                start == old(self).entries.deep_view(),
                prepend_value_all(
                    out.deep_view(),
                    parse_fields(op, self.entries.deep_view(), fields@.skip(k as int)),
                ) == parse_fields(op, start, fields@),
            decreases fields.len() - k,
        {
            let ghost cur = self.entries.deep_view();
            let ghost before = out.deep_view();
            let f = fields[k];
            proof {
                assert(fields@.skip(k as int)[0] == f);
                assert(fields@.skip(k as int).drop_first() =~= fields@.skip(k + 1));
            }
            match self.field(f) {
                Err(e) => {
                    proof {
                        assert(parse_fields(op, cur, fields@.skip(k as int)) == Err::<
                            (Seq<Option<AttributeValueSpec>>, Seq<AttributeSpec>),
                            OpErrorSpec,
                        >(e.deep_view()));
                    }
                    return Err(e);
                },
                Ok(v) => {
                    out.push(v);
                    proof {
                        assert(out.deep_view() =~= before.push(v.deep_view()));
                        lemma_prepend_push(
                            before,
                            v.deep_view(),
                            parse_fields(op, self.entries.deep_view(), fields@.skip(k + 1)),
                        );
                    }
                },
            }
            k = k + 1;
        }
        proof {
            assert(fields@.skip(k as int) =~= Seq::<Field>::empty());
            assert(out.deep_view() + Seq::<Option<AttributeValueSpec>>::empty() =~= out.deep_view());
        }
        Ok(out)
    }

    /// Fails on the first attribute that no field took.
    pub fn finish(self) -> (r: Result<(), OpError>)
        ensures
            match finish_error(self.op@, self.entries.deep_view()) {
                Some(e) => r matches Err(x) && x.deep_view() == e,
                None => r is Ok,
            },
    {
        if self.entries.len() == 0 {
            Ok(())
        } else {
            Err(OpError::UnknownAttribute { op: self.op, attr: self.entries[0].name.clone() })
        }
    }
}

/// Puts values in front of the values of a successful parse.
pub open spec fn prepend_value_all(
    vs: Seq<Option<AttributeValueSpec>>,
    r: Result<(Seq<Option<AttributeValueSpec>>, Seq<AttributeSpec>), OpErrorSpec>,
) -> Result<(Seq<Option<AttributeValueSpec>>, Seq<AttributeSpec>), OpErrorSpec> {
    match r {
        Ok((ws, rest)) => Ok((vs + ws, rest)),
        Err(e) => Err(e),
    }
}

proof fn lemma_prepend_empty(
    r: Result<(Seq<Option<AttributeValueSpec>>, Seq<AttributeSpec>), OpErrorSpec>,
)
    ensures
        prepend_value_all(Seq::empty(), r) == r,
{
    match r {
        Ok((ws, rest)) => {
            assert(Seq::<Option<AttributeValueSpec>>::empty() + ws =~= ws);
        },
        Err(_) => {},
    }
}

proof fn lemma_prepend_push(
    vs: Seq<Option<AttributeValueSpec>>,
    v: Option<AttributeValueSpec>,
    r: Result<(Seq<Option<AttributeValueSpec>>, Seq<AttributeSpec>), OpErrorSpec>,
)
    ensures
        prepend_value_all(vs.push(v), r) == prepend_value_all(vs, prepend_value(v, r)),
{
    match r {
        Ok((ws, rest)) => {
            assert(vs.push(v) + ws =~= vs + (seq![v] + ws));
        },
        Err(_) => {},
    }
}

/// Opens the attribute table of a node that applies the given operator with
/// allowed counts.
pub fn open_table<'a>(
    op: &'static str,
    domain: &'static str,
    ins: Arity,
    outs: Arity,
    node: &'a Node,
) -> (r: Result<AttrTable<'a>, OpError>)
    ensures
        match node_attrs(op@, domain@, ins, outs, node.deep_view()) {
            Ok(t) => r matches Ok(x) && x.op == op && x.entries.deep_view() == t,
            Err(e) => r matches Err(x) && x.deep_view() == e,
        },
{
    match check_op(op, domain, node) {
        Err(e) => {
            return Err(e);
        },
        Ok(()) => {},
    }
    match check_counts(op, node.inputs.len(), node.outputs.len(), ins, outs) {
        Err(e) => {
            return Err(e);
        },
        Ok(()) => {},
    }
    AttrTable::new(op, node)
}

/// Reads a node with a single schema.
pub fn read_node<'a>(
    op: &'static str,
    domain: &'static str,
    ins: Arity,
    outs: Arity,
    fields: &[Field],
    node: &'a Node,
) -> (r: Result<Vec<Option<&'a AttributeValue>>, OpError>)
    ensures
        match parse_node(op@, domain@, ins, outs, fields@, node.deep_view()) {
            Ok(vs) => r matches Ok(x) && x.deep_view() == vs,
            Err(e) => r matches Err(x) && x.deep_view() == e,
        },
{
    let mut table = match open_table(op, domain, ins, outs, node) {
        Ok(t) => t,
        Err(e) => {
            return Err(e);
        },
    };
    let vals = match table.fields(fields) {
        Ok(v) => v,
        Err(e) => {
            return Err(e);
        },
    };
    match table.finish() {
        Ok(()) => Ok(vals),
        Err(e) => Err(e),
    }
}

/// Writes the attributes of the present values, in schema order.
pub fn emit_fields(fields: &[Field], vals: Vec<Option<AttributeValue>>) -> (r: Vec<Attribute>)
    requires
        fields@.len() == vals@.len(),
    ensures
        r.deep_view() == emit_attrs(fields@, vals.deep_view()),
{
    let ghost fs = fields@;
    let ghost vs = vals.deep_view();
    let mut out: Vec<Attribute> = Vec::new();
    let mut k: usize = 0;
    proof {
        assert(out.deep_view() =~= emit_attrs(fs.take(0), vs.take(0)));
    }
    while k < fields.len()
        invariant
            0 <= k <= fields.len(),
            fs == fields@,
            vs == vals.deep_view(),
            fs.len() == vs.len(),
            out.deep_view() == emit_attrs(fs.take(k as int), vs.take(k as int)),
        decreases fields.len() - k,
    {
        let ghost before = out.deep_view();
        proof {
            assert(fs.take(k + 1).drop_last() =~= fs.take(k as int));
            assert(vs.take(k + 1).drop_last() =~= vs.take(k as int));
            assert(fs.take(k + 1).last() == fields@[k as int]);
            assert(vs.take(k + 1).last() == vals@[k as int].deep_view());
        }
        match &vals[k] {
            Some(v) => {
                let a = Attribute::new(String::from_str(fields[k].name), v.clone());
                out.push(a);
                proof {
                    assert(out.deep_view() =~= before + emit_one(
                        fields@[k as int].name@,
                        vals@[k as int].deep_view(),
                    ));
                }
            },
            None => {
                proof {
                    assert(before + emit_one(fields@[k as int].name@, vals@[k as int].deep_view())
                        =~= before);
                }
            },
        }
        k = k + 1;
    }
    proof {
        assert(fs.take(k as int) =~= fs);
        assert(vs.take(k as int) =~= vs);
    }
    out
}

/// Builds the node of an operator from its attribute values, after checking
/// the counts.
pub fn build_node(
    op: &'static str,
    domain: &'static str,
    ins: Arity,
    outs: Arity,
    fields: &[Field],
    vals: Vec<Option<AttributeValue>>,
    inputs: Vec<String>,
    outputs: Vec<String>,
) -> (r: Result<Emitted, OpError>)
    requires
        fields@.len() == vals@.len(),
    ensures
        match emit_node(
            op@,
            domain@,
            ins,
            outs,
            fields@,
            vals.deep_view(),
            inputs.deep_view(),
            outputs.deep_view(),
        ) {
            Ok(em) => r matches Ok(x) && x.deep_view() == em,
            Err(e) => r matches Err(x) && x.deep_view() == e,
        },
{
    match check_counts(op, inputs.len(), outputs.len(), ins, outs) {
        Err(e) => {
            return Err(e);
        },
        Ok(()) => {},
    }
    let attrs = emit_fields(fields, vals);
    let node = Node::new(String::from_str(op), String::from_str(domain), inputs, outputs, attrs);
    Ok(Emitted::single(node))
}

/// The value of a `FLOATS` field, when present.
pub open spec fn floats_value(v: Option<Vec<u32>>) -> Option<AttributeValueSpec> {
    match v {
        Some(x) => Some(AttributeValueSpec::Floats(x@)),
        None => None,
    }
}

/// The value of an `INTS` field, when present.
pub open spec fn ints_value(v: Option<Vec<i64>>) -> Option<AttributeValueSpec> {
    match v {
        Some(x) => Some(AttributeValueSpec::Ints(x@)),
        None => None,
    }
}

/// The value of a `STRINGS` field, when present.
pub open spec fn strings_value(v: Option<Vec<String>>) -> Option<AttributeValueSpec> {
    match v {
        Some(x) => Some(AttributeValueSpec::Strings(x.deep_view())),
        None => None,
    }
}

/// The value of a `FLOAT` field, when present.
pub open spec fn float_value(v: Option<u32>) -> Option<AttributeValueSpec> {
    match v {
        Some(x) => Some(AttributeValueSpec::Float(x)),
        None => None,
    }
}

/// The value of an `INT` field, when present.
pub open spec fn int_value(v: Option<i64>) -> Option<AttributeValueSpec> {
    match v {
        Some(x) => Some(AttributeValueSpec::Int(x)),
        None => None,
    }
}

/// The value of a `STRING` field, when present.
pub open spec fn string_value(v: Option<String>) -> Option<AttributeValueSpec> {
    match v {
        Some(x) => Some(AttributeValueSpec::String(x@)),
        None => None,
    }
}

/// The value of a `TENSOR` field, when present.
pub open spec fn tensor_value(v: Option<crate::ir::Tensor>) -> Option<AttributeValueSpec> {
    match v {
        Some(x) => Some(AttributeValueSpec::Tensor(x.deep_view())),
        None => None,
    }
}

/// Whether position `i` of a schema is the attribute called `name` and the
/// values hold `v` there.
pub open spec fn slot(
    fields: Seq<Field>,
    values: Seq<Option<AttributeValueSpec>>,
    i: int,
    name: Seq<char>,
    v: Option<AttributeValueSpec>,
) -> bool {
    &&& 0 <= i < fields.len()
    &&& i < values.len()
    &&& fields[i].name@ == name
    &&& values[i] == v
}

/// The attribute value of a `FLOATS` field.
pub fn put_floats(v: &Option<Vec<u32>>) -> (r: Option<AttributeValue>)
    ensures
        r.deep_view() == floats_value(*v),
{
    match v {
        Some(x) => {
            let c = x.clone();
            proof {
                assert(c@ =~= x@);
            }
            Some(AttributeValue::Floats(c))
        },
        None => None,
    }
}

/// The attribute value of a `FLOATS` field that is always present.
pub fn put_floats_vec(v: &Vec<u32>) -> (r: Option<AttributeValue>)
    ensures
        r.deep_view() == Some(AttributeValueSpec::Floats(v@)),
{
    let c = v.clone();
    proof {
        assert(c@ =~= v@);
    }
    Some(AttributeValue::Floats(c))
}

/// The attribute value of an `INTS` field that is always present.
pub fn put_ints_vec(v: &Vec<i64>) -> (r: Option<AttributeValue>)
    ensures
        r.deep_view() == Some(AttributeValueSpec::Ints(v@)),
{
    let c = v.clone();
    proof {
        assert(c@ =~= v@);
    }
    Some(AttributeValue::Ints(c))
}

/// The attribute value of a `STRINGS` field that is always present.
pub fn put_strings_vec(v: &Vec<String>) -> (r: Option<AttributeValue>)
    ensures
        r.deep_view() == Some(AttributeValueSpec::Strings(v.deep_view())),
{
    let c = v.clone();
    proof {
        assert(c.deep_view() =~= v.deep_view());
    }
    Some(AttributeValue::Strings(c))
}

/// The attribute value of an `INTS` field.
pub fn put_ints(v: &Option<Vec<i64>>) -> (r: Option<AttributeValue>)
    ensures
        r.deep_view() == ints_value(*v),
{
    match v {
        Some(x) => {
            let c = x.clone();
            proof {
                assert(c@ =~= x@);
            }
            Some(AttributeValue::Ints(c))
        },
        None => None,
    }
}

/// The attribute value of a `STRINGS` field.
pub fn put_strings(v: &Option<Vec<String>>) -> (r: Option<AttributeValue>)
    ensures
        r.deep_view() == strings_value(*v),
{
    match v {
        Some(x) => {
            let c = x.clone();
            proof {
                assert(c.deep_view() =~= x.deep_view());
            }
            Some(AttributeValue::Strings(c))
        },
        None => None,
    }
}

/// The attribute value of a `FLOAT` field.
pub fn put_float(v: Option<u32>) -> (r: Option<AttributeValue>)
    ensures
        r.deep_view() == float_value(v),
{
    match v {
        Some(x) => Some(AttributeValue::Float(x)),
        None => None,
    }
}

/// The attribute value of an `INT` field.
pub fn put_int(v: Option<i64>) -> (r: Option<AttributeValue>)
    ensures
        r.deep_view() == int_value(v),
{
    match v {
        Some(x) => Some(AttributeValue::Int(x)),
        None => None,
    }
}

/// The attribute value of a `STRING` field.
pub fn put_string(v: &Option<String>) -> (r: Option<AttributeValue>)
    ensures
        r.deep_view() == string_value(*v),
{
    match v {
        Some(x) => Some(AttributeValue::String(x.clone())),
        None => None,
    }
}

/// The attribute value of a `TENSOR` field.
pub fn put_tensor(v: &Option<crate::ir::Tensor>) -> (r: Option<AttributeValue>)
    ensures
        r.deep_view() == tensor_value(*v),
{
    match v {
        Some(x) => Some(AttributeValue::Tensor(Box::new(x.clone()))),
        None => None,
    }
}

/// The list behind a `FLOATS` value.
pub fn get_floats(v: Option<&AttributeValue>) -> (r: Option<Vec<u32>>)
    requires
        v matches Some(x) ==> x.deep_view() is Floats,
    ensures
        floats_value(r) == v.deep_view(),
{
    match v {
        Some(AttributeValue::Floats(x)) => {
            let c = x.clone();
            proof {
                assert(c@ =~= x@);
            }
            Some(c)
        },
        _ => None,
    }
}

/// The list behind an `INTS` value.
pub fn get_ints(v: Option<&AttributeValue>) -> (r: Option<Vec<i64>>)
    requires
        v matches Some(x) ==> x.deep_view() is Ints,
    ensures
        ints_value(r) == v.deep_view(),
{
    match v {
        Some(AttributeValue::Ints(x)) => {
            let c = x.clone();
            proof {
                assert(c@ =~= x@);
            }
            Some(c)
        },
        _ => None,
    }
}

/// The list behind a `STRINGS` value.
pub fn get_strings(v: Option<&AttributeValue>) -> (r: Option<Vec<String>>)
    requires
        v matches Some(x) ==> x.deep_view() is Strings,
    ensures
        strings_value(r) == v.deep_view(),
{
    match v {
        Some(AttributeValue::Strings(x)) => {
            let c = x.clone();
            proof {
                assert(c.deep_view() =~= x.deep_view());
            }
            Some(c)
        },
        _ => None,
    }
}

/// The number behind a `FLOAT` value.
pub fn get_float(v: Option<&AttributeValue>) -> (r: Option<u32>)
    requires
        v matches Some(x) ==> x.deep_view() is Float,
    ensures
        float_value(r) == v.deep_view(),
{
    match v {
        Some(AttributeValue::Float(x)) => Some(*x),
        _ => None,
    }
}

/// The number behind an `INT` value.
pub fn get_int(v: Option<&AttributeValue>) -> (r: Option<i64>)
    requires
        v matches Some(x) ==> x.deep_view() is Int,
    ensures
        int_value(r) == v.deep_view(),
{
    match v {
        Some(AttributeValue::Int(x)) => Some(*x),
        _ => None,
    }
}

/// The text behind a `STRING` value.
pub fn get_string(v: Option<&AttributeValue>) -> (r: Option<String>)
    requires
        v matches Some(x) ==> x.deep_view() is String,
    ensures
        string_value(r) == v.deep_view(),
{
    match v {
        Some(AttributeValue::String(x)) => Some(x.clone()),
        _ => None,
    }
}

/// The tensor behind a `TENSOR` value.
pub fn get_tensor(v: Option<&AttributeValue>) -> (r: Option<crate::ir::Tensor>)
    requires
        v matches Some(x) ==> x.deep_view() is Tensor,
    ensures
        tensor_value(r) == v.deep_view(),
{
    match v {
        Some(AttributeValue::Tensor(x)) => Some((**x).clone()),
        _ => None,
    }
}

/// A list of values read with a schema is well typed for it.
pub proof fn lemma_parsed_well_typed(
    op: Seq<char>,
    entries: Seq<AttributeSpec>,
    fields: Seq<Field>,
)
    requires
        parse_fields(op, entries, fields) is Ok,
    ensures
        well_typed(fields, parse_fields(op, entries, fields)->Ok_0.0),
    decreases fields.len(),
{
    if fields.len() > 0 {
        let vs = parse_fields(op, entries, fields)->Ok_0.0;
        match take_field(op, entries, fields[0]) {
            Err(_) => {},
            Ok((v, rest)) => {
                lemma_parsed_well_typed(op, rest, fields.drop_first());
                let tail = parse_fields(op, rest, fields.drop_first())->Ok_0.0;
                assert(vs == seq![v] + tail);
                assert forall|k: int| 0 <= k < fields.len() implies match #[trigger] vs[k] {
                    Some(x) => kind_matches(x, fields[k].kind),
                    None => !fields[k].required,
                } by {
                    if k > 0 {
                        assert(vs[k] == tail[k - 1]);
                        assert(fields[k] == fields.drop_first()[k - 1]);
                    }
                }
            },
        }
    }
}

/// The values read from a node with a schema are well typed for it.
pub proof fn lemma_node_well_typed(
    op: Seq<char>,
    domain: Seq<char>,
    ins: Arity,
    outs: Arity,
    fields: Seq<Field>,
    n: NodeSpec,
)
    requires
        parse_node(op, domain, ins, outs, fields, n) is Ok,
    ensures
        well_typed(fields, parse_node(op, domain, ins, outs, fields, n)->Ok_0),
{
    lemma_parsed_well_typed(op, n.attributes, fields);
}

/// Reads a node in two stages: the fields of `first`, then `check` on
/// their values, then the fields of `second`, then the attributes left.
pub open spec fn parse_node_staged(
    op: Seq<char>,
    domain: Seq<char>,
    ins: Arity,
    outs: Arity,
    first: Seq<Field>,
    check: spec_fn(Seq<Option<AttributeValueSpec>>) -> Option<OpErrorSpec>,
    second: Seq<Field>,
    n: NodeSpec,
) -> Result<Seq<Option<AttributeValueSpec>>, OpErrorSpec> {
    match node_attrs(op, domain, ins, outs, n) {
        Err(e) => Err(e),
        Ok(t) => match parse_fields(op, t, first) {
            Err(e) => Err(e),
            Ok((v1, t1)) => match check(v1) {
                Some(e) => Err(e),
                None => match parse_fields(op, t1, second) {
                    Err(e) => Err(e),
                    Ok((v2, t2)) => match finish_error(op, t2) {
                        Some(e) => Err(e),
                        None => Ok(v1 + v2),
                    },
                },
            },
        },
    }
}

/// The values read by a staged parse are well typed for the two schemas.
pub proof fn lemma_staged_well_typed(
    op: Seq<char>,
    domain: Seq<char>,
    ins: Arity,
    outs: Arity,
    first: Seq<Field>,
    check: spec_fn(Seq<Option<AttributeValueSpec>>) -> Option<OpErrorSpec>,
    second: Seq<Field>,
    n: NodeSpec,
)
    requires
        parse_node_staged(op, domain, ins, outs, first, check, second, n) is Ok,
    ensures
        well_typed(first + second, parse_node_staged(op, domain, ins, outs, first, check, second, n)->Ok_0),
{
    let v1 = parse_fields(op, n.attributes, first)->Ok_0.0;
    let t1 = parse_fields(op, n.attributes, first)->Ok_0.1;
    let v2 = parse_fields(op, t1, second)->Ok_0.0;
    lemma_parsed_well_typed(op, n.attributes, first);
    lemma_parsed_well_typed(op, t1, second);
    let f = first + second;
    let v = v1 + v2;
    assert forall|k: int| 0 <= k < f.len() implies match #[trigger] v[k] {
        Some(x) => kind_matches(x, f[k].kind),
        None => !f[k].required,
    } by {
        if k < first.len() {
            assert(v[k] == v1[k]);
            assert(f[k] == first[k]);
        } else {
            assert(v[k] == v2[k - first.len()]);
            assert(f[k] == second[k - first.len()]);
        }
    }
}

/// Reading back, in two stages, the node written for well-typed values
/// that pass the check between the stages gives the values back.
pub proof fn lemma_staged_roundtrip(
    op: Seq<char>,
    domain: Seq<char>,
    ins: Arity,
    outs: Arity,
    first: Seq<Field>,
    check: spec_fn(Seq<Option<AttributeValueSpec>>) -> Option<OpErrorSpec>,
    second: Seq<Field>,
    v1: Seq<Option<AttributeValueSpec>>,
    v2: Seq<Option<AttributeValueSpec>>,
    inputs: Seq<Seq<char>>,
    outputs: Seq<Seq<char>>,
)
    requires
        well_typed(first, v1),
        well_typed(second, v2),
        distinct_names(first + second),
        check(v1) is None,
        emit_node(op, domain, ins, outs, first + second, v1 + v2, inputs, outputs) is Ok,
    ensures
        parse_node_staged(
            op,
            domain,
            ins,
            outs,
            first,
            check,
            second,
            emit_node(op, domain, ins, outs, first + second, v1 + v2, inputs, outputs)->Ok_0.node,
        ) == Ok::<Seq<Option<AttributeValueSpec>>, OpErrorSpec>(v1 + v2),
{
    let f = first + second;
    let v = v1 + v2;
    assert(well_typed(f, v)) by {
        assert forall|k: int| 0 <= k < f.len() implies match #[trigger] v[k] {
            Some(x) => kind_matches(x, f[k].kind),
            None => !f[k].required,
        } by {
            if k < first.len() {
                assert(v[k] == v1[k]);
                assert(f[k] == first[k]);
            } else {
                assert(v[k] == v2[k - first.len()]);
                assert(f[k] == second[k - first.len()]);
            }
        }
    }
    lemma_emit_concat(first, v1, second, v2);
    lemma_emit_distinct(f, v);
    lemma_no_dup_error(op, entry_names(emit_attrs(f, v)));
    let e2 = emit_attrs(second, v2);
    assert(distinct_names(first)) by {
        assert forall|i: int, j: int| 0 <= i < j < first.len() implies #[trigger] first[i].name@
            != #[trigger] first[j].name@ by {
            assert(first[i] == f[i]);
            assert(first[j] == f[j]);
        }
    }
    assert(distinct_names(second)) by {
        assert forall|i: int, j: int| 0 <= i < j < second.len() implies #[trigger] second[i].name@
            != #[trigger] second[j].name@ by {
            assert(second[i] == f[first.len() + i]);
            assert(second[j] == f[first.len() + j]);
        }
    }
    assert(names_outside(e2, first)) by {
        assert forall|i: int, k: int| 0 <= i < e2.len() && 0 <= k < first.len() implies #[trigger] e2[i].name
            != #[trigger] first[k].name@ by {
            lemma_emit_names(second, v2, i);
            let w = choose|w: int|
                0 <= w < second.len() && #[trigger] second[w].name@ == e2[i].name && v2[w]
                    == Some(e2[i].value);
            assert(second[w] == f[first.len() + w]);
            assert(first[k] == f[k]);
        }
    }
    lemma_parse_emitted(op, first, v1, e2);
    lemma_parse_emitted(op, second, v2, Seq::empty());
    assert(e2 + Seq::<AttributeSpec>::empty() =~= e2);
}

} // verus!
