use super::cycle::{
    deps, deps_of_inputs, detect_cycle, dfs_cycle, has_dep_cycle, is_dep_cycle, lemma_producer, node_label_spec,
    produces, producer,
};
use super::graph::{Graph, GraphSpec, Model, NodeSpec, ValueInfo, ValueInfoSpec};
use super::types::{Dim, ValueType, ValueTypeSpec};
use crate::text::{debug_quoted, decimal, push_str, quoted, usize_to_string};
use vstd::prelude::*;

verus! {

/// Mathematical model of [`ValidationError`].
#[allow(inconsistent_fields)]
pub enum ValidationErrorSpec {
    GraphMissingName,
    DuplicateOutput { node_index: usize, name: Seq<char> },
    DuplicateInput { node_index: usize, name: Seq<char> },
    DuplicateValueInfo { kind: Seq<char>, name: Seq<char> },
    DuplicateInitializer { name: Seq<char> },
    UndefinedValue { node_index: usize, name: Seq<char> },
    Cycle { path: Seq<Seq<char>> },
    MissingShape { kind: Seq<char>, name: Seq<char> },
    MultipleGraphOutputsForValue { name: Seq<char> },
    UndefinedGraphOutput { name: Seq<char> },
}

/// A structural problem of a graph.
#[derive(Debug, PartialEq)]
pub enum ValidationError {
    GraphMissingName,
    DuplicateOutput { node_index: usize, name: String },
    DuplicateInput { node_index: usize, name: String },
    DuplicateValueInfo { kind: &'static str, name: String },
    DuplicateInitializer { name: String },
    UndefinedValue { node_index: usize, name: String },
    Cycle { path: Vec<String> },
    MissingShape { kind: &'static str, name: String },
    MultipleGraphOutputsForValue { name: String },
    UndefinedGraphOutput { name: String },
}

impl DeepView for ValidationError {
    type V = ValidationErrorSpec;

    open spec fn deep_view(&self) -> ValidationErrorSpec {
        match self {
            ValidationError::GraphMissingName => ValidationErrorSpec::GraphMissingName,
            ValidationError::DuplicateOutput { node_index, name } =>
                ValidationErrorSpec::DuplicateOutput { node_index: *node_index, name: name@ },
            ValidationError::DuplicateInput { node_index, name } =>
                ValidationErrorSpec::DuplicateInput { node_index: *node_index, name: name@ },
            ValidationError::DuplicateValueInfo { kind, name } =>
                ValidationErrorSpec::DuplicateValueInfo { kind: kind@, name: name@ },
            ValidationError::DuplicateInitializer { name } =>
                ValidationErrorSpec::DuplicateInitializer { name: name@ },
            ValidationError::UndefinedValue { node_index, name } =>
                ValidationErrorSpec::UndefinedValue { node_index: *node_index, name: name@ },
            ValidationError::Cycle { path } => ValidationErrorSpec::Cycle {
                path: path.deep_view(),
            },
            ValidationError::MissingShape { kind, name } => ValidationErrorSpec::MissingShape {
                kind: kind@,
                name: name@,
            },
            ValidationError::MultipleGraphOutputsForValue { name } =>
                ValidationErrorSpec::MultipleGraphOutputsForValue { name: name@ },
            ValidationError::UndefinedGraphOutput { name } =>
                ValidationErrorSpec::UndefinedGraphOutput { name: name@ },
        }
    }
}

impl Clone for ValidationError {
    fn clone(&self) -> (r: Self)
        ensures
            r.deep_view() == self.deep_view(),
    {
        match self {
            ValidationError::GraphMissingName => ValidationError::GraphMissingName,
            ValidationError::DuplicateOutput { node_index, name } =>
                ValidationError::DuplicateOutput { node_index: *node_index, name: name.clone() },
            ValidationError::DuplicateInput { node_index, name } =>
                ValidationError::DuplicateInput { node_index: *node_index, name: name.clone() },
            ValidationError::DuplicateValueInfo { kind, name } =>
                ValidationError::DuplicateValueInfo { kind: *kind, name: name.clone() },
            ValidationError::DuplicateInitializer { name } =>
                ValidationError::DuplicateInitializer { name: name.clone() },
            ValidationError::UndefinedValue { node_index, name } =>
                ValidationError::UndefinedValue { node_index: *node_index, name: name.clone() },
            ValidationError::Cycle { path } => {
                let p = path.clone();
                proof {
                    assert(p.deep_view() =~= path.deep_view());
                }
                ValidationError::Cycle { path: p }
            },
            ValidationError::MissingShape { kind, name } => ValidationError::MissingShape {
                kind: *kind,
                name: name.clone(),
            },
            ValidationError::MultipleGraphOutputsForValue { name } =>
                ValidationError::MultipleGraphOutputsForValue { name: name.clone() },
            ValidationError::UndefinedGraphOutput { name } =>
                ValidationError::UndefinedGraphOutput { name: name.clone() },
        }
    }
}

/// All problems found in a graph.
#[derive(Debug, PartialEq)]
pub struct ValidationReport {
    pub errors: Vec<ValidationError>,
}

/// Texts joined with a separator between each two.
pub open spec fn joined(parts: Seq<Seq<char>>, sep: Seq<char>) -> Seq<char>
    decreases parts.len(),
{
    if parts.len() == 0 {
        Seq::empty()
    } else if parts.len() == 1 {
        parts[0]
    } else {
        joined(parts.drop_last(), sep) + sep + parts.last()
    }
}

/// Texts joined with a separator between each two.
pub fn join_texts(parts: &Vec<String>, sep: &str) -> (r: String)
    ensures
        r@ == joined(parts.deep_view(), sep@),
{
    let mut out = String::new();
    let mut i: usize = 0;
    proof {
        assert(parts.deep_view().take(0) =~= Seq::<Seq<char>>::empty());
    }
    while i < parts.len()
        invariant
            0 <= i <= parts@.len(),
            out@ == joined(parts.deep_view().take(i as int), sep@),
        decreases parts@.len() - i,
    {
        let ghost before = out@;
        proof {
            assert(parts.deep_view().take(i + 1).drop_last() =~= parts.deep_view().take(i as int));
            assert(parts.deep_view().take(i + 1).last() == parts@[i as int]@);
        }
        if i > 0 {
            push_str(&mut out, sep);
        } else {
            assert(before =~= Seq::<char>::empty());
        }
        push_str(&mut out, parts[i].as_str());
        proof {
            if i == 0 {
                assert(out@ =~= parts@[0]@);
                assert(parts.deep_view().take(1)[0] == parts@[0]@);
            }
        }
        i = i + 1;
    }
    proof {
        assert(parts.deep_view().take(i as int) =~= parts.deep_view());
    }
    out
}

/// The text of a validation error.
pub open spec fn validation_error_text(e: ValidationErrorSpec) -> Seq<char> {
    match e {
        ValidationErrorSpec::GraphMissingName => "graph has no name"@,
        ValidationErrorSpec::DuplicateOutput { node_index, name } => "node "@ + decimal(
            node_index as nat,
        ) + " declares duplicate output name "@ + debug_quoted(name),
        ValidationErrorSpec::DuplicateInput { node_index, name } => "node "@ + decimal(
            node_index as nat,
        ) + " declares duplicate input name "@ + debug_quoted(name),
        ValidationErrorSpec::DuplicateValueInfo { kind, name } => "duplicate "@ + kind
            + " value info name "@ + debug_quoted(name),
        ValidationErrorSpec::DuplicateInitializer { name } => "duplicate initializer name "@
            + debug_quoted(name),
        ValidationErrorSpec::UndefinedValue { node_index, name } => "node "@ + decimal(
            node_index as nat,
        ) + " references undefined value "@ + debug_quoted(name),
        ValidationErrorSpec::Cycle { path } => "graph contains a cycle: "@ + joined(path, " -> "@),
        ValidationErrorSpec::MissingShape { kind, name } => kind + " "@ + debug_quoted(name)
            + " of the main graph has no type/shape (rank)"@,
        ValidationErrorSpec::MultipleGraphOutputsForValue { name } => "value "@ + debug_quoted(
            name,
        ) + " appears more than once in graph outputs"@,
        ValidationErrorSpec::UndefinedGraphOutput { name } => "graph output "@ + debug_quoted(name)
            + " is not defined by an input, an initializer or a node"@,
    }
}

impl ValidationError {
    /// The error as text.
    pub fn message(&self) -> (r: String)
        ensures
            r@ == validation_error_text(self.deep_view()),
    {
        match self {
            ValidationError::GraphMissingName => String::from_str("graph has no name"),
            ValidationError::DuplicateOutput { node_index, name } => {
                let mut m = String::from_str("node ");
                push_str(&mut m, usize_to_string(*node_index).as_str());
                push_str(&mut m, " declares duplicate output name ");
                push_str(&mut m, quoted(name.as_str()).as_str());
                m
            },
            ValidationError::DuplicateInput { node_index, name } => {
                let mut m = String::from_str("node ");
                push_str(&mut m, usize_to_string(*node_index).as_str());
                push_str(&mut m, " declares duplicate input name ");
                push_str(&mut m, quoted(name.as_str()).as_str());
                m
            },
            ValidationError::DuplicateValueInfo { kind, name } => {
                let mut m = String::from_str("duplicate ");
                push_str(&mut m, kind);
                push_str(&mut m, " value info name ");
                push_str(&mut m, quoted(name.as_str()).as_str());
                m
            },
            ValidationError::DuplicateInitializer { name } => {
                let mut m = String::from_str("duplicate initializer name ");
                push_str(&mut m, quoted(name.as_str()).as_str());
                m
            },
            ValidationError::UndefinedValue { node_index, name } => {
                let mut m = String::from_str("node ");
                push_str(&mut m, usize_to_string(*node_index).as_str());
                push_str(&mut m, " references undefined value ");
                push_str(&mut m, quoted(name.as_str()).as_str());
                m
            },
            ValidationError::Cycle { path } => {
                let mut m = String::from_str("graph contains a cycle: ");
                push_str(&mut m, join_texts(path, " -> ").as_str());
                m
            },
            ValidationError::MissingShape { kind, name } => {
                let mut m = String::from_str(kind);
                push_str(&mut m, " ");
                push_str(&mut m, quoted(name.as_str()).as_str());
                push_str(&mut m, " of the main graph has no type/shape (rank)");
                m
            },
            ValidationError::MultipleGraphOutputsForValue { name } => {
                let mut m = String::from_str("value ");
                push_str(&mut m, quoted(name.as_str()).as_str());
                push_str(&mut m, " appears more than once in graph outputs");
                m
            },
            ValidationError::UndefinedGraphOutput { name } => {
                let mut m = String::from_str("graph output ");
                push_str(&mut m, quoted(name.as_str()).as_str());
                push_str(&mut m, " is not defined by an input, an initializer or a node");
                m
            },
        }
    }
}

/// The texts of validation errors.
pub open spec fn validation_texts(errors: Seq<ValidationErrorSpec>) -> Seq<Seq<char>> {
    errors.map_values(|e: ValidationErrorSpec| validation_error_text(e))
}

/// The texts of validation errors.
pub fn validation_messages(errors: &Vec<ValidationError>) -> (r: Vec<String>)
    ensures
        r.deep_view() == validation_texts(errors.deep_view()),
{
    let mut r: Vec<String> = Vec::new();
    let mut i: usize = 0;
    while i < errors.len()
        invariant
            0 <= i <= errors@.len(),
            r.deep_view() == validation_texts(errors.deep_view().take(i as int)),
        decreases errors@.len() - i,
    {
        let ghost before = r.deep_view();
        r.push(errors[i].message());
        proof {
            assert(r.deep_view() =~= before.push(validation_error_text(errors.deep_view()[i as int])));
            assert(errors.deep_view().take(i + 1) =~= errors.deep_view().take(i as int).push(
                errors.deep_view()[i as int],
            ));
            assert(r.deep_view() =~= validation_texts(errors.deep_view().take(i + 1)));
        }
        i = i + 1;
    }
    proof {
        assert(errors.deep_view().take(i as int) =~= errors.deep_view());
    }
    r
}

impl ValidationReport {
    /// The report as text: each error on a line of its own.
    pub fn message(&self) -> (r: String)
        ensures
            r@ == joined(validation_texts(self.errors.deep_view()), "\n"@),
    {
        join_texts(&validation_messages(&self.errors), "\n")
    }

    /// Whether no problem was found.
    pub fn is_ok(&self) -> (r: bool)
        ensures
            r == (self.errors@.len() == 0),
    {
        self.errors.len() == 0
    }

    /// `Ok` when no problem was found, else the problems.
    pub fn into_result(self) -> (r: Result<(), Vec<ValidationError>>)
        ensures
            self.errors@.len() == 0 ==> r is Ok,
            self.errors@.len() > 0 ==> (r matches Err(e) && e.deep_view() == self.errors.deep_view()),
    {
        if self.errors.len() == 0 {
            Ok(())
        } else {
            Err(self.errors)
        }
    }
}

/// Whether a value type carries a rank everywhere a tensor type occurs in it.
pub open spec fn spec_has_rank(vt: ValueTypeSpec) -> bool
    decreases vt,
{
    match vt {
        ValueTypeSpec::Tensor(t) => t.shape is Some,
        ValueTypeSpec::SparseTensor(t) => t.shape is Some,
        ValueTypeSpec::Sequence(inner) => spec_has_rank(*inner),
        ValueTypeSpec::Optional(inner) => spec_has_rank(*inner),
        ValueTypeSpec::MapType { value, .. } => spec_has_rank(*value),
        ValueTypeSpec::Opaque { .. } => true,
    }
}

/// Whether a value type carries a rank.
pub fn value_type_has_rank(vt: &ValueType) -> (r: bool)
    ensures
        r == spec_has_rank(vt.deep_view()),
    decreases vt,
{
    match vt {
        ValueType::Tensor(t) => t.shape.is_some(),
        ValueType::SparseTensor(t) => t.shape.is_some(),
        ValueType::Sequence(inner) => value_type_has_rank(inner),
        ValueType::Optional(inner) => value_type_has_rank(inner),
        ValueType::MapType { value, .. } => value_type_has_rank(value),
        ValueType::Opaque { .. } => true,
    }
}

/// Whether a dimension is fixed.
pub fn is_dim_fixed(d: &Dim) -> (r: bool)
    ensures
        r == (d is Fixed),
{
    match d {
        Dim::Fixed(_) => true,
        _ => false,
    }
}

/// One error for each value info without a name.
pub open spec fn unnamed_errors(vis: Seq<ValueInfoSpec>) -> Seq<ValidationErrorSpec>
    decreases vis.len(),
{
    if vis.len() == 0 {
        Seq::empty()
    } else {
        unnamed_errors(vis.drop_last()) + if vis.last().name.len() == 0 {
            seq![
                ValidationErrorSpec::DuplicateValueInfo {
                    kind: "unnamed"@,
                    name: vis.last().name,
                },
            ]
        } else {
            Seq::empty()
        }
    }
}

/// One error for each name that repeats an earlier name of the list.
pub open spec fn repeat_errors(kind: Seq<char>, names: Seq<Seq<char>>) -> Seq<ValidationErrorSpec>
    decreases names.len(),
{
    if names.len() == 0 {
        Seq::empty()
    } else {
        repeat_errors(kind, names.drop_last()) + if names.drop_last().contains(names.last()) {
            seq![ValidationErrorSpec::DuplicateValueInfo { kind, name: names.last() }]
        } else {
            Seq::empty()
        }
    }
}

/// One error for each initializer name that repeats an earlier one.
pub open spec fn repeat_initializer_errors(names: Seq<Seq<char>>) -> Seq<ValidationErrorSpec>
    decreases names.len(),
{
    if names.len() == 0 {
        Seq::empty()
    } else {
        repeat_initializer_errors(names.drop_last()) + if names.drop_last().contains(
            names.last(),
        ) {
            seq![ValidationErrorSpec::DuplicateInitializer { name: names.last() }]
        } else {
            Seq::empty()
        }
    }
}

/// The names of a list of value infos.
pub open spec fn info_names(vis: Seq<ValueInfoSpec>) -> Seq<Seq<char>> {
    vis.map_values(|v: ValueInfoSpec| v.name)
}

/// The values produced by the first `k` nodes (empty output names excluded).
pub open spec fn produced_before(nodes: Seq<NodeSpec>, k: int) -> Set<Seq<char>> {
    Set::new(
        |s: Seq<char>|
            s.len() > 0 && exists|j: int| 0 <= j < k && #[trigger] nodes[j].outputs.contains(s),
    )
}

/// The values available to node `k`: initializers, graph inputs, and the
/// outputs of the nodes before it.
pub open spec fn defined_before(g: GraphSpec, k: int) -> Set<Seq<char>> {
    Set::new(
        |s: Seq<char>|
            g.initializers.map_values(|t: super::tensor::TensorSpec| t.name).contains(s)
                || info_names(g.inputs).contains(s) || produced_before(g.nodes, k).contains(s),
    )
}

/// One error for each non-empty input of node `k` that is not available.
pub open spec fn undefined_errors(k: usize, inputs: Seq<Seq<char>>, defined: Set<Seq<char>>) -> Seq<
    ValidationErrorSpec,
>
    decreases inputs.len(),
{
    if inputs.len() == 0 {
        Seq::empty()
    } else {
        undefined_errors(k, inputs.drop_last(), defined) + if inputs.last().len() > 0
            && !defined.contains(inputs.last()) {
            seq![ValidationErrorSpec::UndefinedValue { node_index: k, name: inputs.last() }]
        } else {
            Seq::empty()
        }
    }
}

/// One error for each non-empty output of node `k` that is already defined:
/// by a graph input, an initializer, an earlier node, or an earlier output
/// of the same node.
pub open spec fn duplicate_output_errors(
    k: usize,
    outputs: Seq<Seq<char>>,
    produced: Set<Seq<char>>,
) -> Seq<ValidationErrorSpec>
    decreases outputs.len(),
{
    if outputs.len() == 0 {
        Seq::empty()
    } else {
        duplicate_output_errors(k, outputs.drop_last(), produced) + if outputs.last().len() > 0
            && (produced.contains(outputs.last()) || outputs.drop_last().contains(
            outputs.last(),
        )) {
            seq![ValidationErrorSpec::DuplicateOutput { node_index: k, name: outputs.last() }]
        } else {
            Seq::empty()
        }
    }
}

/// The errors of the first `k` nodes: undefined inputs, then repeated outputs,
/// node by node.
pub open spec fn node_errors(g: GraphSpec, k: int) -> Seq<ValidationErrorSpec>
    decreases k,
{
    if k <= 0 {
        Seq::empty()
    } else {
        node_errors(g, k - 1) + undefined_errors(
            (k - 1) as usize,
            g.nodes[k - 1].inputs,
            defined_before(g, k - 1),
        ) + duplicate_output_errors(
            (k - 1) as usize,
            g.nodes[k - 1].outputs,
            defined_before(g, k - 1),
        )
    }
}

/// One error for each named graph output that is not defined.
pub open spec fn undefined_output_errors(outputs: Seq<ValueInfoSpec>, defined: Set<Seq<char>>) -> Seq<
    ValidationErrorSpec,
>
    decreases outputs.len(),
{
    if outputs.len() == 0 {
        Seq::empty()
    } else {
        undefined_output_errors(outputs.drop_last(), defined) + if outputs.last().name.len() > 0
            && !defined.contains(outputs.last().name) {
            seq![ValidationErrorSpec::UndefinedGraphOutput { name: outputs.last().name }]
        } else {
            Seq::empty()
        }
    }
}

/// One error for each value info that has no type or an unranked type.
pub open spec fn shape_errors(kind: Seq<char>, vis: Seq<ValueInfoSpec>) -> Seq<ValidationErrorSpec>
    decreases vis.len(),
{
    if vis.len() == 0 {
        Seq::empty()
    } else {
        shape_errors(kind, vis.drop_last()) + if vis.last().value_type is None || !spec_has_rank(
            vis.last().value_type->0,
        ) {
            seq![ValidationErrorSpec::MissingShape { kind, name: vis.last().name }]
        } else {
            Seq::empty()
        }
    }
}

/// The errors found before the cycle check, in report order.
pub open spec fn errors_before_cycle(g: GraphSpec) -> Seq<ValidationErrorSpec> {
    (if g.name.len() == 0 {
        seq![ValidationErrorSpec::GraphMissingName]
    } else {
        Seq::empty()
    }) + unnamed_errors(g.inputs) + unnamed_errors(g.outputs) + unnamed_errors(g.value_info)
        + repeat_errors(
        "input"@,
        info_names(g.inputs),
    ) + repeat_errors("output"@, info_names(g.outputs)) + repeat_errors(
        "value_info"@,
        info_names(g.value_info),
    ) + repeat_initializer_errors(g.initializers.map_values(|t: super::tensor::TensorSpec| t.name))
        + node_errors(g, g.nodes.len() as int) + undefined_output_errors(
        g.outputs,
        defined_before(g, g.nodes.len() as int),
    )
}

/// The errors found after the cycle check, in report order.
pub open spec fn errors_after_cycle(g: GraphSpec) -> Seq<ValidationErrorSpec> {
    shape_errors("output"@, g.outputs) + shape_errors("input"@, g.inputs)
}

/// What the cycle check contributes to a report: nothing for an acyclic
/// graph, else one `Cycle` error naming the nodes of the dependency cycle
/// that the depth-first search in node order finds ([`dfs_cycle`]).
pub open spec fn cycle_errors_ok(g: GraphSpec, part: Seq<ValidationErrorSpec>) -> bool {
    &&& part.len() == 0 <==> dfs_cycle(g.nodes) is None
    &&& dfs_cycle(g.nodes) matches Some(c) ==> part == seq![
        ValidationErrorSpec::Cycle { path: c.map_values(|u: int| node_label_spec(g.nodes[u])) },
    ]
    &&& {
        ||| part.len() == 0 && !has_dep_cycle(g.nodes)
        ||| part.len() == 1 && (part[0] matches ValidationErrorSpec::Cycle { path } && exists|
            c: Seq<int>,
        |
            #[trigger] is_dep_cycle(g.nodes, c) && path == c.map_values(
                |u: int| node_label_spec(g.nodes[u]),
            ))
    }
}

/// Whether a report lists exactly the errors of the graph, in report order.
pub open spec fn is_report_of(g: GraphSpec, e: Seq<ValidationErrorSpec>) -> bool {
    let a = errors_before_cycle(g).len();
    let b = errors_after_cycle(g).len();
    &&& e.len() >= a + b
    &&& e.subrange(0, a as int) == errors_before_cycle(g)
    &&& e.subrange(e.len() - b, e.len() as int) == errors_after_cycle(g)
    &&& cycle_errors_ok(g, e.subrange(a as int, e.len() - b))
}

/// Whether `v` holds `s`.
pub fn contains_name(v: &Vec<String>, s: &String) -> (r: bool)
    ensures
        r == v.deep_view().contains(s@),
{
    let mut i: usize = 0;
    while i < v.len()
        invariant
            0 <= i <= v.len(),
            forall|j: int| 0 <= j < i ==> v.deep_view()[j] != s@,
        decreases v.len() - i,
    {
        if v[i] == *s {
            proof {
                assert(v.deep_view()[i as int] == s@);
            }
            return true;
        }
        i = i + 1;
    }
    false
}

fn push_unnamed(errors: &mut Vec<ValidationError>, list: &Vec<ValueInfo>)
    ensures
        final(errors).deep_view() == old(errors).deep_view() + unnamed_errors(list.deep_view()),
{
    let ghost start = errors.deep_view();
    let mut i: usize = 0;
    proof {
        assert(list.deep_view().take(0) =~= Seq::<ValueInfoSpec>::empty());
        assert(start + unnamed_errors(Seq::<ValueInfoSpec>::empty()) =~= start);
    }
    while i < list.len()
        invariant
            0 <= i <= list.len(),
            errors.deep_view() == start + unnamed_errors(list.deep_view().take(i as int)),
        decreases list.len() - i,
    {
        let ghost before = errors.deep_view();
        proof {
            assert(list.deep_view().take(i + 1).drop_last() =~= list.deep_view().take(i as int));
        }
        if list[i].name.as_str().is_empty() {
            errors.push(
                ValidationError::DuplicateValueInfo { kind: "unnamed", name: list[i].name.clone() },
            );
            proof {
                assert(errors.deep_view() =~= before.push(
                    ValidationErrorSpec::DuplicateValueInfo {
                        kind: "unnamed"@,
                        name: list.deep_view()[i as int].name,
                    },
                ));
            }
        }
        proof {
            assert(errors.deep_view() =~= start + unnamed_errors(list.deep_view().take(i + 1)));
        }
        i = i + 1;
    }
    proof {
        assert(list.deep_view().take(i as int) =~= list.deep_view());
    }
}

fn push_repeats(errors: &mut Vec<ValidationError>, kind: &'static str, list: &Vec<ValueInfo>)
    ensures
        final(errors).deep_view() == old(errors).deep_view() + repeat_errors(
            kind@,
            info_names(list.deep_view()),
        ),
{
    let ghost start = errors.deep_view();
    let ghost names = info_names(list.deep_view());
    let mut seen: Vec<String> = Vec::new();
    let mut i: usize = 0;
    proof {
        assert(names.take(0) =~= Seq::<Seq<char>>::empty());
        assert(start + repeat_errors(kind@, Seq::<Seq<char>>::empty()) =~= start);
    }
    while i < list.len()
        invariant
            0 <= i <= list.len(),
            names == info_names(list.deep_view()),
            seen.deep_view() == names.take(i as int),
            errors.deep_view() == start + repeat_errors(kind@, names.take(i as int)),
        decreases list.len() - i,
    {
        let ghost before = errors.deep_view();
        proof {
            assert(names.take(i + 1).drop_last() =~= names.take(i as int));
            assert(names.take(i + 1).last() == list[i as int].name@);
        }
        if contains_name(&seen, &list[i].name) {
            errors.push(ValidationError::DuplicateValueInfo { kind, name: list[i].name.clone() });
            proof {
                assert(errors.deep_view() =~= before.push(
                    ValidationErrorSpec::DuplicateValueInfo { kind: kind@, name: list[i as int].name@ },
                ));
            }
        }
        proof {
            assert(errors.deep_view() =~= start + repeat_errors(kind@, names.take(i + 1)));
        }
        seen.push(list[i].name.clone());
        proof {
            assert(seen.deep_view() =~= names.take(i + 1));
        }
        i = i + 1;
    }
    proof {
        assert(names.take(i as int) =~= names);
    }
}

fn push_initializer_repeats(errors: &mut Vec<ValidationError>, graph: &Graph)
    ensures
        final(errors).deep_view() == old(errors).deep_view() + repeat_initializer_errors(
            graph.deep_view().initializers.map_values(|t: super::tensor::TensorSpec| t.name),
        ),
{
    let ghost start = errors.deep_view();
    let ghost names = graph.deep_view().initializers.map_values(
        |t: super::tensor::TensorSpec| t.name,
    );
    let mut seen: Vec<String> = Vec::new();
    let mut i: usize = 0;
    proof {
        assert(names.take(0) =~= Seq::<Seq<char>>::empty());
        assert(start + repeat_initializer_errors(Seq::<Seq<char>>::empty()) =~= start);
    }
    while i < graph.initializers.len()
        invariant
            0 <= i <= graph.initializers.len(),
            names == graph.deep_view().initializers.map_values(
                |t: super::tensor::TensorSpec| t.name,
            ),
            seen.deep_view() == names.take(i as int),
            errors.deep_view() == start + repeat_initializer_errors(names.take(i as int)),
        decreases graph.initializers.len() - i,
    {
        let ghost before = errors.deep_view();
        proof {
            assert(names.take(i + 1).drop_last() =~= names.take(i as int));
            assert(names.take(i + 1).last() == graph.initializers[i as int].name@);
        }
        let name = &graph.initializers[i].name;
        if contains_name(&seen, name) {
            errors.push(ValidationError::DuplicateInitializer { name: name.clone() });
            proof {
                assert(errors.deep_view() =~= before.push(
                    ValidationErrorSpec::DuplicateInitializer { name: name@ },
                ));
            }
        }
        proof {
            assert(errors.deep_view() =~= start + repeat_initializer_errors(names.take(i + 1)));
        }
        seen.push(name.clone());
        proof {
            assert(seen.deep_view() =~= names.take(i + 1));
        }
        i = i + 1;
    }
    proof {
        assert(names.take(i as int) =~= names);
    }
}

fn push_shape_errors(errors: &mut Vec<ValidationError>, kind: &'static str, list: &Vec<ValueInfo>)
    ensures
        final(errors).deep_view() == old(errors).deep_view() + shape_errors(kind@, list.deep_view()),
{
    let ghost start = errors.deep_view();
    let mut i: usize = 0;
    proof {
        assert(list.deep_view().take(0) =~= Seq::<ValueInfoSpec>::empty());
        assert(start + shape_errors(kind@, Seq::<ValueInfoSpec>::empty()) =~= start);
    }
    while i < list.len()
        invariant
            0 <= i <= list.len(),
            errors.deep_view() == start + shape_errors(kind@, list.deep_view().take(i as int)),
        decreases list.len() - i,
    {
        let ghost before = errors.deep_view();
        proof {
            assert(list.deep_view().take(i + 1).drop_last() =~= list.deep_view().take(i as int));
        }
        let unshaped = match &list[i].value_type {
            None => true,
            Some(vt) => !value_type_has_rank(vt),
        };
        if unshaped {
            errors.push(ValidationError::MissingShape { kind, name: list[i].name.clone() });
            proof {
                assert(errors.deep_view() =~= before.push(
                    ValidationErrorSpec::MissingShape { kind: kind@, name: list[i as int].name@ },
                ));
            }
        }
        proof {
            assert(errors.deep_view() =~= start + shape_errors(kind@, list.deep_view().take(i + 1)));
        }
        i = i + 1;
    }
    proof {
        assert(list.deep_view().take(i as int) =~= list.deep_view());
    }
}

/// The names available before the first node: initializers, then graph inputs.
fn collect_defined(graph: &Graph) -> (defined: Vec<String>)
    ensures
        forall|s: Seq<char>|
            defined.deep_view().contains(s) <==> #[trigger] defined_before(
                graph.deep_view(),
                0,
            ).contains(s),
{
    let ghost g = graph.deep_view();
    let ghost init_names = g.initializers.map_values(|t: super::tensor::TensorSpec| t.name);
    let mut defined: Vec<String> = Vec::new();
    let mut i: usize = 0;
    while i < graph.initializers.len()
        invariant
            0 <= i <= graph.initializers.len(),
            g == graph.deep_view(),
            init_names == g.initializers.map_values(|t: super::tensor::TensorSpec| t.name),
            defined.deep_view() == init_names.take(i as int),
        decreases graph.initializers.len() - i,
    {
        let ghost prev = defined.deep_view();
        let name = &graph.initializers[i].name;
        proof {
            assert(init_names.take(i + 1) =~= init_names.take(i as int).push(name@));
        }
        defined.push(name.clone());
        proof {
            assert(defined.deep_view() =~= prev.push(name@));
        }
        i = i + 1;
    }
    proof {
        assert(init_names.take(i as int) =~= init_names);
    }
    let ghost names = info_names(g.inputs);
    let mut i: usize = 0;
    while i < graph.inputs.len()
        invariant
            0 <= i <= graph.inputs.len(),
            g == graph.deep_view(),
            names == info_names(g.inputs),
            defined.deep_view() == init_names + names.take(i as int),
        decreases graph.inputs.len() - i,
    {
        let ghost prev = defined.deep_view();
        let name = &graph.inputs[i].name;
        proof {
            assert(names.take(i + 1) =~= names.take(i as int).push(name@));
            assert(init_names + names.take(i + 1) =~= (init_names + names.take(i as int)).push(
                name@,
            ));
        }
        defined.push(name.clone());
        proof {
            assert(defined.deep_view() =~= prev.push(name@));
        }
        i = i + 1;
    }
    proof {
        assert(names.take(i as int) =~= names);
        let d = defined.deep_view();
        assert forall|s: Seq<char>| d.contains(s) <==> #[trigger] defined_before(g, 0).contains(
            s,
        ) by {
            vstd::seq_lib::lemma_seq_concat_contains_all_elements(init_names, names, s);
        }
    }
    defined
}

/// Reports the inputs of node `idx` that are not among `defined`.
fn push_undefined(
    errors: &mut Vec<ValidationError>,
    idx: usize,
    inputs: &Vec<String>,
    defined: &Vec<String>,
    Ghost(avail): Ghost<Set<Seq<char>>>,
)
    requires
        forall|s: Seq<char>| defined.deep_view().contains(s) <==> #[trigger] avail.contains(s),
    ensures
        final(errors).deep_view() == old(errors).deep_view() + undefined_errors(
            idx,
            inputs.deep_view(),
            avail,
        ),
{
    let ghost start = errors.deep_view();
    let ghost ins = inputs.deep_view();
    let mut j: usize = 0;
    proof {
        assert(ins.take(0) =~= Seq::<Seq<char>>::empty());
        assert(start + undefined_errors(idx, ins.take(0), avail) =~= start);
    }
    while j < inputs.len()
        invariant
            0 <= j <= inputs.len(),
            ins == inputs.deep_view(),
            forall|s: Seq<char>| defined.deep_view().contains(s) <==> #[trigger] avail.contains(s),
            errors.deep_view() == start + undefined_errors(idx, ins.take(j as int), avail),
        decreases inputs.len() - j,
    {
        let ghost before = errors.deep_view();
        proof {
            assert(ins.take(j + 1).drop_last() =~= ins.take(j as int));
            assert(ins.take(j + 1).last() == inputs[j as int]@);
        }
        let inp = &inputs[j];
        if !inp.as_str().is_empty() && !contains_name(defined, inp) {
            errors.push(ValidationError::UndefinedValue { node_index: idx, name: inp.clone() });
            proof {
                assert(errors.deep_view() =~= before.push(
                    ValidationErrorSpec::UndefinedValue { node_index: idx, name: inp@ },
                ));
            }
        }
        proof {
            assert(errors.deep_view() =~= start + undefined_errors(idx, ins.take(j + 1), avail));
        }
        j = j + 1;
    }
    proof {
        assert(ins.take(j as int) =~= ins);
    }
}

/// Records the outputs of node `idx` as defined, reporting those already
/// defined.
fn push_duplicate_outputs(
    errors: &mut Vec<ValidationError>,
    idx: usize,
    outputs: &Vec<String>,
    defined: &mut Vec<String>,
    Ghost(avail): Ghost<Set<Seq<char>>>,
)
    requires
        forall|s: Seq<char>| old(defined).deep_view().contains(s) <==> #[trigger] avail.contains(s),
    ensures
        final(errors).deep_view() == old(errors).deep_view() + duplicate_output_errors(
            idx,
            outputs.deep_view(),
            avail,
        ),
        forall|s: Seq<char>|
            #[trigger] final(defined).deep_view().contains(s) <==> (avail.contains(s) || (s.len()
                > 0 && outputs.deep_view().contains(s))),
{
    let ghost start = errors.deep_view();
    let ghost outs = outputs.deep_view();
    let ghost mut seen: Seq<Seq<char>> = Seq::empty();
    let mut j: usize = 0;
    proof {
        assert(start + duplicate_output_errors(idx, seen, avail) =~= start);
    }
    while j < outputs.len()
        invariant
            0 <= j <= outputs.len(),
            outs == outputs.deep_view(),
            seen == outs.take(j as int),
            forall|s: Seq<char>|
                defined.deep_view().contains(s) <==> (#[trigger] avail.contains(s) || (s.len() > 0
                    && seen.contains(s))),
            errors.deep_view() == start + duplicate_output_errors(idx, seen, avail),
        decreases outputs.len() - j,
    {
        let ghost before = errors.deep_view();
        let ghost old_defined = defined.deep_view();
        let ghost old_seen = seen;
        let out = &outputs[j];
        proof {
            seen = seen.push(out@);
            assert(seen =~= outs.take(j + 1));
            assert(seen.drop_last() =~= old_seen);
        }
        if !out.as_str().is_empty() {
            if contains_name(defined, out) {
                errors.push(ValidationError::DuplicateOutput { node_index: idx, name: out.clone() });
                proof {
                    assert(avail.contains(out@) || old_seen.contains(out@));
                    assert(errors.deep_view() =~= before.push(
                        ValidationErrorSpec::DuplicateOutput { node_index: idx, name: out@ },
                    ));
                }
            } else {
                proof {
                    assert(!avail.contains(out@));
                    assert(!old_seen.contains(out@));
                }
                defined.push(out.clone());
                proof {
                    assert(defined.deep_view() =~= old_defined.push(out@));
                }
            }
        }
        proof {
            assert(errors.deep_view() =~= start + duplicate_output_errors(idx, seen, avail));
            assert forall|s: Seq<char>|
                defined.deep_view().contains(s) <==> (#[trigger] avail.contains(s) || (s.len() > 0
                    && seen.contains(s))) by {
                vstd::seq_lib::lemma_seq_contains_after_push(old_seen, out@, s);
                vstd::seq_lib::lemma_seq_contains_after_push(old_defined, out@, s);
                assert(old_defined.contains(s) <==> (avail.contains(s) || (s.len() > 0
                    && old_seen.contains(s))));
            }
        }
        j = j + 1;
    }
    proof {
        assert(seen =~= outs);
        assert(outputs.deep_view() == seen);
        assert forall|s: Seq<char>|
            #[trigger] defined.deep_view().contains(s) <==> (avail.contains(s) || (s.len() > 0
                && outputs.deep_view().contains(s))) by {
            assert(defined.deep_view().contains(s) <==> (avail.contains(s) || (s.len() > 0
                && seen.contains(s))));
        }
    }
}

/// Reports the named graph outputs that are not among `defined`.
fn push_undefined_outputs(
    errors: &mut Vec<ValidationError>,
    outputs: &Vec<ValueInfo>,
    defined: &Vec<String>,
    Ghost(avail): Ghost<Set<Seq<char>>>,
)
    requires
        forall|s: Seq<char>| defined.deep_view().contains(s) <==> #[trigger] avail.contains(s),
    ensures
        final(errors).deep_view() == old(errors).deep_view() + undefined_output_errors(
            outputs.deep_view(),
            avail,
        ),
{
    let ghost start = errors.deep_view();
    let ghost outs = outputs.deep_view();
    let mut j: usize = 0;
    proof {
        assert(outs.take(0) =~= Seq::<ValueInfoSpec>::empty());
        assert(start + undefined_output_errors(outs.take(0), avail) =~= start);
    }
    while j < outputs.len()
        invariant
            0 <= j <= outputs.len(),
            outs == outputs.deep_view(),
            forall|s: Seq<char>| defined.deep_view().contains(s) <==> #[trigger] avail.contains(s),
            errors.deep_view() == start + undefined_output_errors(outs.take(j as int), avail),
        decreases outputs.len() - j,
    {
        let ghost before = errors.deep_view();
        proof {
            assert(outs.take(j + 1).drop_last() =~= outs.take(j as int));
            assert(outs.take(j + 1).last() == outputs[j as int].deep_view());
        }
        let name = &outputs[j].name;
        if !name.as_str().is_empty() && !contains_name(defined, name) {
            errors.push(ValidationError::UndefinedGraphOutput { name: name.clone() });
            proof {
                assert(errors.deep_view() =~= before.push(
                    ValidationErrorSpec::UndefinedGraphOutput { name: name@ },
                ));
            }
        }
        proof {
            assert(errors.deep_view() =~= start + undefined_output_errors(outs.take(j + 1), avail));
        }
        j = j + 1;
    }
    proof {
        assert(outs.take(j as int) =~= outs);
    }
}

proof fn lemma_produced_step(nodes: Seq<NodeSpec>, k: int, s: Seq<char>)
    requires
        0 <= k < nodes.len(),
    ensures
        produced_before(nodes, k + 1).contains(s) <==> (produced_before(nodes, k).contains(s) || (
        s.len() > 0 && nodes[k].outputs.contains(s))),
{
    if produced_before(nodes, k + 1).contains(s) {
        let j = choose|j: int| 0 <= j < k + 1 && #[trigger] nodes[j].outputs.contains(s);
        if j < k {
            assert(produced_before(nodes, k).contains(s));
        }
    }
    if produced_before(nodes, k).contains(s) {
        let j = choose|j: int| 0 <= j < k && #[trigger] nodes[j].outputs.contains(s);
        assert(0 <= j < k + 1 && nodes[j].outputs.contains(s));
    }
}

/// Reports the problems of each node in turn, and answers with the names
/// defined after the last node.
fn push_node_errors(errors: &mut Vec<ValidationError>, graph: &Graph) -> (defined: Vec<String>)
    ensures
        final(errors).deep_view() == old(errors).deep_view() + node_errors(
            graph.deep_view(),
            graph.nodes.len() as int,
        ),
        forall|s: Seq<char>|
            defined.deep_view().contains(s) <==> #[trigger] defined_before(
                graph.deep_view(),
                graph.nodes.len() as int,
            ).contains(s),
{
    let ghost g = graph.deep_view();
    let ghost start = errors.deep_view();
    let mut defined = collect_defined(graph);
    let ghost mut avail = defined_before(g, 0);
    proof {
        assert(errors.deep_view() =~= start + node_errors(g, 0));
    }
    let mut idx: usize = 0;
    while idx < graph.nodes.len()
        invariant
            0 <= idx <= graph.nodes.len(),
            g == graph.deep_view(),
            errors.deep_view() == start + node_errors(g, idx as int),
            avail == defined_before(g, idx as int),
            forall|s: Seq<char>| defined.deep_view().contains(s) <==> #[trigger] avail.contains(s),
        decreases graph.nodes.len() - idx,
    {
        let node = &graph.nodes[idx];
        let ghost nd = g.nodes[idx as int];
        proof {
            assert(nd == node.deep_view());
        }
        push_undefined(errors, idx, &node.inputs, &defined, Ghost(avail));
        push_duplicate_outputs(errors, idx, &node.outputs, &mut defined, Ghost(avail));
        proof {
            assert(errors.deep_view() =~= start + node_errors(g, idx + 1));
            let next_avail = defined_before(g, idx + 1);
            assert forall|s: Seq<char>| #[trigger] next_avail.contains(s) <==> (avail.contains(s) || (
            s.len() > 0 && nd.outputs.contains(s))) by {
                lemma_produced_step(g.nodes, idx as int, s);
            }
            assert forall|s: Seq<char>| defined.deep_view().contains(s) <==> #[trigger] next_avail.contains(s) by {}
            avail = next_avail;
        }
        idx = idx + 1;
    }
    defined
}

/// Checks a graph: a name, named and unique value infos, unique
/// initializers, every node input and every graph output defined by an
/// earlier node, an input or an initializer, node outputs that define no
/// name twice, no dependency cycle, and a rank for every main input and
/// output.
pub fn validate_graph(graph: &Graph) -> (r: ValidationReport)
    ensures
        is_report_of(graph.deep_view(), r.errors.deep_view()),
{
    let ghost g = graph.deep_view();
    let mut errors: Vec<ValidationError> = Vec::new();
    if graph.name.as_str().is_empty() {
        errors.push(ValidationError::GraphMissingName);
    }
    proof {
        assert(errors.deep_view() =~= (if g.name.len() == 0 {
            seq![ValidationErrorSpec::GraphMissingName]
        } else {
            Seq::empty()
        }));
    }
    push_unnamed(&mut errors, &graph.inputs);
    push_unnamed(&mut errors, &graph.outputs);
    push_unnamed(&mut errors, &graph.value_info);
    push_repeats(&mut errors, "input", &graph.inputs);
    push_repeats(&mut errors, "output", &graph.outputs);
    push_repeats(&mut errors, "value_info", &graph.value_info);
    push_initializer_repeats(&mut errors, graph);
    let defined = push_node_errors(&mut errors, graph);
    push_undefined_outputs(
        &mut errors,
        &graph.outputs,
        &defined,
        Ghost(defined_before(g, graph.nodes.len() as int)),
    );
    let ghost before = errors.deep_view();
    proof {
        assert(before =~= errors_before_cycle(g));
    }
    match detect_cycle(&graph.nodes) {
        Some(path) => {
            let ghost pv = path.deep_view();
            errors.push(ValidationError::Cycle { path });
            proof {
                let a = before.len() as int;
                assert(errors.deep_view().subrange(a, errors.deep_view().len() as int) =~= seq![
                    ValidationErrorSpec::Cycle { path: pv },
                ]);
            }
        },
        None => {
            proof {
                assert(errors.deep_view().subrange(before.len() as int, errors.deep_view().len() as int) =~= Seq::<ValidationErrorSpec>::empty());
            }
        },
    }
    let ghost with_cycle = errors.deep_view();
    push_shape_errors(&mut errors, "output", &graph.outputs);
    push_shape_errors(&mut errors, "input", &graph.inputs);
    proof {
        let e = errors.deep_view();
        let a = errors_before_cycle(g).len();
        let b = errors_after_cycle(g).len();
        assert(e =~= with_cycle + errors_after_cycle(g));
        assert(e.subrange(0, a as int) =~= errors_before_cycle(g));
        assert(e.subrange(e.len() - b, e.len() as int) =~= errors_after_cycle(g));
        assert(e.subrange(a as int, e.len() - b) =~= with_cycle.subrange(a as int, with_cycle.len() as int));
    }
    ValidationReport { errors }
}

/// Checks the main graph of a model.
pub fn validate_model(model: &Model) -> (r: ValidationReport)
    ensures
        is_report_of(model.graph.deep_view(), r.errors.deep_view()),
{
    validate_graph(&model.graph)
}

// ---------------------------------------------------------------------------
// When a graph validates
// ---------------------------------------------------------------------------
/// Whether every value info of a list has a name.
pub open spec fn all_named(vis: Seq<ValueInfoSpec>) -> bool {
    forall|i: int| 0 <= i < vis.len() ==> (#[trigger] vis[i]).name.len() > 0
}

/// Whether no name of a list repeats another.
pub open spec fn distinct_names(names: Seq<Seq<char>>) -> bool {
    forall|i: int, j: int| 0 <= i < j < names.len() ==> names[i] != names[j]
}

/// Whether every value info of a list has a type with a rank.
pub open spec fn all_ranked(vis: Seq<ValueInfoSpec>) -> bool {
    forall|i: int|
        0 <= i < vis.len() ==> (#[trigger] vis[i]).value_type is Some && spec_has_rank(
            vis[i].value_type->0,
        )
}

/// Whether every non-empty input of node `k` is defined before it.
pub open spec fn inputs_defined(g: GraphSpec, k: int) -> bool {
    forall|i: int|
        0 <= i < g.nodes[k].inputs.len() && (#[trigger] g.nodes[k].inputs[i]).len() > 0
            ==> defined_before(g, k).contains(g.nodes[k].inputs[i])
}

/// Whether every non-empty output of node `k` is a name defined neither
/// before it nor by an earlier output of the node.
pub open spec fn outputs_fresh(g: GraphSpec, k: int) -> bool {
    forall|i: int|
        0 <= i < g.nodes[k].outputs.len() && (#[trigger] g.nodes[k].outputs[i]).len() > 0
            ==> !defined_before(g, k).contains(g.nodes[k].outputs[i]) && !g.nodes[k].outputs.take(
            i,
        ).contains(g.nodes[k].outputs[i])
}

/// Whether node `k` has its inputs defined and its outputs fresh.
pub open spec fn node_ok(g: GraphSpec, k: int) -> bool {
    inputs_defined(g, k) && outputs_fresh(g, k)
}

/// Whether every named graph output is defined by the graph.
pub open spec fn outputs_defined(g: GraphSpec) -> bool {
    forall|i: int|
        0 <= i < g.outputs.len() && (#[trigger] g.outputs[i]).name.len() > 0 ==> defined_before(
            g,
            g.nodes.len() as int,
        ).contains(g.outputs[i].name)
}

/// The conditions under which a graph validates: a name; named value infos
/// with distinct names in each list; distinct initializer names; every node
/// input defined by a graph input, an initializer or an earlier node; node
/// outputs that define no name twice; every graph output defined; and a
/// type with a rank for every graph input and output. Such a graph has no
/// dependency cycle: each node depends only on earlier ones.
pub open spec fn graph_conditions(g: GraphSpec) -> bool {
    &&& g.name.len() > 0
    &&& all_named(g.inputs) && all_named(g.outputs) && all_named(g.value_info)
    &&& distinct_names(info_names(g.inputs)) && distinct_names(info_names(g.outputs))
        && distinct_names(info_names(g.value_info))
    &&& distinct_names(g.initializers.map_values(|t: super::tensor::TensorSpec| t.name))
    &&& forall|k: int| 0 <= k < g.nodes.len() ==> #[trigger] node_ok(g, k)
    &&& outputs_defined(g)
    &&& all_ranked(g.inputs) && all_ranked(g.outputs)
}

proof fn lemma_unnamed_empty(vis: Seq<ValueInfoSpec>)
    ensures
        unnamed_errors(vis).len() == 0 <==> all_named(vis),
    decreases vis.len(),
{
    if vis.len() > 0 {
        let init = vis.drop_last();
        lemma_unnamed_empty(init);
        assert forall|i: int| 0 <= i < init.len() implies #[trigger] init[i] == vis[i] by {}
        if all_named(vis) {
            assert(vis.last() == vis[vis.len() - 1]);
        }
        if unnamed_errors(vis).len() == 0 {
            assert forall|i: int| 0 <= i < vis.len() implies (#[trigger] vis[i]).name.len() > 0 by {
                if i < vis.len() - 1 {
                    assert(init[i] == vis[i]);
                }
            }
        }
    }
}

proof fn lemma_ranked_empty(kind: Seq<char>, vis: Seq<ValueInfoSpec>)
    ensures
        shape_errors(kind, vis).len() == 0 <==> all_ranked(vis),
    decreases vis.len(),
{
    if vis.len() > 0 {
        let init = vis.drop_last();
        lemma_ranked_empty(kind, init);
        assert forall|i: int| 0 <= i < init.len() implies #[trigger] init[i] == vis[i] by {}
        if all_ranked(vis) {
            assert(vis.last() == vis[vis.len() - 1]);
        }
        if shape_errors(kind, vis).len() == 0 {
            assert forall|i: int| 0 <= i < vis.len() implies (#[trigger] vis[i]).value_type is Some
                && spec_has_rank(vis[i].value_type->0) by {
                if i < vis.len() - 1 {
                    assert(init[i] == vis[i]);
                }
            }
        }
    }
}

proof fn lemma_distinct_step(names: Seq<Seq<char>>)
    requires
        names.len() > 0,
    ensures
        distinct_names(names) <==> distinct_names(names.drop_last()) && !names.drop_last().contains(
            names.last(),
        ),
{
    let init = names.drop_last();
    let n = names.len() - 1;
    if distinct_names(names) {
        assert forall|i: int, j: int| 0 <= i < j < init.len() implies init[i] != init[j] by {
            assert(init[i] == names[i] && init[j] == names[j]);
        }
        if init.contains(names.last()) {
            let i = choose|i: int| 0 <= i < init.len() && init[i] == names.last();
            assert(names[i] == names[n]);
        }
    }
    if distinct_names(init) && !init.contains(names.last()) {
        assert forall|i: int, j: int| 0 <= i < j < names.len() implies names[i] != names[j] by {
            if j < n {
                assert(init[i] == names[i] && init[j] == names[j]);
            } else {
                assert(init[i] == names[i]);
            }
        }
    }
}

proof fn lemma_repeat_empty(kind: Seq<char>, names: Seq<Seq<char>>)
    ensures
        repeat_errors(kind, names).len() == 0 <==> distinct_names(names),
    decreases names.len(),
{
    if names.len() > 0 {
        lemma_repeat_empty(kind, names.drop_last());
        lemma_distinct_step(names);
    }
}

proof fn lemma_repeat_initializer_empty(names: Seq<Seq<char>>)
    ensures
        repeat_initializer_errors(names).len() == 0 <==> distinct_names(names),
    decreases names.len(),
{
    if names.len() > 0 {
        lemma_repeat_initializer_empty(names.drop_last());
        lemma_distinct_step(names);
    }
}

proof fn lemma_undefined_empty(k: usize, inputs: Seq<Seq<char>>, defined: Set<Seq<char>>)
    ensures
        undefined_errors(k, inputs, defined).len() == 0 <==> forall|i: int|
            0 <= i < inputs.len() && (#[trigger] inputs[i]).len() > 0 ==> defined.contains(inputs[i]),
    decreases inputs.len(),
{
    if inputs.len() > 0 {
        let init = inputs.drop_last();
        lemma_undefined_empty(k, init, defined);
        assert forall|i: int| 0 <= i < init.len() implies #[trigger] init[i] == inputs[i] by {}
        assert(inputs.last() == inputs[inputs.len() - 1]);
        if undefined_errors(k, inputs, defined).len() == 0 {
            assert forall|i: int|
                0 <= i < inputs.len() && (#[trigger] inputs[i]).len() > 0 implies defined.contains(
                inputs[i],
            ) by {
                if i < inputs.len() - 1 {
                    assert(init[i] == inputs[i]);
                }
            }
        }
    }
}

proof fn lemma_duplicate_empty(k: usize, outputs: Seq<Seq<char>>, defined: Set<Seq<char>>)
    ensures
        duplicate_output_errors(k, outputs, defined).len() == 0 <==> forall|i: int|
            0 <= i < outputs.len() && (#[trigger] outputs[i]).len() > 0 ==> !defined.contains(
                outputs[i],
            ) && !outputs.take(i).contains(outputs[i]),
    decreases outputs.len(),
{
    if outputs.len() > 0 {
        let init = outputs.drop_last();
        let n = outputs.len() - 1;
        lemma_duplicate_empty(k, init, defined);
        assert forall|i: int| 0 <= i < init.len() implies #[trigger] init[i] == outputs[i]
            && init.take(i) =~= outputs.take(i) by {}
        assert(outputs.last() == outputs[n]);
        assert(outputs.take(n) =~= init);
        if duplicate_output_errors(k, outputs, defined).len() == 0 {
            assert forall|i: int|
                0 <= i < outputs.len() && (#[trigger] outputs[i]).len() > 0 implies !defined.contains(
                outputs[i],
            ) && !outputs.take(i).contains(outputs[i]) by {
                if i < n {
                    assert(init[i] == outputs[i] && init.take(i) =~= outputs.take(i));
                }
            }
        }
    }
}

proof fn lemma_undefined_outputs_empty(outputs: Seq<ValueInfoSpec>, defined: Set<Seq<char>>)
    ensures
        undefined_output_errors(outputs, defined).len() == 0 <==> forall|i: int|
            0 <= i < outputs.len() && (#[trigger] outputs[i]).name.len() > 0 ==> defined.contains(
                outputs[i].name,
            ),
    decreases outputs.len(),
{
    if outputs.len() > 0 {
        let init = outputs.drop_last();
        lemma_undefined_outputs_empty(init, defined);
        assert forall|i: int| 0 <= i < init.len() implies #[trigger] init[i] == outputs[i] by {}
        assert(outputs.last() == outputs[outputs.len() - 1]);
        if undefined_output_errors(outputs, defined).len() == 0 {
            assert forall|i: int|
                0 <= i < outputs.len() && (#[trigger] outputs[i]).name.len() > 0 implies defined.contains(
                outputs[i].name,
            ) by {
                if i < outputs.len() - 1 {
                    assert(init[i] == outputs[i]);
                }
            }
        }
    }
}

proof fn lemma_node_errors_empty(g: GraphSpec, k: int)
    requires
        0 <= k <= g.nodes.len(),
    ensures
        node_errors(g, k).len() == 0 <==> forall|m: int|
            0 <= m < k ==> #[trigger] node_ok(g, m),
    decreases k,
{
    if k > 0 {
        lemma_node_errors_empty(g, k - 1);
        let m = k - 1;
        lemma_undefined_empty(m as usize, g.nodes[m].inputs, defined_before(g, m));
        lemma_duplicate_empty(m as usize, g.nodes[m].outputs, defined_before(g, m));
        let u = undefined_errors(m as usize, g.nodes[m].inputs, defined_before(g, m));
        let d = duplicate_output_errors(m as usize, g.nodes[m].outputs, defined_before(g, m));
        assert(node_errors(g, k) == node_errors(g, m) + u + d);
        assert(inputs_defined(g, m) <==> u.len() == 0);
        assert(outputs_fresh(g, m) <==> d.len() == 0);
        if node_errors(g, k).len() == 0 {
            assert(node_errors(g, m).len() == 0 && u.len() == 0 && d.len() == 0);
            assert(forall|j: int| 0 <= j < m ==> #[trigger] node_ok(g, j));
            assert forall|j: int| 0 <= j < k implies #[trigger] node_ok(g, j) by {
                if j < m {
                    assert(node_ok(g, j));
                }
            }
        }
        if forall|j: int| 0 <= j < k ==> #[trigger] node_ok(g, j) {
            assert(node_ok(g, m));
            assert forall|j: int| 0 <= j < m implies #[trigger] node_ok(g, j) by {
                assert(node_ok(g, j));
            }
        }
    }
}

/// When every node has its inputs defined and its outputs fresh, the nodes
/// that node `k` depends on through `inputs` come before it.
proof fn lemma_deps_earlier(g: GraphSpec, k: int, inputs: Seq<Seq<char>>)
    requires
        0 <= k < g.nodes.len(),
        forall|m: int| 0 <= m < g.nodes.len() ==> #[trigger] node_ok(g, m),
        forall|i: int|
            0 <= i < inputs.len() && (#[trigger] inputs[i]).len() > 0 ==> defined_before(
                g,
                k,
            ).contains(inputs[i]),
    ensures
        forall|x: int| deps_of_inputs(g.nodes, k, inputs).contains(x) ==> 0 <= x < k,
    decreases inputs.len(),
{
    if inputs.len() > 0 {
        let init = inputs.drop_last();
        assert forall|i: int|
            0 <= i < init.len() && (#[trigger] init[i]).len() > 0 implies defined_before(
            g,
            k,
        ).contains(init[i]) by {
            assert(init[i] == inputs[i]);
        }
        lemma_deps_earlier(g, k, init);
        let prev = deps_of_inputs(g.nodes, k, init);
        let inp = inputs.last();
        let nodes = g.nodes;
        if inp.len() > 0 && producer(nodes, inp) is Some && producer(nodes, inp)->0 != k {
            let p = producer(nodes, inp)->0;
            lemma_producer(nodes, inp);
            assert(0 <= p < nodes.len() && produces(nodes[p], inp));
            assert(inputs[inputs.len() - 1] == inp);
            assert(defined_before(g, k).contains(inp));
            if produced_before(nodes, k).contains(inp) {
                let j = choose|j: int| 0 <= j < k && #[trigger] nodes[j].outputs.contains(inp);
                if p > j {
                    assert(produces(nodes[j], inp));
                }
            } else {
                assert(defined_before(g, p).contains(inp));
                let i = choose|i: int| 0 <= i < nodes[p].outputs.len() && nodes[p].outputs[i] == inp;
                assert(node_ok(g, p));
                assert(nodes[p].outputs[i].len() > 0);
            }
            assert forall|x: int| prev.push(p).contains(x) implies 0 <= x < k by {
                vstd::seq_lib::lemma_seq_contains_after_push(prev, p, x);
            }
        }
    }
}

/// A sequence that decreases at each step ends below where it starts.
proof fn lemma_decreasing(c: Seq<int>, k: int)
    requires
        0 <= k < c.len(),
        forall|i: int| 0 <= i < c.len() - 1 ==> #[trigger] c[i + 1] < c[i],
    ensures
        c[k] <= c[0] - k,
    decreases k,
{
    if k > 0 {
        lemma_decreasing(c, k - 1);
        assert(c[(k - 1) + 1] < c[k - 1]);
    }
}

/// When every node has its inputs defined and its outputs fresh, the graph
/// has no dependency cycle.
proof fn lemma_fresh_no_cycle(g: GraphSpec)
    requires
        forall|m: int| 0 <= m < g.nodes.len() ==> #[trigger] node_ok(g, m),
    ensures
        !has_dep_cycle(g.nodes),
{
    assert forall|c: Seq<int>| !is_dep_cycle(g.nodes, c) by {
        if is_dep_cycle(g.nodes, c) {
            assert forall|i: int| 0 <= i < c.len() - 1 implies #[trigger] c[i + 1] < c[i] by {
                let k = c[i];
                assert(0 <= k < g.nodes.len());
                assert(node_ok(g, k));
                lemma_deps_earlier(g, k, g.nodes[k].inputs);
                assert(deps(g.nodes, c[i]).contains(c[i + 1]));
            }
            lemma_decreasing(c, c.len() - 1);
        }
    }
}

/// A graph's report is empty exactly when the graph meets
/// [`graph_conditions`].
pub proof fn lemma_report_empty(g: GraphSpec, e: Seq<ValidationErrorSpec>)
    requires
        is_report_of(g, e),
    ensures
        e.len() == 0 <==> graph_conditions(g),
{
    let a = errors_before_cycle(g).len();
    let b = errors_after_cycle(g).len();
    if e.len() == 0 {
        assert(e.subrange(a as int, e.len() - b) =~= e);
    }
    if a == 0 && b == 0 && !has_dep_cycle(g.nodes) {
        assert(e.subrange(0, e.len() as int) =~= e);
    }
    lemma_unnamed_empty(g.inputs);
    lemma_unnamed_empty(g.outputs);
    lemma_unnamed_empty(g.value_info);
    lemma_repeat_empty("input"@, info_names(g.inputs));
    lemma_repeat_empty("output"@, info_names(g.outputs));
    lemma_repeat_empty("value_info"@, info_names(g.value_info));
    lemma_repeat_initializer_empty(g.initializers.map_values(|t: super::tensor::TensorSpec| t.name));
    lemma_node_errors_empty(g, g.nodes.len() as int);
    lemma_undefined_outputs_empty(g.outputs, defined_before(g, g.nodes.len() as int));
    lemma_ranked_empty("output"@, g.outputs);
    lemma_ranked_empty("input"@, g.inputs);
    if forall|m: int| 0 <= m < g.nodes.len() ==> #[trigger] node_ok(g, m) {
        lemma_fresh_no_cycle(g);
    }
}

/// A graph validates with no problem exactly when it meets
/// [`graph_conditions`].
pub proof fn lemma_validates_iff(g: GraphSpec, r: ValidationReport)
    requires
        is_report_of(g, r.errors.deep_view()),
    ensures
        r.errors@.len() == 0 <==> graph_conditions(g),
{
    lemma_report_empty(g, r.errors.deep_view());
}

} // verus!
