//! Reading a decoded model as typed operators, with warnings for the parts
//! kept as raw bytes.
use crate::ir::{
    AttributeSpec, AttributeValue, AttributeValueSpec, FunctionRawSpec, Model, ModelSpec, Node,
    NodeSpec, OpsetId, Tensor, ValueInfo,
};
use crate::ml::payload::payload_of;
use crate::ml::{make_node_payload, NodePayload};
use crate::text::{concat, debug_quoted, decimal, quoted, usize_to_string};
use vstd::prelude::*;

verus! {

/// What kind of part of a model was kept as raw bytes.
#[derive(Debug, Clone, Copy, PartialEq, Eq, Structural)]
pub enum ImportWarningKind {
    SubgraphAttribute,
    Function,
    TrainingInfo,
}

/// The label of a warning kind.
pub open spec fn kind_label(k: ImportWarningKind) -> Seq<char> {
    match k {
        ImportWarningKind::SubgraphAttribute => "subgraph-attribute"@,
        ImportWarningKind::Function => "function"@,
        ImportWarningKind::TrainingInfo => "training-info"@,
    }
}

impl ImportWarningKind {
    /// The kind's label: `subgraph-attribute`, `function` or
    /// `training-info`.
    pub fn label(&self) -> (r: &'static str)
        ensures
            r@ == kind_label(*self),
    {
        match self {
            ImportWarningKind::SubgraphAttribute => "subgraph-attribute",
            ImportWarningKind::Function => "function",
            ImportWarningKind::TrainingInfo => "training-info",
        }
    }
}

/// Mathematical model of [`ImportWarning`].
pub struct ImportWarningSpec {
    pub node_index: Option<usize>,
    pub kind: ImportWarningKind,
    pub message: Seq<char>,
}

/// A part of a model that was kept as raw bytes rather than read.
#[derive(Debug, PartialEq, Eq)]
pub struct ImportWarning {
    pub node_index: Option<usize>,
    pub kind: ImportWarningKind,
    pub message: String,
}

impl DeepView for ImportWarning {
    type V = ImportWarningSpec;

    open spec fn deep_view(&self) -> ImportWarningSpec {
        ImportWarningSpec { node_index: self.node_index, kind: self.kind, message: self.message@ }
    }
}

impl Clone for ImportWarning {
    fn clone(&self) -> (r: Self)
        ensures
            r.deep_view() == self.deep_view(),
    {
        ImportWarning { node_index: self.node_index, kind: self.kind, message: self.message.clone() }
    }
}

/// The warning for a node attribute that carries a subgraph.
pub open spec fn subgraph_warning(node_index: usize, node: NodeSpec, attr: Seq<char>) -> ImportWarningSpec {
    ImportWarningSpec {
        node_index: Some(node_index),
        kind: ImportWarningKind::SubgraphAttribute,
        message: "node "@ + decimal(node_index as nat) + " ("@ + node.domain + ":"@ + node.op_type
            + ") attribute "@ + debug_quoted(attr)
            + " carries a subgraph preserved as raw bytes"@,
    }
}

/// The warning for a model-local function.
pub open spec fn function_warning(domain: Seq<char>, name: Seq<char>) -> ImportWarningSpec {
    ImportWarningSpec {
        node_index: None,
        kind: ImportWarningKind::Function,
        message: "model function "@ + debug_quoted(domain) + "::"@ + debug_quoted(name)
            + " preserved as raw bytes without resolution"@,
    }
}

/// The warning for a training information entry.
pub open spec fn training_warning(index: usize) -> ImportWarningSpec {
    ImportWarningSpec {
        node_index: None,
        kind: ImportWarningKind::TrainingInfo,
        message: "model training_info entry "@ + decimal(index as nat) + " preserved as raw bytes"@,
    }
}

/// The text of a warning: its kind, and its node where it has one, in
/// brackets, then its message.
pub open spec fn warning_text(w: ImportWarningSpec) -> Seq<char> {
    match w.node_index {
        Some(i) => "["@ + kind_label(w.kind) + " at node "@ + decimal(i as nat) + "] "@ + w.message,
        None => "["@ + kind_label(w.kind) + "] "@ + w.message,
    }
}

impl ImportWarning {
    /// The warning for attribute `attr` of node `node_index`, which carries a
    /// subgraph.
    pub fn subgraph_attribute(node_index: usize, node: &Node, attr: &str) -> (r: Self)
        ensures
            r.deep_view() == subgraph_warning(node_index, node.deep_view(), attr@),
    {
        let m = concat("node ", usize_to_string(node_index).as_str());
        let m = concat(m.as_str(), " (");
        let m = concat(m.as_str(), node.domain.as_str());
        let m = concat(m.as_str(), ":");
        let m = concat(m.as_str(), node.op_type.as_str());
        let m = concat(m.as_str(), ") attribute ");
        let m = concat(m.as_str(), quoted(attr).as_str());
        let m = concat(m.as_str(), " carries a subgraph preserved as raw bytes");
        ImportWarning {
            node_index: Some(node_index),
            kind: ImportWarningKind::SubgraphAttribute,
            message: m,
        }
    }

    /// The warning for the model-local function `name` of `domain`.
    pub fn function(domain: &str, name: &str) -> (r: Self)
        ensures
            r.deep_view() == function_warning(domain@, name@),
    {
        let m = concat("model function ", quoted(domain).as_str());
        let m = concat(m.as_str(), "::");
        let m = concat(m.as_str(), quoted(name).as_str());
        let m = concat(m.as_str(), " preserved as raw bytes without resolution");
        ImportWarning { node_index: None, kind: ImportWarningKind::Function, message: m }
    }

    /// The warning for training information entry `index`.
    pub fn training_info(index: usize) -> (r: Self)
        ensures
            r.deep_view() == training_warning(index),
    {
        let m = concat("model training_info entry ", usize_to_string(index).as_str());
        let m = concat(m.as_str(), " preserved as raw bytes");
        ImportWarning { node_index: None, kind: ImportWarningKind::TrainingInfo, message: m }
    }

    /// The warning as text.
    pub fn text(&self) -> (r: String)
        ensures
            r@ == warning_text(self.deep_view()),
    {
        let head = concat("[", self.kind.label());
        let head = match self.node_index {
            Some(i) => {
                let h = concat(head.as_str(), " at node ");
                concat(h.as_str(), usize_to_string(i).as_str())
            },
            None => head,
        };
        let head = concat(head.as_str(), "] ");
        concat(head.as_str(), self.message.as_str())
    }
}

/// Whether an attribute value carries subgraphs.
pub open spec fn is_subgraph(v: AttributeValueSpec) -> bool {
    v is Graph || v is Graphs
}

/// The warnings for the attributes of node `index` that carry subgraphs,
/// in order.
pub open spec fn attribute_warnings(index: usize, node: NodeSpec, attrs: Seq<AttributeSpec>) -> Seq<
    ImportWarningSpec,
>
    decreases attrs.len(),
{
    if attrs.len() == 0 {
        Seq::empty()
    } else {
        attribute_warnings(index, node, attrs.drop_last()) + if is_subgraph(attrs.last().value) {
            seq![subgraph_warning(index, node, attrs.last().name)]
        } else {
            Seq::empty()
        }
    }
}

/// The warnings for the attributes of the nodes that carry subgraphs, node
/// by node.
pub open spec fn node_warnings(nodes: Seq<NodeSpec>) -> Seq<ImportWarningSpec>
    decreases nodes.len(),
{
    if nodes.len() == 0 {
        Seq::empty()
    } else {
        node_warnings(nodes.drop_last()) + attribute_warnings(
            (nodes.len() - 1) as usize,
            nodes.last(),
            nodes.last().attributes,
        )
    }
}

/// The warnings of a model: for subgraph attributes node by node, then for
/// each model-local function, then for each training information entry.
pub open spec fn model_warnings(m: ModelSpec) -> Seq<ImportWarningSpec> {
    node_warnings(m.graph.nodes) + m.functions_raw.map_values(
        |f: FunctionRawSpec| function_warning(f.domain, f.name),
    ) + Seq::new(m.training_info_raw.len(), |i: int| training_warning(i as usize))
}

/// The warnings of a model.
fn collect_warnings(model: &Model) -> (r: Vec<ImportWarning>)
    ensures
        r.deep_view() == model_warnings(model.deep_view()),
{
    let ghost m = model.deep_view();
    let nodes = &model.graph.nodes;
    let mut warnings: Vec<ImportWarning> = Vec::new();
    let mut i: usize = 0;
    proof {
        assert(m.graph.nodes.take(0) =~= Seq::<NodeSpec>::empty());
        assert(warnings.deep_view() =~= Seq::<ImportWarningSpec>::empty());
    }
    while i < nodes.len()
        invariant
            m == model.deep_view(),
            nodes == &model.graph.nodes,
            0 <= i <= nodes@.len(),
            warnings.deep_view() == node_warnings(m.graph.nodes.take(i as int)),
        decreases nodes@.len() - i,
    {
        let node = &nodes[i];
        let ghost nv = node.deep_view();
        let ghost start = warnings.deep_view();
        let mut k: usize = 0;
        proof {
            assert(nv.attributes.take(0) =~= Seq::<AttributeSpec>::empty());
            assert(start =~= start + attribute_warnings(i, nv, nv.attributes.take(0)));
        }
        while k < node.attributes.len()
            invariant
                nv == node.deep_view(),
                0 <= k <= node.attributes@.len(),
                warnings.deep_view() == start + attribute_warnings(i, nv, nv.attributes.take(k as int)),
            decreases node.attributes@.len() - k,
        {
            let attr = &node.attributes[k];
            let ghost before = warnings.deep_view();
            proof {
                assert(nv.attributes.take(k + 1).drop_last() =~= nv.attributes.take(k as int));
                assert(nv.attributes.take(k + 1).last() == attr.deep_view());
            }
            match &attr.value {
                AttributeValue::Graph(_) | AttributeValue::Graphs(_) => {
                    let w = ImportWarning::subgraph_attribute(i, node, attr.name.as_str());
                    warnings.push(w);
                    proof {
                        assert(warnings.deep_view() =~= before.push(
                            subgraph_warning(i, nv, attr.name@),
                        ));
                        assert(warnings.deep_view() =~= start + attribute_warnings(
                            i,
                            nv,
                            nv.attributes.take(k + 1),
                        ));
                    }
                },
                _ => {
                    proof {
                        assert(warnings.deep_view() =~= start + attribute_warnings(
                            i,
                            nv,
                            nv.attributes.take(k + 1),
                        ));
                    }
                },
            }
            k = k + 1;
        }
        proof {
            assert(nv.attributes.take(k as int) =~= nv.attributes);
            assert(m.graph.nodes.take(i + 1).drop_last() =~= m.graph.nodes.take(i as int));
            assert(m.graph.nodes.take(i + 1).last() == nv);
        }
        i = i + 1;
    }
    proof {
        assert(m.graph.nodes.take(i as int) =~= m.graph.nodes);
    }
    let ghost after_nodes = warnings.deep_view();
    let mut j: usize = 0;
    while j < model.functions_raw.len()
        invariant
            m == model.deep_view(),
            0 <= j <= model.functions_raw@.len(),
            warnings.deep_view() == after_nodes + m.functions_raw.take(j as int).map_values(
                |f: FunctionRawSpec| function_warning(f.domain, f.name),
            ),
        decreases model.functions_raw@.len() - j,
    {
        let f = &model.functions_raw[j];
        let ghost before = warnings.deep_view();
        warnings.push(ImportWarning::function(f.domain.as_str(), f.name.as_str()));
        proof {
            assert(m.functions_raw[j as int] == f.deep_view());
            assert(warnings.deep_view() =~= before.push(function_warning(f.domain@, f.name@)));
            assert(m.functions_raw.take(j + 1) =~= m.functions_raw.take(j as int).push(
                m.functions_raw[j as int],
            ));
            assert(warnings.deep_view() =~= after_nodes + m.functions_raw.take(j + 1).map_values(
                |f: FunctionRawSpec| function_warning(f.domain, f.name),
            ));
        }
        j = j + 1;
    }
    proof {
        assert(m.functions_raw.take(j as int) =~= m.functions_raw);
    }
    let ghost after_functions = warnings.deep_view();
    let mut t: usize = 0;
    while t < model.training_info_raw.len()
        invariant
            m == model.deep_view(),
            0 <= t <= model.training_info_raw@.len(),
            warnings.deep_view() == after_functions + Seq::new(
                t as nat,
                |x: int| training_warning(x as usize),
            ),
        decreases model.training_info_raw@.len() - t,
    {
        let ghost before = warnings.deep_view();
        warnings.push(ImportWarning::training_info(t));
        proof {
            assert(warnings.deep_view() =~= before.push(training_warning(t)));
            assert(warnings.deep_view() =~= after_functions + Seq::new(
                (t + 1) as nat,
                |x: int| training_warning(x as usize),
            ));
        }
        t = t + 1;
    }
    proof {
        assert(warnings.deep_view() =~= model_warnings(m));
    }
    warnings
}

/// The typed reading of each node of a list.
fn payloads_of(nodes: &Vec<Node>) -> (r: Vec<NodePayload>)
    ensures
        r@.len() == nodes@.len(),
        forall|i: int| 0 <= i < nodes@.len() ==> payload_of(#[trigger] r@[i], nodes@[i].deep_view()),
{
    let mut r: Vec<NodePayload> = Vec::new();
    let mut i: usize = 0;
    while i < nodes.len()
        invariant
            0 <= i <= nodes@.len(),
            r@.len() == i,
            forall|j: int| 0 <= j < i ==> payload_of(#[trigger] r@[j], nodes@[j].deep_view()),
        decreases nodes@.len() - i,
    {
        r.push(make_node_payload(&nodes[i]));
        i = i + 1;
    }
    r
}

/// A model with each node read as the typed operator it names, and the
/// warnings for the parts kept as raw bytes.
#[derive(Debug, PartialEq)]
pub struct DecodedModel {
    pub model: Model,
    pub payloads: Vec<NodePayload>,
    pub warnings: Vec<ImportWarning>,
}

/// Something that takes the nodes of a decoded model one by one.
pub trait PayloadVisitor: Sized {
    /// Whether taking the typed node `payload` at `index` may turn the
    /// visitor `before` into `after`. An implementation that says nothing of
    /// this promises nothing.
    closed spec fn took_typed(before: Self, index: int, payload: NodePayload, after: Self) -> bool {
        true
    }

    /// Whether taking the node `node`, kept as it is, at `index` may turn
    /// the visitor `before` into `after`. An implementation that says
    /// nothing of this promises nothing.
    closed spec fn took_raw(before: Self, index: int, node: Node, after: Self) -> bool {
        true
    }

    /// Takes a node read as a typed operator.
    fn visit_typed(&mut self, index: usize, payload: &NodePayload)
        ensures
            Self::took_typed(*old(self), index as int, *payload, *final(self)),
    ;

    /// Takes a node kept as it is.
    fn visit_raw(&mut self, index: usize, node: &Node)
        ensures
            Self::took_raw(*old(self), index as int, *node, *final(self)),
    ;
}

/// One step of a visit: the payload at `index` handed to the visitor, to
/// `visit_raw` when it is kept as it is and to `visit_typed` otherwise.
pub open spec fn visit_step<V: PayloadVisitor>(
    before: V,
    index: int,
    payload: NodePayload,
    after: V,
) -> bool {
    match payload {
        NodePayload::Raw(node) => V::took_raw(before, index, node, after),
        _ => V::took_typed(before, index, payload, after),
    }
}

/// Whether `states` is a run of the visitor over `payloads`: one state
/// before each node and one after the last, each step taking the next
/// node in order.
pub open spec fn visit_run<V: PayloadVisitor>(payloads: Seq<NodePayload>, states: Seq<V>) -> bool {
    &&& states.len() == payloads.len() + 1
    &&& forall|i: int|
        0 <= i < payloads.len() ==> visit_step(
            #[trigger] states[i],
            i,
            payloads[i],
            states[i + 1],
        )
}

/// The positions of the nodes read as typed operators, in order.
pub open spec fn typed_positions(payloads: Seq<NodePayload>) -> Seq<int>
    decreases payloads.len(),
{
    if payloads.len() == 0 {
        Seq::empty()
    } else if payloads.last() is Raw {
        typed_positions(payloads.drop_last())
    } else {
        typed_positions(payloads.drop_last()).push(payloads.len() - 1)
    }
}

/// The positions of the nodes kept as they are, in order.
pub open spec fn raw_positions(payloads: Seq<NodePayload>) -> Seq<int>
    decreases payloads.len(),
{
    if payloads.len() == 0 {
        Seq::empty()
    } else if payloads.last() is Raw {
        raw_positions(payloads.drop_last()).push(payloads.len() - 1)
    } else {
        raw_positions(payloads.drop_last())
    }
}

impl DecodedModel {
    /// Reads each node of a model as the typed operator it names, and lists
    /// the parts of the model kept as raw bytes.
    pub fn from_model(model: Model) -> (r: Self)
        ensures
            r.model.deep_view() == model.deep_view(),
            r.payloads@.len() == model.graph.nodes@.len(),
            forall|i: int|
                0 <= i < model.graph.nodes@.len() ==> payload_of(
                    #[trigger] r.payloads@[i],
                    model.graph.nodes@[i].deep_view(),
                ),
            r.warnings.deep_view() == model_warnings(model.deep_view()),
    {
        let payloads = payloads_of(&model.graph.nodes);
        let warnings = collect_warnings(&model);
        DecodedModel { model, payloads, warnings }
    }

    /// The graph's inputs.
    pub fn inputs(&self) -> (r: &[ValueInfo])
        ensures
            r@ == self.model.graph.inputs@,
    {
        self.model.graph.inputs.as_slice()
    }

    /// The graph's outputs.
    pub fn outputs(&self) -> (r: &[ValueInfo])
        ensures
            r@ == self.model.graph.outputs@,
    {
        self.model.graph.outputs.as_slice()
    }

    /// The graph's initializers.
    pub fn initializers(&self) -> (r: &[Tensor])
        ensures
            r@ == self.model.graph.initializers@,
    {
        self.model.graph.initializers.as_slice()
    }

    /// The graph's name.
    pub fn graph_name(&self) -> (r: &str)
        ensures
            r@ == self.model.graph.name@,
    {
        self.model.graph.name.as_str()
    }

    /// The operator sets the model imports.
    pub fn opset_import(&self) -> (r: &[OpsetId])
        ensures
            r@ == self.model.opset_import@,
    {
        self.model.opset_import.as_slice()
    }

    /// The nodes read as typed operators, with their positions, in order.
    pub fn typed(&self) -> (r: Vec<(usize, &NodePayload)>)
        ensures
            r@.len() == typed_positions(self.payloads@).len(),
            forall|k: int|
                0 <= k < r@.len() ==> #[trigger] r@[k].0 as int == typed_positions(self.payloads@)[k]
                    && *r@[k].1 == self.payloads@[r@[k].0 as int],
    {
        let mut r: Vec<(usize, &NodePayload)> = Vec::new();
        let mut i: usize = 0;
        while i < self.payloads.len()
            invariant
                0 <= i <= self.payloads@.len(),
                r@.len() == typed_positions(self.payloads@.take(i as int)).len(),
                forall|k: int|
                    0 <= k < r@.len() ==> #[trigger] r@[k].0 as int == typed_positions(
                        self.payloads@.take(i as int),
                    )[k] && *r@[k].1 == self.payloads@[r@[k].0 as int],
            decreases self.payloads@.len() - i,
        {
            proof {
                assert(self.payloads@.take(i + 1).drop_last() =~= self.payloads@.take(i as int));
            }
            let p = &self.payloads[i];
            if !p.is_raw() {
                r.push((i, p));
            }
            i = i + 1;
        }
        proof {
            assert(self.payloads@.take(i as int) =~= self.payloads@);
        }
        r
    }

    /// The nodes kept as they are, with their positions, in order.
    pub fn raw_nodes(&self) -> (r: Vec<(usize, &Node)>)
        ensures
            r@.len() == raw_positions(self.payloads@).len(),
            forall|k: int|
                0 <= k < r@.len() ==> #[trigger] r@[k].0 as int == raw_positions(self.payloads@)[k]
                    && self.payloads@[r@[k].0 as int] == NodePayload::Raw(*r@[k].1),
    {
        let mut r: Vec<(usize, &Node)> = Vec::new();
        let mut i: usize = 0;
        while i < self.payloads.len()
            invariant
                0 <= i <= self.payloads@.len(),
                r@.len() == raw_positions(self.payloads@.take(i as int)).len(),
                forall|k: int|
                    0 <= k < r@.len() ==> #[trigger] r@[k].0 as int == raw_positions(
                        self.payloads@.take(i as int),
                    )[k] && self.payloads@[r@[k].0 as int] == NodePayload::Raw(*r@[k].1),
            decreases self.payloads@.len() - i,
        {
            proof {
                assert(self.payloads@.take(i + 1).drop_last() =~= self.payloads@.take(i as int));
            }
            match &self.payloads[i] {
                NodePayload::Raw(node) => {
                    r.push((i, node));
                },
                _ => {},
            }
            i = i + 1;
        }
        proof {
            assert(self.payloads@.take(i as int) =~= self.payloads@);
        }
        r
    }

    /// Hands each node to the visitor in order: a node kept as it is to
    /// `visit_raw`, a typed one to `visit_typed`.
    pub fn visit<V: PayloadVisitor>(&self, visitor: &mut V)
        ensures
            exists|states: Seq<V>|
                #[trigger] visit_run(self.payloads@, states) && states[0] == *old(visitor)
                    && states.last() == *final(visitor),
    {
        let ghost mut states: Seq<V> = seq![*visitor];
        let mut i: usize = 0;
        while i < self.payloads.len()
            invariant
                0 <= i <= self.payloads@.len(),
                states.len() == i + 1,
                states[0] == *old(visitor),
                states.last() == *visitor,
                forall|j: int|
                    0 <= j < i ==> visit_step(
                        #[trigger] states[j],
                        j,
                        self.payloads@[j],
                        states[j + 1],
                    ),
            decreases self.payloads@.len() - i,
        {
            match &self.payloads[i] {
                NodePayload::Raw(node) => visitor.visit_raw(i, node),
                typed => visitor.visit_typed(i, typed),
            }
            proof {
                let prev = states;
                states = states.push(*visitor);
                assert forall|j: int| 0 <= j < i + 1 implies visit_step(
                    #[trigger] states[j],
                    j,
                    self.payloads@[j],
                    states[j + 1],
                ) by {
                    if j < i {
                        assert(states[j] == prev[j]);
                        assert(states[j + 1] == prev[j + 1]);
                    }
                }
            }
            i = i + 1;
        }
        proof {
            assert(visit_run(self.payloads@, states));
        }
    }
}

} // verus!
