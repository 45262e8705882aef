//! ONNX-ML tree ensembles and `ZipMap`.
use super::preproc::{check_exactly_one, exactly_one_error};
use super::table::{
    build_node, distinct_names, emit_node, floats_value, get_floats, get_ints, get_int,
    get_string, get_strings, get_tensor, int_value, ints_value, lemma_node_roundtrip,
    lemma_node_well_typed, lemma_parsed_well_typed, lemma_staged_roundtrip, open_table,
    parse_node, parse_node_staged, put_floats, put_int, put_ints, put_ints_vec, put_string,
    put_strings, put_strings_vec, put_tensor, read_node, slot, string_value, strings_value,
    tensor_value, well_typed, Arity, AttrKind, Field,
};
use super::{Emitted, EmittedSpec, OnnxOp, OpError, OpErrorSpec, ML_DOMAIN_STR};
use crate::ir::{AttributeValue, AttributeValueSpec, Node, NodeSpec, Tensor};
use vstd::prelude::*;

verus! {

/// The length of a list value; zero for anything else.
pub open spec fn list_len(v: Option<AttributeValueSpec>) -> int {
    match v {
        Some(AttributeValueSpec::Ints(x)) => x.len() as int,
        Some(AttributeValueSpec::Floats(x)) => x.len() as int,
        Some(AttributeValueSpec::Strings(x)) => x.len() as int,
        _ => 0,
    }
}

/// An `INTS` value, empty when absent.
pub open spec fn fill_ints(v: Option<AttributeValueSpec>) -> Option<AttributeValueSpec> {
    match v {
        None => Some(AttributeValueSpec::Ints(Seq::empty())),
        Some(x) => Some(x),
    }
}

/// A `STRINGS` value, empty when absent.
pub open spec fn fill_strings(v: Option<AttributeValueSpec>) -> Option<AttributeValueSpec> {
    match v {
        None => Some(AttributeValueSpec::Strings(Seq::empty())),
        Some(x) => Some(x),
    }
}

/// The node values as a tree ensemble keeps them: the index arrays and the
/// modes are empty when absent.
pub open spec fn fill_nodes(v: Seq<Option<AttributeValueSpec>>) -> Seq<Option<AttributeValueSpec>> {
    seq![
        fill_ints(v[0]),
        fill_ints(v[1]),
        v[2],
        v[3],
        v[4],
        fill_strings(v[5]),
        fill_ints(v[6]),
        fill_ints(v[7]),
        fill_ints(v[8]),
        v[9],
        v[10],
    ]
}

/// The error for a node array whose length differs from that of the modes.
pub open spec fn nodes_len_error(op: Seq<char>, attr: Seq<char>) -> Option<OpErrorSpec> {
    Some(
        OpErrorSpec::InvalidValue {
            op,
            attr,
            detail: "all nodes_* arrays must share the length of nodes_modes"@,
        },
    )
}

/// The nodes must have modes, and every node array the length of the modes.
pub open spec fn nodes_check(op: Seq<char>, v: Seq<Option<AttributeValueSpec>>) -> Option<
    OpErrorSpec,
> {
    let n = list_len(v[5]);
    if n == 0 {
        Some(OpErrorSpec::MissingAttribute { op, attr: "nodes_modes"@ })
    } else if list_len(v[0]) != n {
        nodes_len_error(op, "nodes_falsenodeids"@)
    } else if list_len(v[1]) != n {
        nodes_len_error(op, "nodes_featureids"@)
    } else if list_len(v[6]) != n {
        nodes_len_error(op, "nodes_nodeids"@)
    } else if list_len(v[7]) != n {
        nodes_len_error(op, "nodes_treeids"@)
    } else if list_len(v[8]) != n {
        nodes_len_error(op, "nodes_truenodeids"@)
    } else if v[4] is Some && list_len(v[4]) != n {
        nodes_len_error(op, "nodes_missing_value_tracks_true"@)
    } else if v[2] is Some && list_len(v[2]) != n {
        nodes_len_error(op, "nodes_hitrates"@)
    } else if v[9] is Some && list_len(v[9]) != n {
        nodes_len_error(op, "nodes_values"@)
    } else {
        None
    }
}

fn nodes_error(op: &'static str, attr: &'static str) -> (r: OpError)
    ensures
        nodes_len_error(op@, attr@) == Some(r.deep_view()),
{
    OpError::InvalidValue {
        op,
        attr: String::from_str(attr),
        detail: String::from_str("all nodes_* arrays must share the length of nodes_modes"),
    }
}

/// The nodes of a tree ensemble, one entry per node in each array.
/// Hit rates and values are IEEE-754 bit patterns.
#[derive(Debug, Clone, PartialEq)]
pub struct TreeNodes {
    pub falsenodeids: Vec<i64>,
    pub featureids: Vec<i64>,
    pub hitrates: Option<Vec<u32>>,
    pub hitrates_as_tensor: Option<Tensor>,
    pub missing_value_tracks_true: Option<Vec<i64>>,
    pub modes: Vec<String>,
    pub nodeids: Vec<i64>,
    pub treeids: Vec<i64>,
    pub truenodeids: Vec<i64>,
    pub values: Option<Vec<u32>>,
    pub values_as_tensor: Option<Tensor>,
}

impl TreeNodes {
    /// The attribute values, in schema order.
    pub open spec fn values(&self) -> Seq<Option<AttributeValueSpec>> {
        seq![
            Some(AttributeValueSpec::Ints(self.falsenodeids@)),
            Some(AttributeValueSpec::Ints(self.featureids@)),
            floats_value(self.hitrates),
            tensor_value(self.hitrates_as_tensor),
            ints_value(self.missing_value_tracks_true),
            Some(AttributeValueSpec::Strings(self.modes.deep_view())),
            Some(AttributeValueSpec::Ints(self.nodeids@)),
            Some(AttributeValueSpec::Ints(self.treeids@)),
            Some(AttributeValueSpec::Ints(self.truenodeids@)),
            floats_value(self.values),
            tensor_value(self.values_as_tensor),
        ]
    }

    fn check(&self, op: &'static str) -> (r: Result<(), OpError>)
        ensures
            match nodes_check(op@, self.values()) {
                Some(e) => r matches Err(x) && x.deep_view() == e,
                None => r is Ok,
            },
    {
        let n = self.modes.len();
        if n == 0 {
            return Err(OpError::MissingAttribute { op, attr: "nodes_modes" });
        }
        if self.falsenodeids.len() != n {
            return Err(nodes_error(op, "nodes_falsenodeids"));
        }
        if self.featureids.len() != n {
            return Err(nodes_error(op, "nodes_featureids"));
        }
        if self.nodeids.len() != n {
            return Err(nodes_error(op, "nodes_nodeids"));
        }
        if self.treeids.len() != n {
            return Err(nodes_error(op, "nodes_treeids"));
        }
        if self.truenodeids.len() != n {
            return Err(nodes_error(op, "nodes_truenodeids"));
        }
        match &self.missing_value_tracks_true {
            Some(v) => {
                if v.len() != n {
                    return Err(nodes_error(op, "nodes_missing_value_tracks_true"));
                }
            },
            None => {},
        }
        match &self.hitrates {
            Some(v) => {
                if v.len() != n {
                    return Err(nodes_error(op, "nodes_hitrates"));
                }
            },
            None => {},
        }
        match &self.values {
            Some(v) => {
                if v.len() != n {
                    return Err(nodes_error(op, "nodes_values"));
                }
            },
            None => {},
        }
        Ok(())
    }

    fn put(&self, vals: &mut Vec<Option<AttributeValue>>)
        ensures
            final(vals).deep_view() == old(vals).deep_view() + self.values(),
    {
        let ghost before = vals.deep_view();
        vals.push(put_ints_vec(&self.falsenodeids));
        vals.push(put_ints_vec(&self.featureids));
        vals.push(put_floats(&self.hitrates));
        vals.push(put_tensor(&self.hitrates_as_tensor));
        vals.push(put_ints(&self.missing_value_tracks_true));
        vals.push(put_strings_vec(&self.modes));
        vals.push(put_ints_vec(&self.nodeids));
        vals.push(put_ints_vec(&self.treeids));
        vals.push(put_ints_vec(&self.truenodeids));
        vals.push(put_floats(&self.values));
        vals.push(put_tensor(&self.values_as_tensor));
        proof {
            assert(vals.deep_view() =~= before + self.values());
        }
    }

    /// The nodes read from the eleven values of their schema, taken from
    /// position `at`.
    #[verifier::rlimit(50)]
    fn read(vals: &Vec<Option<&AttributeValue>>, at: usize) -> (r: Self)
        requires
            at + 11 <= vals@.len(),
            well_typed(tree_nodes_fields(), vals.deep_view().subrange(at as int, at + 11)),
        ensures
            r.values() == fill_nodes(vals.deep_view().subrange(at as int, at + 11)),
    {
        let len = vals.len();
        let ghost d = vals.deep_view().subrange(at as int, at + 11);
        proof {
            let f = tree_nodes_fields();
            assert forall|k: int| 0 <= k < 11 implies #[trigger] d[k] == vals@[at + k].deep_view() by {}
            assert(d[0] == vals@[at + 0].deep_view() && f[0].kind == AttrKind::Ints);
            assert(d[1] == vals@[at + 1].deep_view() && f[1].kind == AttrKind::Ints);
            assert(d[2] == vals@[at + 2].deep_view() && f[2].kind == AttrKind::Floats);
            assert(d[3] == vals@[at + 3].deep_view() && f[3].kind == AttrKind::Tensor);
            assert(d[4] == vals@[at + 4].deep_view() && f[4].kind == AttrKind::Ints);
            assert(d[5] == vals@[at + 5].deep_view() && f[5].kind == AttrKind::Strings);
            assert(d[6] == vals@[at + 6].deep_view() && f[6].kind == AttrKind::Ints);
            assert(d[7] == vals@[at + 7].deep_view() && f[7].kind == AttrKind::Ints);
            assert(d[8] == vals@[at + 8].deep_view() && f[8].kind == AttrKind::Ints);
            assert(d[9] == vals@[at + 9].deep_view() && f[9].kind == AttrKind::Floats);
            assert(d[10] == vals@[at + 10].deep_view() && f[10].kind == AttrKind::Tensor);
        }
        let falsenodeids = match get_ints(vals[at]) {
            Some(x) => x,
            None => Vec::new(),
        };
        let featureids = match get_ints(vals[at + 1]) {
            Some(x) => x,
            None => Vec::new(),
        };
        let modes = match get_strings(vals[at + 5]) {
            Some(x) => x,
            None => {
                let e: Vec<String> = Vec::new();
                proof {
                    assert(e.deep_view() =~= Seq::<Seq<char>>::empty());
                }
                e
            },
        };
        let nodeids = match get_ints(vals[at + 6]) {
            Some(x) => x,
            None => Vec::new(),
        };
        let treeids = match get_ints(vals[at + 7]) {
            Some(x) => x,
            None => Vec::new(),
        };
        let truenodeids = match get_ints(vals[at + 8]) {
            Some(x) => x,
            None => Vec::new(),
        };
        let r = TreeNodes {
            falsenodeids,
            featureids,
            hitrates: get_floats(vals[at + 2]),
            hitrates_as_tensor: get_tensor(vals[at + 3]),
            missing_value_tracks_true: get_ints(vals[at + 4]),
            modes,
            nodeids,
            treeids,
            truenodeids,
            values: get_floats(vals[at + 9]),
            values_as_tensor: get_tensor(vals[at + 10]),
        };
        proof {
            assert(r.values() =~= fill_nodes(d));
        }
        r
    }
}

/// The error for a class array whose length differs from that of the ids.
pub open spec fn class_len_error(op: Seq<char>, attr: Seq<char>) -> Option<OpErrorSpec> {
    Some(
        OpErrorSpec::InvalidValue {
            op,
            attr,
            detail: "all class_* arrays must share the length of class_ids"@,
        },
    )
}

/// The error for a target array whose length differs from that of the ids.
pub open spec fn target_len_error(op: Seq<char>, attr: Seq<char>) -> Option<OpErrorSpec> {
    Some(
        OpErrorSpec::InvalidValue {
            op,
            attr,
            detail: "all target_* arrays must share the length of target_ids"@,
        },
    )
}

/// The schema of the nodes of a tree ensemble.
pub open spec fn tree_nodes_fields() -> Seq<Field> {
    seq![
        Field { name: "nodes_falsenodeids", kind: AttrKind::Ints, required: false },
        Field { name: "nodes_featureids", kind: AttrKind::Ints, required: false },
        Field { name: "nodes_hitrates", kind: AttrKind::Floats, required: false },
        Field { name: "nodes_hitrates_as_tensor", kind: AttrKind::Tensor, required: false },
        Field { name: "nodes_missing_value_tracks_true", kind: AttrKind::Ints, required: false },
        Field { name: "nodes_modes", kind: AttrKind::Strings, required: false },
        Field { name: "nodes_nodeids", kind: AttrKind::Ints, required: false },
        Field { name: "nodes_treeids", kind: AttrKind::Ints, required: false },
        Field { name: "nodes_truenodeids", kind: AttrKind::Ints, required: false },
        Field { name: "nodes_values", kind: AttrKind::Floats, required: false },
        Field { name: "nodes_values_as_tensor", kind: AttrKind::Tensor, required: false },
    ]
}

/// The schema of a tree ensemble classifier up to its nodes.
pub open spec fn tree_classifier_first() -> Seq<Field> {
    seq![
        Field { name: "base_values", kind: AttrKind::Floats, required: false },
        Field { name: "base_values_as_tensor", kind: AttrKind::Tensor, required: false },
        Field { name: "class_ids", kind: AttrKind::Ints, required: false },
        Field { name: "class_nodeids", kind: AttrKind::Ints, required: false },
        Field { name: "class_treeids", kind: AttrKind::Ints, required: false },
        Field { name: "class_weights", kind: AttrKind::Floats, required: false },
        Field { name: "class_weights_as_tensor", kind: AttrKind::Tensor, required: false },
        Field { name: "classlabels_int64s", kind: AttrKind::Ints, required: false },
        Field { name: "classlabels_strings", kind: AttrKind::Strings, required: false },
        Field { name: "nodes_falsenodeids", kind: AttrKind::Ints, required: false },
        Field { name: "nodes_featureids", kind: AttrKind::Ints, required: false },
        Field { name: "nodes_hitrates", kind: AttrKind::Floats, required: false },
        Field { name: "nodes_hitrates_as_tensor", kind: AttrKind::Tensor, required: false },
        Field { name: "nodes_missing_value_tracks_true", kind: AttrKind::Ints, required: false },
        Field { name: "nodes_modes", kind: AttrKind::Strings, required: false },
        Field { name: "nodes_nodeids", kind: AttrKind::Ints, required: false },
        Field { name: "nodes_treeids", kind: AttrKind::Ints, required: false },
        Field { name: "nodes_truenodeids", kind: AttrKind::Ints, required: false },
        Field { name: "nodes_values", kind: AttrKind::Floats, required: false },
        Field { name: "nodes_values_as_tensor", kind: AttrKind::Tensor, required: false },
    ]
}

fn tree_classifier_first_schema() -> (r: [Field; 20])
    ensures
        r@ == tree_classifier_first(),
{
    let r = [
        Field { name: "base_values", kind: AttrKind::Floats, required: false },
        Field { name: "base_values_as_tensor", kind: AttrKind::Tensor, required: false },
        Field { name: "class_ids", kind: AttrKind::Ints, required: false },
        Field { name: "class_nodeids", kind: AttrKind::Ints, required: false },
        Field { name: "class_treeids", kind: AttrKind::Ints, required: false },
        Field { name: "class_weights", kind: AttrKind::Floats, required: false },
        Field { name: "class_weights_as_tensor", kind: AttrKind::Tensor, required: false },
        Field { name: "classlabels_int64s", kind: AttrKind::Ints, required: false },
        Field { name: "classlabels_strings", kind: AttrKind::Strings, required: false },
        Field { name: "nodes_falsenodeids", kind: AttrKind::Ints, required: false },
        Field { name: "nodes_featureids", kind: AttrKind::Ints, required: false },
        Field { name: "nodes_hitrates", kind: AttrKind::Floats, required: false },
        Field { name: "nodes_hitrates_as_tensor", kind: AttrKind::Tensor, required: false },
        Field { name: "nodes_missing_value_tracks_true", kind: AttrKind::Ints, required: false },
        Field { name: "nodes_modes", kind: AttrKind::Strings, required: false },
        Field { name: "nodes_nodeids", kind: AttrKind::Ints, required: false },
        Field { name: "nodes_treeids", kind: AttrKind::Ints, required: false },
        Field { name: "nodes_truenodeids", kind: AttrKind::Ints, required: false },
        Field { name: "nodes_values", kind: AttrKind::Floats, required: false },
        Field { name: "nodes_values_as_tensor", kind: AttrKind::Tensor, required: false },
    ];
    proof {
        assert(r@ =~= tree_classifier_first());
    }
    r
}

/// The schema of a tree ensemble classifier after its nodes.
pub open spec fn tree_classifier_second() -> Seq<Field> {
    seq![
        Field { name: "post_transform", kind: AttrKind::Str, required: false },
    ]
}

fn tree_classifier_second_schema() -> (r: [Field; 1])
    ensures
        r@ == tree_classifier_second(),
{
    let r = [
        Field { name: "post_transform", kind: AttrKind::Str, required: false },
    ];
    proof {
        assert(r@ =~= tree_classifier_second());
    }
    r
}

/// The schema of a tree ensemble regressor up to its nodes.
pub open spec fn tree_regressor_first() -> Seq<Field> {
    seq![
        Field { name: "aggregate_function", kind: AttrKind::Str, required: false },
        Field { name: "base_values", kind: AttrKind::Floats, required: false },
        Field { name: "base_values_as_tensor", kind: AttrKind::Tensor, required: false },
        Field { name: "n_targets", kind: AttrKind::Int, required: false },
        Field { name: "nodes_falsenodeids", kind: AttrKind::Ints, required: false },
        Field { name: "nodes_featureids", kind: AttrKind::Ints, required: false },
        Field { name: "nodes_hitrates", kind: AttrKind::Floats, required: false },
        Field { name: "nodes_hitrates_as_tensor", kind: AttrKind::Tensor, required: false },
        Field { name: "nodes_missing_value_tracks_true", kind: AttrKind::Ints, required: false },
        Field { name: "nodes_modes", kind: AttrKind::Strings, required: false },
        Field { name: "nodes_nodeids", kind: AttrKind::Ints, required: false },
        Field { name: "nodes_treeids", kind: AttrKind::Ints, required: false },
        Field { name: "nodes_truenodeids", kind: AttrKind::Ints, required: false },
        Field { name: "nodes_values", kind: AttrKind::Floats, required: false },
        Field { name: "nodes_values_as_tensor", kind: AttrKind::Tensor, required: false },
    ]
}

fn tree_regressor_first_schema() -> (r: [Field; 15])
    ensures
        r@ == tree_regressor_first(),
{
    let r = [
        Field { name: "aggregate_function", kind: AttrKind::Str, required: false },
        Field { name: "base_values", kind: AttrKind::Floats, required: false },
        Field { name: "base_values_as_tensor", kind: AttrKind::Tensor, required: false },
        Field { name: "n_targets", kind: AttrKind::Int, required: false },
        Field { name: "nodes_falsenodeids", kind: AttrKind::Ints, required: false },
        Field { name: "nodes_featureids", kind: AttrKind::Ints, required: false },
        Field { name: "nodes_hitrates", kind: AttrKind::Floats, required: false },
        Field { name: "nodes_hitrates_as_tensor", kind: AttrKind::Tensor, required: false },
        Field { name: "nodes_missing_value_tracks_true", kind: AttrKind::Ints, required: false },
        Field { name: "nodes_modes", kind: AttrKind::Strings, required: false },
        Field { name: "nodes_nodeids", kind: AttrKind::Ints, required: false },
        Field { name: "nodes_treeids", kind: AttrKind::Ints, required: false },
        Field { name: "nodes_truenodeids", kind: AttrKind::Ints, required: false },
        Field { name: "nodes_values", kind: AttrKind::Floats, required: false },
        Field { name: "nodes_values_as_tensor", kind: AttrKind::Tensor, required: false },
    ];
    proof {
        assert(r@ =~= tree_regressor_first());
    }
    r
}

/// The schema of a tree ensemble regressor after its nodes.
pub open spec fn tree_regressor_second() -> Seq<Field> {
    seq![
        Field { name: "post_transform", kind: AttrKind::Str, required: false },
        Field { name: "target_ids", kind: AttrKind::Ints, required: false },
        Field { name: "target_nodeids", kind: AttrKind::Ints, required: false },
        Field { name: "target_treeids", kind: AttrKind::Ints, required: false },
        Field { name: "target_weights", kind: AttrKind::Floats, required: false },
        Field { name: "target_weights_as_tensor", kind: AttrKind::Tensor, required: false },
    ]
}

fn tree_regressor_second_schema() -> (r: [Field; 6])
    ensures
        r@ == tree_regressor_second(),
{
    let r = [
        Field { name: "post_transform", kind: AttrKind::Str, required: false },
        Field { name: "target_ids", kind: AttrKind::Ints, required: false },
        Field { name: "target_nodeids", kind: AttrKind::Ints, required: false },
        Field { name: "target_treeids", kind: AttrKind::Ints, required: false },
        Field { name: "target_weights", kind: AttrKind::Floats, required: false },
        Field { name: "target_weights_as_tensor", kind: AttrKind::Tensor, required: false },
    ];
    proof {
        assert(r@ =~= tree_regressor_second());
    }
    r
}

proof fn lemma_tree_classifier_fields_distinct()
    ensures
        distinct_names(tree_classifier_first() + tree_classifier_second()),
{
    let f = tree_classifier_first() + tree_classifier_second();
    reveal_strlit("base_values");
    assert(f[0].name@ == "base_values"@);
    reveal_strlit("base_values_as_tensor");
    assert(f[1].name@ == "base_values_as_tensor"@);
    reveal_strlit("class_ids");
    assert(f[2].name@ == "class_ids"@);
    reveal_strlit("class_nodeids");
    assert(f[3].name@ == "class_nodeids"@);
    reveal_strlit("class_treeids");
    assert(f[4].name@ == "class_treeids"@);
    reveal_strlit("class_weights");
    assert(f[5].name@ == "class_weights"@);
    reveal_strlit("class_weights_as_tensor");
    assert(f[6].name@ == "class_weights_as_tensor"@);
    reveal_strlit("classlabels_int64s");
    assert(f[7].name@ == "classlabels_int64s"@);
    reveal_strlit("classlabels_strings");
    assert(f[8].name@ == "classlabels_strings"@);
    reveal_strlit("nodes_falsenodeids");
    assert(f[9].name@ == "nodes_falsenodeids"@);
    reveal_strlit("nodes_featureids");
    assert(f[10].name@ == "nodes_featureids"@);
    reveal_strlit("nodes_hitrates");
    assert(f[11].name@ == "nodes_hitrates"@);
    reveal_strlit("nodes_hitrates_as_tensor");
    assert(f[12].name@ == "nodes_hitrates_as_tensor"@);
    reveal_strlit("nodes_missing_value_tracks_true");
    assert(f[13].name@ == "nodes_missing_value_tracks_true"@);
    reveal_strlit("nodes_modes");
    assert(f[14].name@ == "nodes_modes"@);
    reveal_strlit("nodes_nodeids");
    assert(f[15].name@ == "nodes_nodeids"@);
    reveal_strlit("nodes_treeids");
    assert(f[16].name@ == "nodes_treeids"@);
    reveal_strlit("nodes_truenodeids");
    assert(f[17].name@ == "nodes_truenodeids"@);
    reveal_strlit("nodes_values");
    assert(f[18].name@ == "nodes_values"@);
    reveal_strlit("nodes_values_as_tensor");
    assert(f[19].name@ == "nodes_values_as_tensor"@);
    reveal_strlit("post_transform");
    assert(f[20].name@ == "post_transform"@);
    assert(f[0].name@[0] != f[14].name@[0]);
    assert(f[3].name@[6] != f[4].name@[6]);
    assert(f[3].name@[6] != f[5].name@[6]);
    assert(f[3].name@[0] != f[15].name@[0]);
    assert(f[3].name@[0] != f[16].name@[0]);
    assert(f[4].name@[6] != f[5].name@[6]);
    assert(f[4].name@[0] != f[15].name@[0]);
    assert(f[4].name@[0] != f[16].name@[0]);
    assert(f[5].name@[0] != f[15].name@[0]);
    assert(f[5].name@[0] != f[16].name@[0]);
    assert(f[7].name@[0] != f[9].name@[0]);
    assert(f[11].name@[0] != f[20].name@[0]);
    assert(f[15].name@[6] != f[16].name@[6]);
    assert forall|i: int, j: int| 0 <= i < j < f.len() implies #[trigger] f[i].name@
        != #[trigger] f[j].name@ by {
        assert(i == 0 || i == 1 || i == 2 || i == 3 || i == 4 || i == 5 || i == 6 || i == 7 || i == 8 || i == 9 || i == 10 || i == 11 || i == 12 || i == 13 || i == 14 || i == 15 || i == 16 || i == 17 || i == 18 || i == 19 || i == 20);
        assert(j == 0 || j == 1 || j == 2 || j == 3 || j == 4 || j == 5 || j == 6 || j == 7 || j == 8 || j == 9 || j == 10 || j == 11 || j == 12 || j == 13 || j == 14 || j == 15 || j == 16 || j == 17 || j == 18 || j == 19 || j == 20);
    }
}

proof fn lemma_tree_regressor_fields_distinct()
    ensures
        distinct_names(tree_regressor_first() + tree_regressor_second()),
{
    let f = tree_regressor_first() + tree_regressor_second();
    reveal_strlit("aggregate_function");
    assert(f[0].name@ == "aggregate_function"@);
    reveal_strlit("base_values");
    assert(f[1].name@ == "base_values"@);
    reveal_strlit("base_values_as_tensor");
    assert(f[2].name@ == "base_values_as_tensor"@);
    reveal_strlit("n_targets");
    assert(f[3].name@ == "n_targets"@);
    reveal_strlit("nodes_falsenodeids");
    assert(f[4].name@ == "nodes_falsenodeids"@);
    reveal_strlit("nodes_featureids");
    assert(f[5].name@ == "nodes_featureids"@);
    reveal_strlit("nodes_hitrates");
    assert(f[6].name@ == "nodes_hitrates"@);
    reveal_strlit("nodes_hitrates_as_tensor");
    assert(f[7].name@ == "nodes_hitrates_as_tensor"@);
    reveal_strlit("nodes_missing_value_tracks_true");
    assert(f[8].name@ == "nodes_missing_value_tracks_true"@);
    reveal_strlit("nodes_modes");
    assert(f[9].name@ == "nodes_modes"@);
    reveal_strlit("nodes_nodeids");
    assert(f[10].name@ == "nodes_nodeids"@);
    reveal_strlit("nodes_treeids");
    assert(f[11].name@ == "nodes_treeids"@);
    reveal_strlit("nodes_truenodeids");
    assert(f[12].name@ == "nodes_truenodeids"@);
    reveal_strlit("nodes_values");
    assert(f[13].name@ == "nodes_values"@);
    reveal_strlit("nodes_values_as_tensor");
    assert(f[14].name@ == "nodes_values_as_tensor"@);
    reveal_strlit("post_transform");
    assert(f[15].name@ == "post_transform"@);
    reveal_strlit("target_ids");
    assert(f[16].name@ == "target_ids"@);
    reveal_strlit("target_nodeids");
    assert(f[17].name@ == "target_nodeids"@);
    reveal_strlit("target_treeids");
    assert(f[18].name@ == "target_treeids"@);
    reveal_strlit("target_weights");
    assert(f[19].name@ == "target_weights"@);
    reveal_strlit("target_weights_as_tensor");
    assert(f[20].name@ == "target_weights_as_tensor"@);
    assert(f[0].name@[0] != f[4].name@[0]);
    assert(f[1].name@[0] != f[9].name@[0]);
    assert(f[6].name@[0] != f[15].name@[0]);
    assert(f[6].name@[0] != f[17].name@[0]);
    assert(f[6].name@[0] != f[18].name@[0]);
    assert(f[6].name@[0] != f[19].name@[0]);
    assert(f[7].name@[0] != f[20].name@[0]);
    assert(f[10].name@[6] != f[11].name@[6]);
    assert(f[15].name@[0] != f[17].name@[0]);
    assert(f[15].name@[0] != f[18].name@[0]);
    assert(f[15].name@[0] != f[19].name@[0]);
    assert(f[17].name@[7] != f[18].name@[7]);
    assert(f[17].name@[7] != f[19].name@[7]);
    assert(f[18].name@[7] != f[19].name@[7]);
    assert forall|i: int, j: int| 0 <= i < j < f.len() implies #[trigger] f[i].name@
        != #[trigger] f[j].name@ by {
        assert(i == 0 || i == 1 || i == 2 || i == 3 || i == 4 || i == 5 || i == 6 || i == 7 || i == 8 || i == 9 || i == 10 || i == 11 || i == 12 || i == 13 || i == 14 || i == 15 || i == 16 || i == 17 || i == 18 || i == 19 || i == 20);
        assert(j == 0 || j == 1 || j == 2 || j == 3 || j == 4 || j == 5 || j == 6 || j == 7 || j == 8 || j == 9 || j == 10 || j == 11 || j == 12 || j == 13 || j == 14 || j == 15 || j == 16 || j == 17 || j == 18 || j == 19 || j == 20);
    }
}

// ---------------------------------------------------------------------------
// ZipMap
// ---------------------------------------------------------------------------
/// The attribute schema of `ZipMap`.
pub open spec fn zipmap_fields() -> Seq<Field> {
    seq![
        Field { name: "classlabels_int64s", kind: AttrKind::Ints, required: false },
        Field { name: "classlabels_strings", kind: AttrKind::Strings, required: false },
    ]
}

fn zipmap_schema() -> (r: [Field; 2])
    ensures
        r@ == zipmap_fields(),
{
    let r = [
        Field { name: "classlabels_int64s", kind: AttrKind::Ints, required: false },
        Field { name: "classlabels_strings", kind: AttrKind::Strings, required: false },
    ];
    proof {
        assert(r@ =~= zipmap_fields());
    }
    r
}

/// `ZipMap`: pairs each class label with its score.
#[derive(Debug, Clone, PartialEq)]
pub struct ZipMap {
    pub classlabels_int64s: Option<Vec<i64>>,
    pub classlabels_strings: Option<Vec<String>>,
}

impl ZipMap {
    /// The attribute values, in schema order.
    pub open spec fn values(&self) -> Seq<Option<AttributeValueSpec>> {
        seq![ints_value(self.classlabels_int64s), strings_value(self.classlabels_strings)]
    }

    /// The node written for this operator, or the first error.
    pub open spec fn spec_to_node(&self, inputs: Seq<Seq<char>>, outputs: Seq<Seq<char>>) -> Result<
        EmittedSpec,
        OpErrorSpec,
    > {
        match Self::spec_check(self.values()) {
            Some(e) => Err(e),
            None => emit_node("ZipMap"@, ML_DOMAIN_STR@, Arity::Exactly(1), Arity::Exactly(1), zipmap_fields(), self.values(), inputs, outputs),
        }
    }

    /// The attribute values read from a node, or the first error.
    pub open spec fn spec_parse(n: NodeSpec) -> Result<Seq<Option<AttributeValueSpec>>, OpErrorSpec> {
        match parse_node("ZipMap"@, ML_DOMAIN_STR@, Arity::Exactly(1), Arity::Exactly(1), zipmap_fields(), n) {
            Err(e) => Err(e),
            Ok(vs) => match Self::spec_check(vs) {
                Some(e) => Err(e),
                None => Ok(vs),
            },
        }
    }
}

impl OnnxOp for ZipMap {
    fn op_type() -> (r: &'static str)
        ensures
            r@ == "ZipMap"@,
    {
        "ZipMap"
    }

    fn domain() -> (r: &'static str)
        ensures
            r == ML_DOMAIN_STR,
    {
        ML_DOMAIN_STR
    }

    open spec fn recognizes(node: NodeSpec) -> bool {
        Self::spec_parse(node) is Ok
    }

    open spec fn op_name() -> Seq<char> {
        "ZipMap"@
    }

    open spec fn emits(&self, inputs: Seq<Seq<char>>, outputs: Seq<Seq<char>>) -> Result<
        EmittedSpec,
        OpErrorSpec,
    > {
        self.spec_to_node(inputs, outputs)
    }

    fn to_node(&self, inputs: Vec<String>, outputs: Vec<String>) -> (r: Result<Emitted, OpError>)
        ensures
            match self.spec_to_node(inputs.deep_view(), outputs.deep_view()) {
                Ok(em) => r matches Ok(x) && x.deep_view() == em,
                Err(e) => r matches Err(x) && x.deep_view() == e,
            },
    {
        match self.check() {
            Err(e) => {
                return Err(e);
            },
            Ok(()) => {},
        }
        let mut vals: Vec<Option<AttributeValue>> = Vec::new();
        vals.push(put_ints(&self.classlabels_int64s));
        vals.push(put_strings(&self.classlabels_strings));
        proof {
            assert(vals.deep_view() =~= self.values());
        }
        build_node("ZipMap", ML_DOMAIN_STR, Arity::Exactly(1), Arity::Exactly(1), &zipmap_schema(), vals, inputs, outputs)
    }

    #[verifier::rlimit(60)]
    fn from_node(node: &Node) -> (r: Result<Self, OpError>)
        ensures
            r is Ok <==> Self::recognizes(node.deep_view()),
            match Self::spec_parse(node.deep_view()) {
                Ok(vs) => r matches Ok(x) && x.values() == vs,
                Err(e) => r matches Err(x) && x.deep_view() == e,
            },
    {
        let vals = match read_node("ZipMap", ML_DOMAIN_STR, Arity::Exactly(1), Arity::Exactly(1), &zipmap_schema(), node) {
            Ok(v) => v,
            Err(e) => {
                return Err(e);
            },
        };
        proof {
            lemma_node_well_typed("ZipMap"@, ML_DOMAIN_STR@, Arity::Exactly(1), Arity::Exactly(1), zipmap_fields(), node.deep_view());
            assert(vals.deep_view()[0] == vals@[0].deep_view());
            assert(vals.deep_view()[1] == vals@[1].deep_view());
        }
        let classlabels_int64s = get_ints(vals[0]);
        let classlabels_strings = get_strings(vals[1]);
        let r = ZipMap {
            classlabels_int64s,
            classlabels_strings,
        };
        proof {
            assert(r.values() =~= vals.deep_view());
        }
        match r.check() {
            Err(e) => Err(e),
            Ok(()) => Ok(r),
        }
    }
}

proof fn lemma_zipmap_fields_distinct()
    ensures
        distinct_names(zipmap_fields()),
{
    let f = zipmap_fields();
    reveal_strlit("classlabels_int64s");
    assert(f[0].name@ == "classlabels_int64s"@);
    reveal_strlit("classlabels_strings");
    assert(f[1].name@ == "classlabels_strings"@);
    assert forall|i: int, j: int| 0 <= i < j < f.len() implies #[trigger] f[i].name@
        != #[trigger] f[j].name@ by {
        assert(i == 0 || i == 1);
        assert(j == 0 || j == 1);
    }
}

/// Reading back the node written for a `ZipMap` gives the same operator.
#[verifier::spinoff_prover]
#[verifier::rlimit(60)]
pub proof fn lemma_zipmap_roundtrip(op: ZipMap, inputs: Seq<Seq<char>>, outputs: Seq<Seq<char>>)
    requires
        op.spec_to_node(inputs, outputs) is Ok,
    ensures
        ZipMap::spec_parse(op.spec_to_node(inputs, outputs)->Ok_0.node) == Ok::<
            Seq<Option<AttributeValueSpec>>,
            OpErrorSpec,
        >(op.values()),
{
    lemma_zipmap_fields_distinct();
    assert(ZipMap::spec_check(op.values()) is None);
    assert(op.spec_to_node(inputs, outputs) == emit_node("ZipMap"@, ML_DOMAIN_STR@, Arity::Exactly(1), Arity::Exactly(1), zipmap_fields(), op.values(), inputs, outputs));
    lemma_node_roundtrip("ZipMap"@, ML_DOMAIN_STR@, Arity::Exactly(1), Arity::Exactly(1), zipmap_fields(), op.values(), inputs, outputs);
    assert(parse_node("ZipMap"@, ML_DOMAIN_STR@, Arity::Exactly(1), Arity::Exactly(1), zipmap_fields(), op.spec_to_node(inputs, outputs)->Ok_0.node) == Ok::<Seq<Option<AttributeValueSpec>>, OpErrorSpec>(op.values()));
}
// ---------------------------------------------------------------------------
// TreeEnsembleClassifier
// ---------------------------------------------------------------------------
/// The values of a tree ensemble classifier as it keeps them: the class
/// index arrays are empty when absent, and so are those of its nodes.
pub open spec fn fill_classifier(v: Seq<Option<AttributeValueSpec>>) -> Seq<
    Option<AttributeValueSpec>,
> {
    seq![v[0], v[1], fill_ints(v[2]), fill_ints(v[3]), fill_ints(v[4]), v[5], v[6], v[7], v[8]]
        + fill_nodes(v.subrange(9, 20)) + seq![v[20]]
}

/// The class arrays must be non-empty and share one length.
pub open spec fn class_check(v: Seq<Option<AttributeValueSpec>>) -> Option<OpErrorSpec> {
    let op = "TreeEnsembleClassifier"@;
    let n = list_len(v[2]);
    if n == 0 {
        Some(OpErrorSpec::MissingAttribute { op, attr: "class_ids"@ })
    } else if list_len(v[3]) != n {
        class_len_error(op, "class_nodeids"@)
    } else if list_len(v[4]) != n {
        class_len_error(op, "class_treeids"@)
    } else if v[5] is Some && list_len(v[5]) != n {
        class_len_error(op, "class_weights"@)
    } else {
        None
    }
}

/// `TreeEnsembleClassifier`: a tree ensemble classifier. Numbers are
/// IEEE-754 bit patterns.
#[derive(Debug, Clone, PartialEq)]
pub struct TreeEnsembleClassifier {
    pub base_values: Option<Vec<u32>>,
    pub base_values_as_tensor: Option<Tensor>,
    pub class_ids: Vec<i64>,
    pub class_nodeids: Vec<i64>,
    pub class_treeids: Vec<i64>,
    pub class_weights: Option<Vec<u32>>,
    pub class_weights_as_tensor: Option<Tensor>,
    pub classlabels_int64s: Option<Vec<i64>>,
    pub classlabels_strings: Option<Vec<String>>,
    pub nodes: TreeNodes,
    pub post_transform: Option<String>,
}

impl TreeEnsembleClassifier {
    /// The attribute values before the nodes, in schema order.
    pub open spec fn head_values(&self) -> Seq<Option<AttributeValueSpec>> {
        seq![
            floats_value(self.base_values),
            tensor_value(self.base_values_as_tensor),
            Some(AttributeValueSpec::Ints(self.class_ids@)),
            Some(AttributeValueSpec::Ints(self.class_nodeids@)),
            Some(AttributeValueSpec::Ints(self.class_treeids@)),
            floats_value(self.class_weights),
            tensor_value(self.class_weights_as_tensor),
            ints_value(self.classlabels_int64s),
            strings_value(self.classlabels_strings),
        ]
    }

    /// The attribute values, in schema order.
    pub open spec fn values(&self) -> Seq<Option<AttributeValueSpec>> {
        self.head_values() + self.nodes.values() + seq![string_value(self.post_transform)]
    }

    /// The labels, the nodes and the class arrays must be valid, in that
    /// order.
    pub open spec fn spec_check(v: Seq<Option<AttributeValueSpec>>) -> Option<OpErrorSpec> {
        match exactly_one_error(
            "TreeEnsembleClassifier"@,
            v[7] is Some,
            v[8] is Some,
            "classlabels_*"@,
            "exactly one of classlabels_int64s and classlabels_strings must be set"@,
        ) {
            Some(e) => Some(e),
            None => match nodes_check("TreeEnsembleClassifier"@, v.subrange(9, 20)) {
                Some(e) => Some(e),
                None => class_check(v),
            },
        }
    }

    /// The check made once the nodes are read.
    pub open spec fn spec_nodes_step(v: Seq<Option<AttributeValueSpec>>) -> Option<OpErrorSpec> {
        nodes_check("TreeEnsembleClassifier"@, fill_nodes(v.subrange(9, 20)))
    }

    /// The node written for this classifier, or the first error.
    pub open spec fn spec_to_node(&self, inputs: Seq<Seq<char>>, outputs: Seq<Seq<char>>) -> Result<
        EmittedSpec,
        OpErrorSpec,
    > {
        match Self::spec_check(self.values()) {
            Some(e) => Err(e),
            None => emit_node(
                "TreeEnsembleClassifier"@,
                ML_DOMAIN_STR@,
                Arity::Exactly(1),
                Arity::Exactly(2),
                tree_classifier_first() + tree_classifier_second(),
                self.values(),
                inputs,
                outputs,
            ),
        }
    }

    /// The attribute values read from a node, as the classifier keeps them,
    /// or the first error.
    pub open spec fn spec_parse(n: NodeSpec) -> Result<Seq<Option<AttributeValueSpec>>, OpErrorSpec> {
        match parse_node_staged(
            "TreeEnsembleClassifier"@,
            ML_DOMAIN_STR@,
            Arity::Exactly(1),
            Arity::Exactly(2),
            tree_classifier_first(),
            |v: Seq<Option<AttributeValueSpec>>| Self::spec_nodes_step(v),
            tree_classifier_second(),
            n,
        ) {
            Err(e) => Err(e),
            Ok(vs) => match Self::spec_check(fill_classifier(vs)) {
                Some(e) => Err(e),
                None => Ok(fill_classifier(vs)),
            },
        }
    }

    fn check(&self) -> (r: Result<(), OpError>)
        ensures
            match Self::spec_check(self.values()) {
                Some(e) => r matches Err(x) && x.deep_view() == e,
                None => r is Ok,
            },
    {
        let op = "TreeEnsembleClassifier";
        proof {
            assert(self.values().subrange(9, 20) =~= self.nodes.values());
        }
        match check_exactly_one(
            op,
            self.classlabels_int64s.is_some(),
            self.classlabels_strings.is_some(),
            "classlabels_*",
            "exactly one of classlabels_int64s and classlabels_strings must be set",
        ) {
            Err(e) => {
                return Err(e);
            },
            Ok(()) => {},
        }
        match self.nodes.check(op) {
            Err(e) => {
                return Err(e);
            },
            Ok(()) => {},
        }
        let n = self.class_ids.len();
        if n == 0 {
            return Err(OpError::MissingAttribute { op, attr: "class_ids" });
        }
        if self.class_nodeids.len() != n {
            return Err(class_error("class_nodeids"));
        }
        if self.class_treeids.len() != n {
            return Err(class_error("class_treeids"));
        }
        match &self.class_weights {
            Some(v) => {
                if v.len() != n {
                    return Err(class_error("class_weights"));
                }
            },
            None => {},
        }
        Ok(())
    }
}

fn class_error(attr: &'static str) -> (r: OpError)
    ensures
        class_len_error("TreeEnsembleClassifier"@, attr@) == Some(r.deep_view()),
{
    OpError::InvalidValue {
        op: "TreeEnsembleClassifier",
        attr: String::from_str(attr),
        detail: String::from_str("all class_* arrays must share the length of class_ids"),
    }
}

impl OnnxOp for TreeEnsembleClassifier {
    fn op_type() -> (r: &'static str)
        ensures
            r@ == "TreeEnsembleClassifier"@,
    {
        "TreeEnsembleClassifier"
    }

    fn domain() -> (r: &'static str)
        ensures
            r == ML_DOMAIN_STR,
    {
        ML_DOMAIN_STR
    }

    open spec fn recognizes(node: NodeSpec) -> bool {
        Self::spec_parse(node) is Ok
    }

    open spec fn op_name() -> Seq<char> {
        "TreeEnsembleClassifier"@
    }

    open spec fn emits(&self, inputs: Seq<Seq<char>>, outputs: Seq<Seq<char>>) -> Result<
        EmittedSpec,
        OpErrorSpec,
    > {
        self.spec_to_node(inputs, outputs)
    }

    fn to_node(&self, inputs: Vec<String>, outputs: Vec<String>) -> (r: Result<Emitted, OpError>)
        ensures
            match self.spec_to_node(inputs.deep_view(), outputs.deep_view()) {
                Ok(em) => r matches Ok(x) && x.deep_view() == em,
                Err(e) => r matches Err(x) && x.deep_view() == e,
            },
    {
        match self.check() {
            Err(e) => {
                return Err(e);
            },
            Ok(()) => {},
        }
        let mut vals: Vec<Option<AttributeValue>> = Vec::new();
        vals.push(put_floats(&self.base_values));
        vals.push(put_tensor(&self.base_values_as_tensor));
        vals.push(put_ints_vec(&self.class_ids));
        vals.push(put_ints_vec(&self.class_nodeids));
        vals.push(put_ints_vec(&self.class_treeids));
        vals.push(put_floats(&self.class_weights));
        vals.push(put_tensor(&self.class_weights_as_tensor));
        vals.push(put_ints(&self.classlabels_int64s));
        vals.push(put_strings(&self.classlabels_strings));
        let ghost head = vals.deep_view();
        proof {
            assert(head =~= self.head_values());
        }
        self.nodes.put(&mut vals);
        vals.push(put_string(&self.post_transform));
        proof {
            assert(vals.deep_view() =~= self.values());
        }
        let a = tree_classifier_first_schema();
        let b = tree_classifier_second_schema();
        let fields = [
            a[0],
            a[1],
            a[2],
            a[3],
            a[4],
            a[5],
            a[6],
            a[7],
            a[8],
            a[9],
            a[10],
            a[11],
            a[12],
            a[13],
            a[14],
            a[15],
            a[16],
            a[17],
            a[18],
            a[19],
            b[0],
        ];
        proof {
            assert(fields@ =~= tree_classifier_first() + tree_classifier_second());
        }
        build_node(
            "TreeEnsembleClassifier",
            ML_DOMAIN_STR,
            Arity::Exactly(1),
            Arity::Exactly(2),
            &fields,
            vals,
            inputs,
            outputs,
        )
    }

    #[verifier::rlimit(80)]
    fn from_node(node: &Node) -> (r: Result<Self, OpError>)
        ensures
            r is Ok <==> Self::recognizes(node.deep_view()),
            match Self::spec_parse(node.deep_view()) {
                Ok(vs) => r matches Ok(x) && x.values() == vs,
                Err(e) => r matches Err(x) && x.deep_view() == e,
            },
    {
        let ghost n = node.deep_view();
        let mut table = match open_table(
            "TreeEnsembleClassifier",
            ML_DOMAIN_STR,
            Arity::Exactly(1),
            Arity::Exactly(2),
            node,
        ) {
            Ok(t) => t,
            Err(e) => {
                return Err(e);
            },
        };
        let v1 = match table.fields(&tree_classifier_first_schema()) {
            Ok(v) => v,
            Err(e) => {
                return Err(e);
            },
        };
        let ghost d1 = v1.deep_view();
        proof {
            lemma_parsed_well_typed("TreeEnsembleClassifier"@, n.attributes, tree_classifier_first());
            assert(tree_classifier_first().subrange(9, 20) =~= tree_nodes_fields());
            lemma_well_typed_part(tree_classifier_first(), d1, 9, tree_nodes_fields());
        }
        let nodes = TreeNodes::read(&v1, 9);
        match nodes.check("TreeEnsembleClassifier") {
            Err(e) => {
                return Err(e);
            },
            Ok(()) => {},
        }
        let ghost t1 = table.entries.deep_view();
        let v2 = match table.fields(&tree_classifier_second_schema()) {
            Ok(v) => v,
            Err(e) => {
                return Err(e);
            },
        };
        proof {
            lemma_parsed_well_typed("TreeEnsembleClassifier"@, t1, tree_classifier_second());
            let f = tree_classifier_first();
            assert forall|k: int| 0 <= k < 9 implies #[trigger] d1[k] == v1@[k].deep_view() by {}
            assert(d1[0] == v1@[0].deep_view() && f[0].kind == AttrKind::Floats);
            assert(d1[1] == v1@[1].deep_view() && f[1].kind == AttrKind::Tensor);
            assert(d1[2] == v1@[2].deep_view() && f[2].kind == AttrKind::Ints);
            assert(d1[3] == v1@[3].deep_view() && f[3].kind == AttrKind::Ints);
            assert(d1[4] == v1@[4].deep_view() && f[4].kind == AttrKind::Ints);
            assert(d1[5] == v1@[5].deep_view() && f[5].kind == AttrKind::Floats);
            assert(d1[6] == v1@[6].deep_view() && f[6].kind == AttrKind::Tensor);
            assert(d1[7] == v1@[7].deep_view() && f[7].kind == AttrKind::Ints);
            assert(d1[8] == v1@[8].deep_view() && f[8].kind == AttrKind::Strings);
            assert(v2.deep_view()[0] == v2@[0].deep_view());
        }
        match table.finish() {
            Err(e) => {
                return Err(e);
            },
            Ok(()) => {},
        }
        let class_ids = match get_ints(v1[2]) {
            Some(x) => x,
            None => Vec::new(),
        };
        let class_nodeids = match get_ints(v1[3]) {
            Some(x) => x,
            None => Vec::new(),
        };
        let class_treeids = match get_ints(v1[4]) {
            Some(x) => x,
            None => Vec::new(),
        };
        let r = TreeEnsembleClassifier {
            base_values: get_floats(v1[0]),
            base_values_as_tensor: get_tensor(v1[1]),
            class_ids,
            class_nodeids,
            class_treeids,
            class_weights: get_floats(v1[5]),
            class_weights_as_tensor: get_tensor(v1[6]),
            classlabels_int64s: get_ints(v1[7]),
            classlabels_strings: get_strings(v1[8]),
            nodes,
            post_transform: get_string(v2[0]),
        };
        proof {
            let vs = d1 + v2.deep_view();
            assert(vs.subrange(9, 20) =~= d1.subrange(9, 20));
            assert(r.values() =~= fill_classifier(vs));
        }
        match r.check() {
            Err(e) => Err(e),
            Ok(()) => Ok(r),
        }
    }
}

/// The values of part of a schema, taken at its position, are well typed
/// for that part.
proof fn lemma_well_typed_part(
    fields: Seq<Field>,
    vals: Seq<Option<AttributeValueSpec>>,
    at: int,
    part: Seq<Field>,
)
    requires
        well_typed(fields, vals),
        0 <= at,
        at + part.len() <= fields.len(),
        fields.subrange(at, at + part.len()) == part,
    ensures
        well_typed(part, vals.subrange(at, at + part.len())),
{
    let v = vals.subrange(at, at + part.len());
    assert forall|k: int| 0 <= k < part.len() implies match #[trigger] v[k] {
        Some(x) => super::table::kind_matches(x, part[k].kind),
        None => !part[k].required,
    } by {
        assert(v[k] == vals[at + k]);
        assert(part[k] == fields[at + k]);
    }
}

/// Reading back the node written for a tree ensemble classifier gives the
/// same classifier.
#[verifier::spinoff_prover]
#[verifier::rlimit(80)]
pub proof fn lemma_tree_classifier_roundtrip(
    op: TreeEnsembleClassifier,
    inputs: Seq<Seq<char>>,
    outputs: Seq<Seq<char>>,
)
    requires
        op.spec_to_node(inputs, outputs) is Ok,
    ensures
        TreeEnsembleClassifier::spec_parse(op.spec_to_node(inputs, outputs)->Ok_0.node) == Ok::<
            Seq<Option<AttributeValueSpec>>,
            OpErrorSpec,
        >(op.values()),
{
    let vals = op.values();
    let v1 = vals.subrange(0, 20);
    let v2 = vals.subrange(20, 21);
    let check = |v: Seq<Option<AttributeValueSpec>>| TreeEnsembleClassifier::spec_nodes_step(v);
    lemma_tree_classifier_fields_distinct();
    assert(TreeEnsembleClassifier::spec_check(vals) is None);
    assert(vals.subrange(9, 20) =~= op.nodes.values());
    assert(v1.subrange(9, 20) =~= op.nodes.values());
    assert(fill_nodes(op.nodes.values()) =~= op.nodes.values());
    assert(check(v1) is None);
    assert(fill_classifier(vals) =~= vals);
    assert(v1 + v2 =~= vals);
    assert(well_typed(tree_classifier_first(), v1)) by {
        let f = tree_classifier_first();
        assert forall|k: int| 0 <= k < f.len() implies match #[trigger] v1[k] {
            Some(x) => super::table::kind_matches(x, f[k].kind),
            None => !f[k].required,
        } by {
            assert(v1[k] == vals[k]);
        }
    }
    lemma_staged_roundtrip(
        "TreeEnsembleClassifier"@,
        ML_DOMAIN_STR@,
        Arity::Exactly(1),
        Arity::Exactly(2),
        tree_classifier_first(),
        check,
        tree_classifier_second(),
        v1,
        v2,
        inputs,
        outputs,
    );
}

// ---------------------------------------------------------------------------
// TreeEnsembleRegressor
// ---------------------------------------------------------------------------
/// The values of a tree ensemble regressor as it keeps them: the target
/// index arrays are empty when absent, and so are those of its nodes.
pub open spec fn fill_regressor(v: Seq<Option<AttributeValueSpec>>) -> Seq<
    Option<AttributeValueSpec>,
> {
    seq![v[0], v[1], v[2], v[3]] + fill_nodes(v.subrange(4, 15)) + seq![
        v[15],
        fill_ints(v[16]),
        fill_ints(v[17]),
        fill_ints(v[18]),
        v[19],
        v[20],
    ]
}

/// The target arrays must be non-empty and share one length.
pub open spec fn target_check(v: Seq<Option<AttributeValueSpec>>) -> Option<OpErrorSpec> {
    let op = "TreeEnsembleRegressor"@;
    let n = list_len(v[16]);
    if n == 0 {
        Some(OpErrorSpec::MissingAttribute { op, attr: "target_ids"@ })
    } else if list_len(v[17]) != n {
        target_len_error(op, "target_nodeids"@)
    } else if list_len(v[18]) != n {
        target_len_error(op, "target_treeids"@)
    } else if v[19] is Some && list_len(v[19]) != n {
        target_len_error(op, "target_weights"@)
    } else {
        None
    }
}

/// `TreeEnsembleRegressor`: a tree ensemble regression. Numbers are
/// IEEE-754 bit patterns.
#[derive(Debug, Clone, PartialEq)]
pub struct TreeEnsembleRegressor {
    pub aggregate_function: Option<String>,
    pub base_values: Option<Vec<u32>>,
    pub base_values_as_tensor: Option<Tensor>,
    pub n_targets: Option<i64>,
    pub nodes: TreeNodes,
    pub post_transform: Option<String>,
    pub target_ids: Vec<i64>,
    pub target_nodeids: Vec<i64>,
    pub target_treeids: Vec<i64>,
    pub target_weights: Option<Vec<u32>>,
    pub target_weights_as_tensor: Option<Tensor>,
}

impl TreeEnsembleRegressor {
    /// The attribute values before the nodes, in schema order.
    pub open spec fn head_values(&self) -> Seq<Option<AttributeValueSpec>> {
        seq![
            string_value(self.aggregate_function),
            floats_value(self.base_values),
            tensor_value(self.base_values_as_tensor),
            int_value(self.n_targets),
        ]
    }

    /// The attribute values after the nodes, in schema order.
    pub open spec fn tail_values(&self) -> Seq<Option<AttributeValueSpec>> {
        seq![
            string_value(self.post_transform),
            Some(AttributeValueSpec::Ints(self.target_ids@)),
            Some(AttributeValueSpec::Ints(self.target_nodeids@)),
            Some(AttributeValueSpec::Ints(self.target_treeids@)),
            floats_value(self.target_weights),
            tensor_value(self.target_weights_as_tensor),
        ]
    }

    /// The attribute values, in schema order.
    pub open spec fn values(&self) -> Seq<Option<AttributeValueSpec>> {
        self.head_values() + self.nodes.values() + self.tail_values()
    }

    /// The nodes and the target arrays must be valid, in that order.
    pub open spec fn spec_check(v: Seq<Option<AttributeValueSpec>>) -> Option<OpErrorSpec> {
        match nodes_check("TreeEnsembleRegressor"@, v.subrange(4, 15)) {
            Some(e) => Some(e),
            None => target_check(v),
        }
    }

    /// The check made once the nodes are read.
    pub open spec fn spec_nodes_step(v: Seq<Option<AttributeValueSpec>>) -> Option<OpErrorSpec> {
        nodes_check("TreeEnsembleRegressor"@, fill_nodes(v.subrange(4, 15)))
    }

    /// The node written for this regressor, or the first error.
    pub open spec fn spec_to_node(&self, inputs: Seq<Seq<char>>, outputs: Seq<Seq<char>>) -> Result<
        EmittedSpec,
        OpErrorSpec,
    > {
        match Self::spec_check(self.values()) {
            Some(e) => Err(e),
            None => emit_node(
                "TreeEnsembleRegressor"@,
                ML_DOMAIN_STR@,
                Arity::Exactly(1),
                Arity::Exactly(1),
                tree_regressor_first() + tree_regressor_second(),
                self.values(),
                inputs,
                outputs,
            ),
        }
    }

    /// The attribute values read from a node, as the regressor keeps them,
    /// or the first error.
    pub open spec fn spec_parse(n: NodeSpec) -> Result<Seq<Option<AttributeValueSpec>>, OpErrorSpec> {
        match parse_node_staged(
            "TreeEnsembleRegressor"@,
            ML_DOMAIN_STR@,
            Arity::Exactly(1),
            Arity::Exactly(1),
            tree_regressor_first(),
            |v: Seq<Option<AttributeValueSpec>>| Self::spec_nodes_step(v),
            tree_regressor_second(),
            n,
        ) {
            Err(e) => Err(e),
            Ok(vs) => match Self::spec_check(fill_regressor(vs)) {
                Some(e) => Err(e),
                None => Ok(fill_regressor(vs)),
            },
        }
    }

    fn check(&self) -> (r: Result<(), OpError>)
        ensures
            match Self::spec_check(self.values()) {
                Some(e) => r matches Err(x) && x.deep_view() == e,
                None => r is Ok,
            },
    {
        let op = "TreeEnsembleRegressor";
        proof {
            assert(self.values().subrange(4, 15) =~= self.nodes.values());
        }
        match self.nodes.check(op) {
            Err(e) => {
                return Err(e);
            },
            Ok(()) => {},
        }
        let n = self.target_ids.len();
        if n == 0 {
            return Err(OpError::MissingAttribute { op, attr: "target_ids" });
        }
        if self.target_nodeids.len() != n {
            return Err(target_error("target_nodeids"));
        }
        if self.target_treeids.len() != n {
            return Err(target_error("target_treeids"));
        }
        match &self.target_weights {
            Some(v) => {
                if v.len() != n {
                    return Err(target_error("target_weights"));
                }
            },
            None => {},
        }
        Ok(())
    }
}

fn target_error(attr: &'static str) -> (r: OpError)
    ensures
        target_len_error("TreeEnsembleRegressor"@, attr@) == Some(r.deep_view()),
{
    OpError::InvalidValue {
        op: "TreeEnsembleRegressor",
        attr: String::from_str(attr),
        detail: String::from_str("all target_* arrays must share the length of target_ids"),
    }
}

impl OnnxOp for TreeEnsembleRegressor {
    fn op_type() -> (r: &'static str)
        ensures
            r@ == "TreeEnsembleRegressor"@,
    {
        "TreeEnsembleRegressor"
    }

    fn domain() -> (r: &'static str)
        ensures
            r == ML_DOMAIN_STR,
    {
        ML_DOMAIN_STR
    }

    open spec fn recognizes(node: NodeSpec) -> bool {
        Self::spec_parse(node) is Ok
    }

    open spec fn op_name() -> Seq<char> {
        "TreeEnsembleRegressor"@
    }

    open spec fn emits(&self, inputs: Seq<Seq<char>>, outputs: Seq<Seq<char>>) -> Result<
        EmittedSpec,
        OpErrorSpec,
    > {
        self.spec_to_node(inputs, outputs)
    }

    fn to_node(&self, inputs: Vec<String>, outputs: Vec<String>) -> (r: Result<Emitted, OpError>)
        ensures
            match self.spec_to_node(inputs.deep_view(), outputs.deep_view()) {
                Ok(em) => r matches Ok(x) && x.deep_view() == em,
                Err(e) => r matches Err(x) && x.deep_view() == e,
            },
    {
        match self.check() {
            Err(e) => {
                return Err(e);
            },
            Ok(()) => {},
        }
        let mut vals: Vec<Option<AttributeValue>> = Vec::new();
        vals.push(put_string(&self.aggregate_function));
        vals.push(put_floats(&self.base_values));
        vals.push(put_tensor(&self.base_values_as_tensor));
        vals.push(put_int(self.n_targets));
        let ghost head = vals.deep_view();
        proof {
            assert(head =~= self.head_values());
        }
        self.nodes.put(&mut vals);
        let ghost mid = vals.deep_view();
        vals.push(put_string(&self.post_transform));
        vals.push(put_ints_vec(&self.target_ids));
        vals.push(put_ints_vec(&self.target_nodeids));
        vals.push(put_ints_vec(&self.target_treeids));
        vals.push(put_floats(&self.target_weights));
        vals.push(put_tensor(&self.target_weights_as_tensor));
        proof {
            assert(vals.deep_view() =~= mid + self.tail_values());
            assert(vals.deep_view() =~= self.values());
        }
        let a = tree_regressor_first_schema();
        let b = tree_regressor_second_schema();
        let fields = [
            a[0],
            a[1],
            a[2],
            a[3],
            a[4],
            a[5],
            a[6],
            a[7],
            a[8],
            a[9],
            a[10],
            a[11],
            a[12],
            a[13],
            a[14],
            b[0],
            b[1],
            b[2],
            b[3],
            b[4],
            b[5],
        ];
        proof {
            assert(fields@ =~= tree_regressor_first() + tree_regressor_second());
        }
        build_node(
            "TreeEnsembleRegressor",
            ML_DOMAIN_STR,
            Arity::Exactly(1),
            Arity::Exactly(1),
            &fields,
            vals,
            inputs,
            outputs,
        )
    }

    #[verifier::rlimit(80)]
    fn from_node(node: &Node) -> (r: Result<Self, OpError>)
        ensures
            r is Ok <==> Self::recognizes(node.deep_view()),
            match Self::spec_parse(node.deep_view()) {
                Ok(vs) => r matches Ok(x) && x.values() == vs,
                Err(e) => r matches Err(x) && x.deep_view() == e,
            },
    {
        let ghost n = node.deep_view();
        let mut table = match open_table(
            "TreeEnsembleRegressor",
            ML_DOMAIN_STR,
            Arity::Exactly(1),
            Arity::Exactly(1),
            node,
        ) {
            Ok(t) => t,
            Err(e) => {
                return Err(e);
            },
        };
        let v1 = match table.fields(&tree_regressor_first_schema()) {
            Ok(v) => v,
            Err(e) => {
                return Err(e);
            },
        };
        let ghost d1 = v1.deep_view();
        proof {
            lemma_parsed_well_typed("TreeEnsembleRegressor"@, n.attributes, tree_regressor_first());
            assert(tree_regressor_first().subrange(4, 15) =~= tree_nodes_fields());
            lemma_well_typed_part(tree_regressor_first(), d1, 4, tree_nodes_fields());
        }
        let nodes = TreeNodes::read(&v1, 4);
        match nodes.check("TreeEnsembleRegressor") {
            Err(e) => {
                return Err(e);
            },
            Ok(()) => {},
        }
        let ghost t1 = table.entries.deep_view();
        let v2 = match table.fields(&tree_regressor_second_schema()) {
            Ok(v) => v,
            Err(e) => {
                return Err(e);
            },
        };
        let ghost d2 = v2.deep_view();
        proof {
            lemma_parsed_well_typed("TreeEnsembleRegressor"@, t1, tree_regressor_second());
            let f = tree_regressor_first();
            let g = tree_regressor_second();
            assert(d1[0] == v1@[0].deep_view() && f[0].kind == AttrKind::Str);
            assert(d1[1] == v1@[1].deep_view() && f[1].kind == AttrKind::Floats);
            assert(d1[2] == v1@[2].deep_view() && f[2].kind == AttrKind::Tensor);
            assert(d1[3] == v1@[3].deep_view() && f[3].kind == AttrKind::Int);
            assert(d2[0] == v2@[0].deep_view() && g[0].kind == AttrKind::Str);
            assert(d2[1] == v2@[1].deep_view() && g[1].kind == AttrKind::Ints);
            assert(d2[2] == v2@[2].deep_view() && g[2].kind == AttrKind::Ints);
            assert(d2[3] == v2@[3].deep_view() && g[3].kind == AttrKind::Ints);
            assert(d2[4] == v2@[4].deep_view() && g[4].kind == AttrKind::Floats);
            assert(d2[5] == v2@[5].deep_view() && g[5].kind == AttrKind::Tensor);
        }
        match table.finish() {
            Err(e) => {
                return Err(e);
            },
            Ok(()) => {},
        }
        let target_ids = match get_ints(v2[1]) {
            Some(x) => x,
            None => Vec::new(),
        };
        let target_nodeids = match get_ints(v2[2]) {
            Some(x) => x,
            None => Vec::new(),
        };
        let target_treeids = match get_ints(v2[3]) {
            Some(x) => x,
            None => Vec::new(),
        };
        let r = TreeEnsembleRegressor {
            aggregate_function: get_string(v1[0]),
            base_values: get_floats(v1[1]),
            base_values_as_tensor: get_tensor(v1[2]),
            n_targets: get_int(v1[3]),
            nodes,
            post_transform: get_string(v2[0]),
            target_ids,
            target_nodeids,
            target_treeids,
            target_weights: get_floats(v2[4]),
            target_weights_as_tensor: get_tensor(v2[5]),
        };
        proof {
            let vs = d1 + d2;
            assert(vs.subrange(4, 15) =~= d1.subrange(4, 15));
            assert(r.values() =~= fill_regressor(vs));
        }
        match r.check() {
            Err(e) => Err(e),
            Ok(()) => Ok(r),
        }
    }
}

/// Reading back the node written for a tree ensemble regressor gives the
/// same regressor.
#[verifier::spinoff_prover]
#[verifier::rlimit(80)]
pub proof fn lemma_tree_regressor_roundtrip(
    op: TreeEnsembleRegressor,
    inputs: Seq<Seq<char>>,
    outputs: Seq<Seq<char>>,
)
    requires
        op.spec_to_node(inputs, outputs) is Ok,
    ensures
        TreeEnsembleRegressor::spec_parse(op.spec_to_node(inputs, outputs)->Ok_0.node) == Ok::<
            Seq<Option<AttributeValueSpec>>,
            OpErrorSpec,
        >(op.values()),
{
    let vals = op.values();
    let v1 = vals.subrange(0, 15);
    let v2 = vals.subrange(15, 21);
    let check = |v: Seq<Option<AttributeValueSpec>>| TreeEnsembleRegressor::spec_nodes_step(v);
    lemma_tree_regressor_fields_distinct();
    assert(TreeEnsembleRegressor::spec_check(vals) is None);
    assert(vals.subrange(4, 15) =~= op.nodes.values());
    assert(v1.subrange(4, 15) =~= op.nodes.values());
    assert(fill_nodes(op.nodes.values()) =~= op.nodes.values());
    assert(check(v1) is None);
    assert(fill_regressor(vals) =~= vals);
    assert(v1 + v2 =~= vals);
    assert(well_typed(tree_regressor_first(), v1)) by {
        let f = tree_regressor_first();
        assert forall|k: int| 0 <= k < f.len() implies match #[trigger] v1[k] {
            Some(x) => super::table::kind_matches(x, f[k].kind),
            None => !f[k].required,
        } by {
            assert(v1[k] == vals[k]);
        }
    }
    assert(well_typed(tree_regressor_second(), v2)) by {
        let f = tree_regressor_second();
        assert forall|k: int| 0 <= k < f.len() implies match #[trigger] v2[k] {
            Some(x) => super::table::kind_matches(x, f[k].kind),
            None => !f[k].required,
        } by {
            assert(v2[k] == vals[15 + k]);
        }
    }
    lemma_staged_roundtrip(
        "TreeEnsembleRegressor"@,
        ML_DOMAIN_STR@,
        Arity::Exactly(1),
        Arity::Exactly(1),
        tree_regressor_first(),
        check,
        tree_regressor_second(),
        v1,
        v2,
        inputs,
        outputs,
    );
}

impl ZipMap {
    /// Exactly one of the label lists must be set.
    pub open spec fn spec_check(vs: Seq<Option<AttributeValueSpec>>) -> Option<OpErrorSpec> {
        exactly_one_error(
            "ZipMap"@,
            vs[0] is Some,
            vs[1] is Some,
            "classlabels_*"@,
            "exactly one of classlabels_int64s and classlabels_strings must be set"@,
        )
    }

    fn check(&self) -> (r: Result<(), OpError>)
        ensures
            match Self::spec_check(self.values()) {
                Some(e) => r matches Err(x) && x.deep_view() == e,
                None => r is Ok,
            },
    {
        check_exactly_one(
            "ZipMap",
            self.classlabels_int64s.is_some(),
            self.classlabels_strings.is_some(),
            "classlabels_*",
            "exactly one of classlabels_int64s and classlabels_strings must be set",
        )
    }
}

/// Each position of the `TreeEnsembleClassifier` schema is the attribute named after the
/// field of the operator whose value it holds.
pub proof fn lemma_tree_classifier_slots(op: TreeEnsembleClassifier)
    ensures
        (tree_classifier_first() + tree_classifier_second()).len() == 21,
        op.values().len() == 21,
        slot((tree_classifier_first() + tree_classifier_second()), op.values(), 0, "base_values"@, floats_value(op.base_values)),
        slot((tree_classifier_first() + tree_classifier_second()), op.values(), 1, "base_values_as_tensor"@, tensor_value(op.base_values_as_tensor)),
        slot((tree_classifier_first() + tree_classifier_second()), op.values(), 2, "class_ids"@, Some(AttributeValueSpec::Ints(op.class_ids@))),
        slot((tree_classifier_first() + tree_classifier_second()), op.values(), 3, "class_nodeids"@, Some(AttributeValueSpec::Ints(op.class_nodeids@))),
        slot((tree_classifier_first() + tree_classifier_second()), op.values(), 4, "class_treeids"@, Some(AttributeValueSpec::Ints(op.class_treeids@))),
        slot((tree_classifier_first() + tree_classifier_second()), op.values(), 5, "class_weights"@, floats_value(op.class_weights)),
        slot((tree_classifier_first() + tree_classifier_second()), op.values(), 6, "class_weights_as_tensor"@, tensor_value(op.class_weights_as_tensor)),
        slot((tree_classifier_first() + tree_classifier_second()), op.values(), 7, "classlabels_int64s"@, ints_value(op.classlabels_int64s)),
        slot((tree_classifier_first() + tree_classifier_second()), op.values(), 8, "classlabels_strings"@, strings_value(op.classlabels_strings)),
        slot((tree_classifier_first() + tree_classifier_second()), op.values(), 9, "nodes_falsenodeids"@, Some(AttributeValueSpec::Ints(op.nodes.falsenodeids@))),
        slot((tree_classifier_first() + tree_classifier_second()), op.values(), 10, "nodes_featureids"@, Some(AttributeValueSpec::Ints(op.nodes.featureids@))),
        slot((tree_classifier_first() + tree_classifier_second()), op.values(), 11, "nodes_hitrates"@, floats_value(op.nodes.hitrates)),
        slot((tree_classifier_first() + tree_classifier_second()), op.values(), 12, "nodes_hitrates_as_tensor"@, tensor_value(op.nodes.hitrates_as_tensor)),
        slot((tree_classifier_first() + tree_classifier_second()), op.values(), 13, "nodes_missing_value_tracks_true"@, ints_value(op.nodes.missing_value_tracks_true)),
        slot((tree_classifier_first() + tree_classifier_second()), op.values(), 14, "nodes_modes"@, Some(AttributeValueSpec::Strings(op.nodes.modes.deep_view()))),
        slot((tree_classifier_first() + tree_classifier_second()), op.values(), 15, "nodes_nodeids"@, Some(AttributeValueSpec::Ints(op.nodes.nodeids@))),
        slot((tree_classifier_first() + tree_classifier_second()), op.values(), 16, "nodes_treeids"@, Some(AttributeValueSpec::Ints(op.nodes.treeids@))),
        slot((tree_classifier_first() + tree_classifier_second()), op.values(), 17, "nodes_truenodeids"@, Some(AttributeValueSpec::Ints(op.nodes.truenodeids@))),
        slot((tree_classifier_first() + tree_classifier_second()), op.values(), 18, "nodes_values"@, floats_value(op.nodes.values)),
        slot((tree_classifier_first() + tree_classifier_second()), op.values(), 19, "nodes_values_as_tensor"@, tensor_value(op.nodes.values_as_tensor)),
        slot((tree_classifier_first() + tree_classifier_second()), op.values(), 20, "post_transform"@, string_value(op.post_transform)),
{
}

/// Each position of the `TreeEnsembleRegressor` schema is the attribute named after the
/// field of the operator whose value it holds.
pub proof fn lemma_tree_regressor_slots(op: TreeEnsembleRegressor)
    ensures
        (tree_regressor_first() + tree_regressor_second()).len() == 21,
        op.values().len() == 21,
        slot((tree_regressor_first() + tree_regressor_second()), op.values(), 0, "aggregate_function"@, string_value(op.aggregate_function)),
        slot((tree_regressor_first() + tree_regressor_second()), op.values(), 1, "base_values"@, floats_value(op.base_values)),
        slot((tree_regressor_first() + tree_regressor_second()), op.values(), 2, "base_values_as_tensor"@, tensor_value(op.base_values_as_tensor)),
        slot((tree_regressor_first() + tree_regressor_second()), op.values(), 3, "n_targets"@, int_value(op.n_targets)),
        slot((tree_regressor_first() + tree_regressor_second()), op.values(), 4, "nodes_falsenodeids"@, Some(AttributeValueSpec::Ints(op.nodes.falsenodeids@))),
        slot((tree_regressor_first() + tree_regressor_second()), op.values(), 5, "nodes_featureids"@, Some(AttributeValueSpec::Ints(op.nodes.featureids@))),
        slot((tree_regressor_first() + tree_regressor_second()), op.values(), 6, "nodes_hitrates"@, floats_value(op.nodes.hitrates)),
        slot((tree_regressor_first() + tree_regressor_second()), op.values(), 7, "nodes_hitrates_as_tensor"@, tensor_value(op.nodes.hitrates_as_tensor)),
        slot((tree_regressor_first() + tree_regressor_second()), op.values(), 8, "nodes_missing_value_tracks_true"@, ints_value(op.nodes.missing_value_tracks_true)),
        slot((tree_regressor_first() + tree_regressor_second()), op.values(), 9, "nodes_modes"@, Some(AttributeValueSpec::Strings(op.nodes.modes.deep_view()))),
        slot((tree_regressor_first() + tree_regressor_second()), op.values(), 10, "nodes_nodeids"@, Some(AttributeValueSpec::Ints(op.nodes.nodeids@))),
        slot((tree_regressor_first() + tree_regressor_second()), op.values(), 11, "nodes_treeids"@, Some(AttributeValueSpec::Ints(op.nodes.treeids@))),
        slot((tree_regressor_first() + tree_regressor_second()), op.values(), 12, "nodes_truenodeids"@, Some(AttributeValueSpec::Ints(op.nodes.truenodeids@))),
        slot((tree_regressor_first() + tree_regressor_second()), op.values(), 13, "nodes_values"@, floats_value(op.nodes.values)),
        slot((tree_regressor_first() + tree_regressor_second()), op.values(), 14, "nodes_values_as_tensor"@, tensor_value(op.nodes.values_as_tensor)),
        slot((tree_regressor_first() + tree_regressor_second()), op.values(), 15, "post_transform"@, string_value(op.post_transform)),
        slot((tree_regressor_first() + tree_regressor_second()), op.values(), 16, "target_ids"@, Some(AttributeValueSpec::Ints(op.target_ids@))),
        slot((tree_regressor_first() + tree_regressor_second()), op.values(), 17, "target_nodeids"@, Some(AttributeValueSpec::Ints(op.target_nodeids@))),
        slot((tree_regressor_first() + tree_regressor_second()), op.values(), 18, "target_treeids"@, Some(AttributeValueSpec::Ints(op.target_treeids@))),
        slot((tree_regressor_first() + tree_regressor_second()), op.values(), 19, "target_weights"@, floats_value(op.target_weights)),
        slot((tree_regressor_first() + tree_regressor_second()), op.values(), 20, "target_weights_as_tensor"@, tensor_value(op.target_weights_as_tensor)),
{
}

/// Each position of the `ZipMap` schema is the attribute named after the
/// field of the operator whose value it holds.
pub proof fn lemma_zipmap_slots(op: ZipMap)
    ensures
        zipmap_fields().len() == 2,
        op.values().len() == 2,
        slot(zipmap_fields(), op.values(), 0, "classlabels_int64s"@, ints_value(op.classlabels_int64s)),
        slot(zipmap_fields(), op.values(), 1, "classlabels_strings"@, strings_value(op.classlabels_strings)),
{
}

} // verus!
