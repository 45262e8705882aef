use serde_onnx::ir::validate::{validate_graph, ValidationError};
use serde_onnx::ir::{
    attribute_from_fields, Attribute, AttributeError, AttributeFields, AttributeValue, Dim,
    ElemType, FunctionRaw, Graph, GraphRef, Model, Node, OpsetId, SparseTensorRaw, Tensor,
    TensorData, TrainingInfoRaw, ValueInfo, ValueType, DEFAULT_DOMAIN, ML_DOMAIN,
};

fn s(v: &str) -> String {
    v.to_string()
}

fn bits(v: &[f32]) -> Vec<u32> {
    v.iter().map(|x| x.to_bits()).collect()
}

fn fake_graph_proto(seed: u8) -> Vec<u8> {
    vec![seed, seed.wrapping_add(1), seed.wrapping_add(2), 0xAB, 0xCD]
}

#[test]
fn minimal_model_construction() {
    let mut graph = Graph::new(s("main"));
    graph.inputs.push(ValueInfo::new(
        s("x"),
        ValueType::tensor(ElemType::Float, Some(vec![Dim::Param(s("N")), Dim::Fixed(3)])),
    ));
    let init =
        Tensor::new(s("scale"), ElemType::Float, vec![Dim::Fixed(3)], TensorData::F32(bits(&[1.0, 2.0, 3.0])));
    graph.initializers.push(init);
    graph.nodes.push(Node::new(
        s("Scaler"),
        s(ML_DOMAIN),
        vec![s("x")],
        vec![s("y")],
        vec![Attribute::floats(s("scale"), bits(&[1.0, 1.0, 1.0]))],
    ));
    graph.outputs.push(ValueInfo::new(
        s("y"),
        ValueType::tensor(ElemType::Float, Some(vec![Dim::Param(s("N")), Dim::Fixed(3)])),
    ));

    let model = Model::new(
        graph,
        vec![
            OpsetId { domain: String::new(), version: 21 },
            OpsetId { domain: s(ML_DOMAIN), version: 5 },
        ],
    );

    assert_eq!(model.graph.name, "main");
    assert_eq!(model.graph.nodes.len(), 1);
    assert_eq!(model.graph.initializer("scale").unwrap().name, "scale");
    assert_eq!(model.opset(ML_DOMAIN), Some(5));
    let out = &model.graph.outputs[0];
    match out.value_type.as_ref().unwrap() {
        ValueType::Tensor(t) => {
            assert_eq!(t.elem, ElemType::Float);
            assert_eq!(t.shape.as_ref().unwrap()[1], Dim::Fixed(3));
        }
        other => panic!("expected tensor type, got {other:?}"),
    }
}

#[test]
fn model_preserves_unsupported_raw_data() {
    let graph_proto = fake_graph_proto(0x10);
    let function_proto = fake_graph_proto(0x20);
    let training_proto = fake_graph_proto(0x30);
    let sparse_proto = fake_graph_proto(0x40);

    let subgraph_attr =
        Attribute::graph(s("body"), GraphRef { name: s("loop_body"), proto: graph_proto.clone() });

    let mut graph = Graph::new(s("main"));
    graph.nodes.push(Node::new(
        s("Loop"),
        s(DEFAULT_DOMAIN),
        vec![s("trip")],
        vec![s("out")],
        vec![subgraph_attr],
    ));
    graph.sparse_initializers_raw.push(SparseTensorRaw { name: s("sparse_w"), proto: sparse_proto.clone() });

    let mut model = Model::new(graph, vec![OpsetId { domain: String::new(), version: 21 }]);
    model.functions_raw.push(FunctionRaw {
        domain: s("com.example"),
        name: s("MyFn"),
        overload: String::new(),
        proto: function_proto.clone(),
    });
    model.training_info_raw.push(TrainingInfoRaw { proto: training_proto.clone() });

    let cloned = model.clone();
    assert_eq!(cloned, model);

    let attr = cloned.graph.nodes[0].attr("body").unwrap();
    match &attr.value {
        AttributeValue::Graph(g) => assert_eq!(g.proto, graph_proto),
        other => panic!("expected graph ref, got {other:?}"),
    }
    assert_eq!(cloned.functions_raw[0].proto, function_proto);
    assert_eq!(cloned.training_info_raw[0].proto, training_proto);
    assert_eq!(cloned.graph.sparse_initializers_raw[0].proto, sparse_proto);
}

#[test]
fn node_optional_and_variadic_positions() {
    let mut node = Node::new(
        s("Concat"),
        s(DEFAULT_DOMAIN),
        vec![s("a"), String::new()],
        vec![s("c")],
        vec![Attribute::int64(s("axis"), 0)],
    );
    node.name = Some(s("concat_0"));
    assert_eq!(node.inputs[1], "");
    assert_eq!(node.name.as_deref(), Some("concat_0"));
    node.inputs.push(s("b"));
    assert_eq!(node.inputs.len(), 3);
}

fn vector(n: i64) -> ValueType {
    ValueType::tensor(ElemType::Float, Some(vec![Dim::Fixed(n)]))
}

#[test]
fn ssa_duplicate_output_rejected() {
    let mut graph = Graph::new(s("dup"));
    graph.inputs.push(ValueInfo::new(s("x"), vector(2)));
    graph.nodes.push(Node::new(s("Identity"), s(DEFAULT_DOMAIN), vec![s("x")], vec![s("y")], vec![]));
    graph.nodes.push(Node::new(s("Identity"), s(DEFAULT_DOMAIN), vec![s("x")], vec![s("y")], vec![]));
    graph.outputs.push(ValueInfo::new(s("y"), vector(2)));
    let report = validate_graph(&graph);
    assert!(report
        .errors
        .iter()
        .any(|e| matches!(e, ValidationError::DuplicateOutput { name, .. } if name == "y")));
}

#[test]
fn undefined_value_reference_detected() {
    let mut graph = Graph::new(s("undef"));
    graph.inputs.push(ValueInfo::new(s("x"), vector(2)));
    graph.nodes.push(Node::new(s("Identity"), s(DEFAULT_DOMAIN), vec![s("ghost")], vec![s("y")], vec![]));
    graph.outputs.push(ValueInfo::new(s("y"), vector(2)));
    let report = validate_graph(&graph);
    assert!(report
        .errors
        .iter()
        .any(|e| matches!(e, ValidationError::UndefinedValue { name, .. } if name == "ghost")));
}

#[test]
fn cycle_detected_via_references() {
    let mut graph = Graph::new(s("cyclic"));
    graph.nodes.push(Node::new(s("Identity"), s(DEFAULT_DOMAIN), vec![s("b")], vec![s("a")], vec![]));
    graph.nodes.push(Node::new(s("Identity"), s(DEFAULT_DOMAIN), vec![s("a")], vec![s("b")], vec![]));
    graph.outputs.push(ValueInfo::new(s("a"), vector(1)));
    let report = validate_graph(&graph);
    assert!(report.errors.iter().any(|e| matches!(e, ValidationError::Cycle { .. })));
}

#[test]
fn well_formed_graph_passes_validation() {
    let mut graph = Graph::new(s("ok"));
    graph.inputs.push(ValueInfo::new(s("x"), vector(2)));
    graph.initializers.push(Tensor::new(
        s("w"),
        ElemType::Float,
        vec![Dim::Fixed(2)],
        TensorData::F32(bits(&[1.0, 2.0])),
    ));
    graph.nodes.push(Node::new(
        s("Add"),
        s(DEFAULT_DOMAIN),
        vec![s("x"), s("w")],
        vec![s("y")],
        vec![],
    ));
    graph.outputs.push(ValueInfo::new(s("y"), vector(2)));
    let report = validate_graph(&graph);
    assert!(report.is_ok(), "unexpected errors: {:?}", report.errors);
}

#[test]
fn missing_shape_on_main_io_reported() {
    let mut graph = Graph::new(s("no_shape"));
    graph.inputs.push(ValueInfo::new(s("x"), ValueType::tensor(ElemType::Float, None)));
    graph.outputs.push(ValueInfo { name: s("y"), value_type: None, doc_string: String::new() });
    let report = validate_graph(&graph);
    assert_eq!(
        report.errors.iter().filter(|e| matches!(e, ValidationError::MissingShape { .. })).count(),
        2
    );
}

fn no_fields() -> AttributeFields {
    AttributeFields {
        float: None,
        int: None,
        string_bytes: None,
        tensor: None,
        graph: None,
        floats: None,
        ints: None,
        strings: None,
        tensors: None,
        graphs: None,
    }
}

#[test]
fn conflicting_attribute_values_rejected() {
    let attr = attribute_from_fields(
        s("both"),
        AttributeFields { float: Some(1.0f32.to_bits()), int: Some(7), ..no_fields() },
    );
    assert!(matches!(attr, Err(AttributeError::ConflictingValues { .. })));

    let single = attribute_from_fields(s("one"), AttributeFields { int: Some(7), ..no_fields() });
    assert!(matches!(single, Ok(a) if a.value == AttributeValue::Int(7)));
}

#[test]
fn optional_empty_string_input_is_absent_position() {
    let mut graph = Graph::new(s("optional"));
    graph.inputs.push(ValueInfo::new(s("x"), vector(4)));
    let mut node = Node::new(s("Sum"), s(DEFAULT_DOMAIN), vec![s("x"), String::new()], vec![s("y")], vec![]);
    node.outputs.push(String::new());
    graph.nodes.push(node);
    graph.outputs.push(ValueInfo::new(s("y"), vector(4)));
    let report = validate_graph(&graph);
    assert!(report.is_ok(), "empty-string optional slots must not error: {:?}", report.errors);
}

#[test]
fn attribute_fields_without_value_or_with_bad_text() {
    assert_eq!(
        attribute_from_fields(s("none"), no_fields()),
        Err(AttributeError::NoValue { name: s("none") })
    );
    assert_eq!(
        attribute_from_fields(s("bad"), AttributeFields { string_bytes: Some(vec![0xff, 0xfe]), ..no_fields() }),
        Err(AttributeError::InvalidUtf8String(s("bad")))
    );
    let ok = attribute_from_fields(s("text"), AttributeFields { string_bytes: Some(b"hi".to_vec()), ..no_fields() })
        .expect("valid text");
    assert_eq!(ok.value, AttributeValue::String(s("hi")));
}

#[test]
fn attr_mut_changes_first_attribute_with_the_name() {
    let mut node = Node::new(
        s("Add"),
        s(DEFAULT_DOMAIN),
        vec![s("a"), s("b")],
        vec![s("c")],
        vec![Attribute::int64(s("axis"), 1), Attribute::int64(s("axis"), 2)],
    );
    if let Some(a) = node.attr_mut("axis") {
        a.value = AttributeValue::Int(7);
    }
    assert_eq!(node.attributes[0].value, AttributeValue::Int(7));
    assert_eq!(node.attributes[1].value, AttributeValue::Int(2));
    assert!(node.attr_mut("missing").is_none());
    assert_eq!(node.attributes.len(), 2);
}

#[test]
fn node_redefining_graph_input_rejected() {
    let mut graph = Graph::new(s("redef"));
    graph.inputs.push(ValueInfo::new(s("x"), vector(2)));
    graph.nodes.push(Node::new(s("Identity"), s(DEFAULT_DOMAIN), vec![s("x")], vec![s("x")], vec![]));
    graph.outputs.push(ValueInfo::new(s("x"), vector(2)));
    let report = validate_graph(&graph);
    assert_eq!(
        report.errors,
        vec![ValidationError::DuplicateOutput { node_index: 0, name: s("x") }]
    );
}

#[test]
fn undefined_graph_output_reported() {
    let mut graph = Graph::new(s("dangling_output"));
    graph.inputs.push(ValueInfo::new(s("x"), vector(2)));
    graph.nodes.push(Node::new(s("Identity"), s(DEFAULT_DOMAIN), vec![s("x")], vec![s("y")], vec![]));
    graph.outputs.push(ValueInfo::new(s("z"), vector(2)));
    let report = validate_graph(&graph);
    assert_eq!(report.errors, vec![ValidationError::UndefinedGraphOutput { name: s("z") }]);
    assert_eq!(
        report.errors[0].message(),
        "graph output \"z\" is not defined by an input, an initializer or a node"
    );
}

#[test]
fn reported_cycle_follows_depth_first_search_in_node_order() {
    let mut graph = Graph::new(s("cyclic"));
    graph.nodes.push(Node::new(s("Identity"), s(DEFAULT_DOMAIN), vec![s("b")], vec![s("a")], vec![]));
    graph.nodes.push(Node::new(s("Identity"), s(DEFAULT_DOMAIN), vec![s("a")], vec![s("b")], vec![]));
    graph.outputs.push(ValueInfo::new(s("a"), vector(1)));
    let report = validate_graph(&graph);
    let paths: Vec<&Vec<String>> = report
        .errors
        .iter()
        .filter_map(|e| match e {
            ValidationError::Cycle { path } => Some(path),
            _ => None,
        })
        .collect();
    assert_eq!(paths, vec![&vec![s("Identity(a)"), s("Identity(b)"), s("Identity(a)")]]);
}
