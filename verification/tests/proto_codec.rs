use serde_onnx::ir::{
    Attribute, AttributeValue, Dim, ElemType, ExternalData, FunctionRaw, Graph, Model, Node, OpsetId, Tensor,
    TensorData, TensorStorage, ValueInfo, ValueType, ML_DOMAIN,
};
use serde_onnx::proto::codec::decode_tensor;
use serde_onnx::proto::external::{check_external_location, location_check, PathPart, external_range, external_reference, with_external_bytes};
use serde_onnx::proto::model::{decode_model_proto, encode_model_proto};
use serde_onnx::proto::{
    supported_opset, GraphProto, ModelProto, ProtoCodecError, TensorProto, SUPPORTED_IR_VERSION,
    SUPPORTED_ML_OPSET, SUPPORTED_ONNX_OPSET,
};

fn s(v: &str) -> String {
    v.to_string()
}

fn bits(v: &[f32]) -> Vec<u32> {
    v.iter().map(|x| x.to_bits()).collect()
}

fn bits64(v: &[f64]) -> Vec<u64> {
    v.iter().map(|x| x.to_bits()).collect()
}

fn scaler_model() -> Model {
    let mut graph = Graph::new(s("main_graph"));
    graph.inputs.push(ValueInfo::new(
        s("x"),
        ValueType::tensor(ElemType::Float, Some(vec![Dim::Param(s("N")), Dim::Fixed(3)])),
    ));
    graph.initializers.push(Tensor::new(
        s("w"),
        ElemType::Float,
        vec![Dim::Fixed(3)],
        TensorData::F32(bits(&[1.5, 2.0, -0.5])),
    ));
    graph.nodes.push(Node::new(
        s("Scaler"),
        s(ML_DOMAIN),
        vec![s("x"), s("w")],
        vec![s("y")],
        vec![
            Attribute::floats(s("scale"), bits(&[2.0, 2.0, 2.0])),
            Attribute::int64(s("axis"), 1),
        ],
    ));
    graph.outputs.push(ValueInfo::new(
        s("y"),
        ValueType::tensor(ElemType::Float, Some(vec![Dim::Param(s("N")), Dim::Fixed(3)])),
    ));
    Model::new(
        graph,
        vec![
            OpsetId { domain: String::new(), version: 21 },
            OpsetId { domain: s(ML_DOMAIN), version: 5 },
        ],
    )
}

fn round_trip(model: &Model) -> Result<Model, ProtoCodecError> {
    decode_model_proto(&encode_model_proto(model))
}

#[test]
fn round_trip_scaler_model_is_semantically_identical() {
    let model = scaler_model();
    let back = round_trip(&model).expect("decode must succeed");
    assert_eq!(back, model);

    let graph = &back.graph;
    assert_eq!(graph.name, "main_graph");
    assert_eq!(graph.nodes.len(), 1);
    let node = &graph.nodes[0];
    assert_eq!(node.op_type, "Scaler");
    assert_eq!(node.domain, ML_DOMAIN);
    assert_eq!(node.inputs, vec![s("x"), s("w")]);
    assert_eq!(node.outputs, vec![s("y")]);
    assert_eq!(node.attr("axis").map(|a| &a.value), Some(&AttributeValue::Int(1)));

    let init = graph.initializer("w").unwrap();
    assert_eq!(init.data().unwrap(), &TensorData::F32(bits(&[1.5, 2.0, -0.5])));
    assert_eq!(init.shape, vec![Dim::Fixed(3)]);

    let input = &graph.inputs[0];
    match input.value_type.as_ref().unwrap() {
        ValueType::Tensor(t) => {
            assert_eq!(t.elem, ElemType::Float);
            assert_eq!(t.shape.as_ref().unwrap(), &vec![Dim::Param(s("N")), Dim::Fixed(3)]);
        }
        other => panic!("expected tensor type, got {other:?}"),
    }
}

#[test]
fn round_trip_preserves_strings_and_int64_attr() {
    let mut graph = Graph::new(s("strings_graph"));
    graph.initializers.push(Tensor::new(
        s("labels"),
        ElemType::String,
        vec![Dim::Fixed(2)],
        TensorData::String(vec![s("alpha"), s("beta")]),
    ));
    graph.nodes.push(Node::new(
        s("Identity"),
        s(""),
        vec![s("labels")],
        vec![s("out")],
        vec![Attribute::ints(s("axes"), vec![0, 1, 2])],
    ));
    graph.outputs.push(ValueInfo::new(
        s("out"),
        ValueType::tensor(ElemType::String, Some(vec![Dim::Fixed(2)])),
    ));
    let model = Model::new(graph, vec![OpsetId { domain: String::new(), version: 21 }]);
    let back = round_trip(&model).expect("decode");
    assert_eq!(back, model);
    assert_eq!(
        back.graph.initializer("labels").unwrap().data().unwrap(),
        &TensorData::String(vec![s("alpha"), s("beta")])
    );
}

#[test]
fn round_trip_f16_tensor_keeps_bit_precision() {
    let bits: Vec<u16> = [1.5f32, -2.25, 0.0, f32::INFINITY]
        .iter()
        .map(|&v| half::f16::from_f32(v).to_bits())
        .collect();
    let mut graph = Graph::new(s("f16_graph"));
    graph.initializers.push(Tensor::new(
        s("h"),
        ElemType::Float16,
        vec![Dim::Fixed(4)],
        TensorData::F16(bits.clone()),
    ));
    graph.nodes.push(Node::new(s("Identity"), s(""), vec![s("h")], vec![s("y")], vec![]));
    graph.outputs.push(ValueInfo::new(
        s("h"),
        ValueType::tensor(ElemType::Float16, Some(vec![Dim::Fixed(4)])),
    ));
    let model = Model::new(graph, vec![OpsetId { domain: String::new(), version: 21 }]);
    let back = round_trip(&model).expect("decode");
    assert_eq!(back, model);
    assert_eq!(back.graph.initializer("h").unwrap().f16_bits(), Some(bits.as_slice()));
}

fn blank_tensor(name: &str, data_type: i32) -> TensorProto {
    TensorProto {
        dims: Vec::new(),
        data_type,
        float_data: Vec::new(),
        int32_data: Vec::new(),
        string_data: Vec::new(),
        int64_data: Vec::new(),
        name: s(name),
        doc_string: String::new(),
        raw_data: Vec::new(),
        external_data: Vec::new(),
        data_location: 0,
        double_data: Vec::new(),
        uint64_data: Vec::new(),
    }
}

fn blank_graph(name: &str) -> GraphProto {
    GraphProto {
        node: Vec::new(),
        name: s(name),
        initializer: Vec::new(),
        sparse_initializer: Vec::new(),
        doc_string: String::new(),
        input: Vec::new(),
        output: Vec::new(),
        value_info: Vec::new(),
        quantization_annotation: Vec::new(),
        metadata_props: Vec::new(),
    }
}

fn model_proto(ir_version: i64, graph: Option<GraphProto>) -> ModelProto {
    ModelProto {
        ir_version,
        opset_import: Vec::new(),
        producer_name: String::new(),
        producer_version: String::new(),
        domain: String::new(),
        model_version: 0,
        doc_string: String::new(),
        graph,
        metadata_props: Vec::new(),
        training_info: Vec::new(),
        functions: Vec::new(),
        configuration: Vec::new(),
    }
}

#[test]
fn tensor_size_divergence_is_reported() {
    let mut graph = blank_graph("g");
    let mut t = blank_tensor("t", ElemType::Float.disc());
    t.dims = vec![10];
    t.raw_data = vec![0u8; 37];
    graph.initializer.push(t);
    match decode_model_proto(&model_proto(10, Some(graph))) {
        Err(ProtoCodecError::TensorSizeMismatch { name, expected, got }) => {
            assert_eq!(name, "t");
            assert_eq!((expected, got), (10, 37));
        }
        other => panic!("expected TensorSizeMismatch, got {other:?}"),
    }

    let mut graph = blank_graph("g");
    let mut t = blank_tensor("t", ElemType::Double.disc());
    t.dims = vec![2, 2];
    t.double_data = bits64(&[1.0]);
    graph.initializer.push(t);
    match decode_model_proto(&model_proto(10, Some(graph))) {
        Err(ProtoCodecError::TensorSizeMismatch { expected, got, .. }) => {
            assert_eq!((expected, got), (4, 1));
        }
        other => panic!("expected TensorSizeMismatch, got {other:?}"),
    }
}

#[test]
fn unsupported_ir_and_opset_versions_error_with_versions_named() {
    let mut model = scaler_model();
    model.ir_version = 11;
    match round_trip(&model) {
        Err(ProtoCodecError::UnsupportedIrVersion { declared, supported }) => {
            assert_eq!((declared, supported), (11, 10));
        }
        other => panic!("expected UnsupportedIrVersion, got {other:?}"),
    }

    let mut model = scaler_model();
    model.opset_import[0].version = 26;
    match round_trip(&model) {
        Err(ProtoCodecError::UnsupportedOpsetVersion { domain, declared, supported }) => {
            assert_eq!(domain, "ai.onnx");
            assert_eq!((declared, supported), (26, 25));
        }
        other => panic!("expected UnsupportedOpsetVersion, got {other:?}"),
    }

    let mut model = scaler_model();
    model.opset_import[1].version = 6;
    match round_trip(&model) {
        Err(ProtoCodecError::UnsupportedOpsetVersion { domain, declared, supported }) => {
            assert_eq!(domain, "ai.onnx.ml");
            assert_eq!((declared, supported), (6, 5));
        }
        other => panic!("expected UnsupportedOpsetVersion, got {other:?}"),
    }
}

#[test]
fn unknown_opset_domain_is_allowed() {
    let mut graph = Graph::new(s("custom"));
    graph.outputs.push(ValueInfo::new(
        s("y"),
        ValueType::tensor(ElemType::Float, Some(vec![Dim::Fixed(1)])),
    ));
    let model =
        Model::new(graph, vec![OpsetId { domain: s("com.example.custom"), version: 999 }]);
    let back = round_trip(&model).expect("unknown domains stay raw and allowed");
    assert_eq!(back, model);
}

#[test]
fn external_reference_round_trips_and_reads_from_bytes() {
    let mut graph = Graph::new(s("ext_graph"));
    graph.initializers.push(Tensor::external(
        s("w"),
        ElemType::Double,
        vec![Dim::Fixed(2)],
        ExternalData { location: s("weights.bin"), offset: Some(0), length: Some(16), checksum: None },
    ));
    graph.nodes.push(Node::new(s("Identity"), s(""), vec![s("w")], vec![s("y")], vec![]));
    graph.outputs.push(ValueInfo::new(
        s("w"),
        ValueType::tensor(ElemType::Double, Some(vec![Dim::Fixed(2)])),
    ));
    let model = Model::new(graph, vec![OpsetId { domain: String::new(), version: 21 }]);
    let back = round_trip(&model).expect("decode");
    assert_eq!(back, model);
    let tensor = &back.graph.initializers[0];
    assert!(matches!(tensor.data, TensorStorage::External(_)));
    let reference = external_reference(tensor).expect("external");
    let file: Vec<u8> = [1.0f64, 2.5].iter().flat_map(|v| v.to_le_bytes()).collect();
    let (offset, len) = external_range(&tensor.name, reference, file.len() as u64).expect("range");
    assert_eq!((offset, len), (0, 16));
    let loaded =
        with_external_bytes(tensor, &file[offset as usize..(offset + len) as usize]).expect("read");
    assert_eq!(loaded.data().unwrap(), &TensorData::F64(bits64(&[1.0, 2.5])));
}

#[test]
fn external_range_with_offset_and_defaults() {
    let with_offset =
        ExternalData { location: s("blob.bin"), offset: Some(4096), length: Some(16), checksum: None };
    assert_eq!(external_range("w", &with_offset, 4112), Ok((4096, 16)));
    let defaults = ExternalData { location: s("blob.bin"), offset: None, length: None, checksum: None };
    assert_eq!(external_range("w", &defaults, 24), Ok((0, 24)));
    let only_offset =
        ExternalData { location: s("blob.bin"), offset: Some(8), length: None, checksum: None };
    assert_eq!(external_range("w", &only_offset, 24), Ok((8, 16)));
}

#[test]
fn external_range_rejects_reads_past_the_file() {
    let past = ExternalData { location: s("b"), offset: Some(30), length: None, checksum: None };
    assert_eq!(
        external_range("w", &past, 24),
        Err(ProtoCodecError::InvalidExternalData {
            name: s("w"),
            detail: s("offset 30 beyond file length 24"),
        })
    );
    let long = ExternalData { location: s("b"), offset: Some(8), length: Some(20), checksum: None };
    assert_eq!(
        external_range("w", &long, 24),
        Err(ProtoCodecError::InvalidExternalData {
            name: s("w"),
            detail: s("length 20 exceeds remaining file bytes 16"),
        })
    );
}

#[test]
fn inline_tensor_has_no_external_reference() {
    let t = Tensor::new(s("t"), ElemType::Int64, vec![], TensorData::I64(vec![1]));
    assert_eq!(
        external_reference(&t),
        Err(ProtoCodecError::InvalidExternalData {
            name: s("t"),
            detail: s("tensor does not reference external data"),
        })
    );
}

#[test]
fn supported_opsets_by_domain() {
    assert_eq!(supported_opset(""), Some(SUPPORTED_ONNX_OPSET));
    assert_eq!(supported_opset("ai.onnx"), Some(25));
    assert_eq!(supported_opset("ai.onnx.ml"), Some(SUPPORTED_ML_OPSET));
    assert_eq!(supported_opset("com.example"), None);
    assert_eq!(SUPPORTED_IR_VERSION, 10);
}

#[test]
fn model_without_graph_is_rejected() {
    assert_eq!(
        decode_model_proto(&model_proto(10, None)),
        Err(ProtoCodecError::Protobuf(s("ModelProto without graph")))
    );
}

#[test]
fn unknown_data_type_is_reported() {
    let t = blank_tensor("t", 99);
    assert_eq!(
        decode_tensor(&t),
        Err(ProtoCodecError::TensorDataMismatch {
            name: s("t"),
            detail: s("unknown element type discriminant 99"),
        })
    );
}

#[test]
fn empty_node_name_reads_as_absent_and_int32_types_round_trip() {
    let mut graph = Graph::new(s("g"));
    graph.initializers.push(Tensor::new(
        s("small"),
        ElemType::Int8,
        vec![Dim::Fixed(3)],
        TensorData::I8(vec![-128, 0, 127]),
    ));
    graph.initializers.push(Tensor::new(
        s("flags"),
        ElemType::Bool,
        vec![Dim::Fixed(2)],
        TensorData::Bool(vec![true, false]),
    ));
    let mut node = Node::new(s("Identity"), s(""), vec![s("small")], vec![s("y")], vec![]);
    node.name = Some(s("n0"));
    graph.nodes.push(node);
    let model = Model::new(graph, vec![OpsetId { domain: String::new(), version: 21 }]);
    assert_eq!(round_trip(&model), Ok(model.clone()));

    let mut unnamed = scaler_model();
    unnamed.graph.nodes[0].name = Some(String::new());
    let back = round_trip(&unnamed).expect("decode");
    assert_eq!(back.graph.nodes[0].name, None);
}

#[test]
fn zero_valued_attributes_and_documentation_round_trip() {
    let mut model = scaler_model();
    let mut axis = Attribute::int64(s("axis"), 0);
    axis.doc_string = s("the first axis");
    model.graph.nodes[0].attributes = vec![
        Attribute::float(s("epsilon"), 0.0f32.to_bits()),
        axis,
        Attribute::new(s("empty"), AttributeValue::Ints(vec![])),
        Attribute::new(
            s("kind"),
            AttributeValue::TypeProto(Box::new(ValueType::tensor(ElemType::Float, Some(vec![Dim::Fixed(3)])))),
        ),
    ];
    assert_eq!(round_trip(&model), Ok(model.clone()));
}

#[test]
fn untyped_attribute_without_value_is_refused() {
    let mut model = scaler_model();
    model.graph.nodes[0].attributes = vec![Attribute::float(s("epsilon"), 0.0f32.to_bits())];
    let mut proto = encode_model_proto(&model);
    proto.graph.as_mut().unwrap().node[0].attribute[0].attr_type = 0;
    match decode_model_proto(&proto) {
        Err(ProtoCodecError::Protobuf(message)) => {
            assert_eq!(message, "attribute \"epsilon\" carries no value");
        }
        other => panic!("expected a Protobuf error, got {other:?}"),
    }
}

#[test]
fn external_entries_round_trip_and_reject_bad_numbers() {
    let e = ExternalData { location: s("w.bin"), offset: Some(12), length: None, checksum: Some(s("abc")) };
    let entries = e.to_entries();
    assert_eq!(
        entries,
        vec![(s("location"), s("w.bin")), (s("offset"), s("12")), (s("checksum"), s("abc"))]
    );
    assert_eq!(ExternalData::from_entries(&entries), Ok(e));
    assert_eq!(
        ExternalData::from_entries(&[(s("location"), s("w.bin")), (s("offset"), s("x"))]),
        Err(serde_onnx::ir::TensorError::InvalidExternalData(s("non-numeric offset \"x\"")))
    );
    assert_eq!(
        ExternalData::from_entries(&[(s("offset"), s("4"))]),
        Err(serde_onnx::ir::TensorError::InvalidExternalData(s("external_data without location key")))
    );
}

#[test]
fn invalid_utf8_strings_decode_with_replacement() {
    let mut t = blank_tensor("s", ElemType::String.disc());
    t.string_data = vec![b"ok".to_vec(), vec![0x66, 0xff, 0x67]];
    let tensor = decode_tensor(&t).expect("string tensor");
    assert_eq!(tensor.data().unwrap(), &TensorData::String(vec![s("ok"), s("f\u{FFFD}g")]));
}

fn external_detail(r: Result<(), ProtoCodecError>) -> (String, String) {
    match r {
        Err(ProtoCodecError::InvalidExternalData { name, detail }) => (name, detail),
        other => panic!("unexpected {other:?}"),
    }
}

#[test]
fn external_location_must_be_relative_plain_names() {
    assert_eq!(check_external_location("weights/w.bin"), Ok(()));
    assert_eq!(check_external_location("w.bin"), Ok(()));
    let (name, detail) = external_detail(check_external_location(""));
    assert_eq!(name, "");
    assert_eq!(detail, "empty external data location");
    let (name, detail) = external_detail(check_external_location("../outside.bin"));
    assert_eq!(name, "../outside.bin");
    assert_eq!(detail, "external data location contains unsafe component ParentDir");
    let (_, detail) = external_detail(check_external_location("/etc/passwd"));
    assert_eq!(detail, "external data location must be relative");
    let (_, detail) = external_detail(check_external_location("weights/../../w.bin"));
    assert_eq!(detail, "external data location contains unsafe component ParentDir");
}

#[test]
fn location_check_reports_first_unsafe_component() {
    let parts = vec![PathPart::Normal, PathPart::CurDir, PathPart::ParentDir];
    let (name, detail) = external_detail(location_check("a/./..", false, &parts));
    assert_eq!(name, "a/./..");
    assert_eq!(detail, "external data location contains unsafe component CurDir");
    assert_eq!(location_check("a/b", false, &vec![PathPart::Normal, PathPart::Normal]), Ok(()));
    let (_, detail) = external_detail(location_check("a", true, &vec![PathPart::Normal]));
    assert_eq!(detail, "external data location must be relative");
    let (_, detail) = external_detail(location_check("/x", false, &vec![PathPart::RootDir, PathPart::Normal]));
    assert_eq!(detail, "external data location contains unsafe component RootDir");
}

#[test]
fn int32_carried_data_is_size_checked() {
    let mut t = blank_tensor("t", ElemType::Int32.disc());
    t.dims = vec![2, 2];
    t.int32_data = vec![1];
    assert_eq!(
        decode_tensor(&t).unwrap_err(),
        ProtoCodecError::TensorSizeMismatch { name: "t".to_string(), expected: 4, got: 1 }
    );
    t.int32_data = vec![1, 2, 3, 4];
    assert_eq!(decode_tensor(&t).unwrap().data(), Some(&TensorData::I32(vec![1, 2, 3, 4])));
}

#[test]
fn complex_data_counts_pairs_of_numbers() {
    let mut t = blank_tensor("c", ElemType::Complex64.disc());
    t.dims = vec![1];
    t.float_data = vec![1, 2];
    assert_eq!(decode_tensor(&t).unwrap().data(), Some(&TensorData::Complex64(vec![1, 2])));
    t.float_data = vec![1, 2, 3];
    assert!(matches!(decode_tensor(&t), Err(ProtoCodecError::TensorDataMismatch { .. })));
    t.float_data = vec![1, 2, 3, 4];
    assert_eq!(
        decode_tensor(&t).unwrap_err(),
        ProtoCodecError::TensorSizeMismatch { name: "c".to_string(), expected: 1, got: 2 }
    );
}

#[test]
fn function_bodies_travel_as_bytes() {
    let mut model = Model::new(Graph::new("g".to_string()), vec![]);
    model.functions_raw.push(FunctionRaw {
        domain: "d".to_string(),
        name: "f".to_string(),
        overload: String::new(),
        proto: vec![0x0A, 0x01, 0x66],
    });
    let back = decode_model_proto(&encode_model_proto(&model)).expect("reads back");
    assert_eq!(back.functions_raw, model.functions_raw);
}

#[test]
fn typed_attribute_with_float_and_int_set_conflicts() {
    let mut model = scaler_model();
    model.graph.nodes[0].attributes = vec![Attribute::int64(s("axis"), 3)];
    let mut proto = encode_model_proto(&model);
    proto.graph.as_mut().unwrap().node[0].attribute[0].f = 1.5f32.to_bits();
    assert_eq!(
        decode_model_proto(&proto),
        Err(ProtoCodecError::Attribute(serde_onnx::ir::AttributeError::ConflictingValues {
            name: s("axis")
        }))
    );
}

#[test]
fn external_entries_last_entry_wins_and_numbers_must_parse() {
    let entries = vec![
        (s("location"), s("a.bin")),
        (s("offset"), s("4")),
        (s("note"), s("ignored")),
        (s("location"), s("b.bin")),
        (s("offset"), s("8")),
    ];
    assert_eq!(
        ExternalData::from_entries(&entries),
        Ok(ExternalData { location: s("b.bin"), offset: Some(8), length: None, checksum: None })
    );
    let bad = vec![(s("location"), s("w.bin")), (s("length"), s("abc")), (s("length"), s("3"))];
    assert!(ExternalData::from_entries(&bad).is_err());
    assert!(ExternalData::from_entries(&[(s("offset"), s("1"))]).is_err());
}
