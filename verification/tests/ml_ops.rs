use serde_onnx::ir::{
    Attribute, AttributeValue, Dim, ElemType, Node, NodeDeviceConfiguration, Tensor, TensorData,
    ML_DOMAIN,
};
use serde_onnx::ml::{
    make_node_payload, Cast, ClassLabels, Concat, DictVectorizer, FeatureVectorizer, Gather,
    Identity, Imputer, LabelEncoder, LinearClassifier, LinearRegressor, NodePayload, Normalizer,
    OneHotEncoder, OnnxOp, OpError, Reshape, Scaler, SvmClassifier, SvmCommon, SvmRegressor,
    TreeEnsembleClassifier, TreeEnsembleRegressor, TreeNodes, ZipMap, CODEC_MAX_IR_VERSION,
    CODEC_MAX_ML_OPSET, CODEC_MAX_ONNX_OPSET, CORE_TYPED_OPSET_TARGET, ML_EXPORT_OPSET_TARGET,
};

fn s(v: &str) -> String {
    v.to_string()
}

fn bits(v: &[f32]) -> Vec<u32> {
    v.iter().map(|x| x.to_bits()).collect()
}

fn io1() -> (Vec<String>, Vec<String>) {
    (vec![s("x")], vec![s("y")])
}

fn io2() -> (Vec<String>, Vec<String>) {
    (vec![s("x")], vec![s("y"), s("z")])
}

fn roundtrip<O: OnnxOp>(op: &O, inputs: Vec<String>, outputs: Vec<String>) -> O {
    let emitted = op.to_node(inputs, outputs).expect("to_node failed");
    assert!(emitted.initializers.is_empty());
    O::from_node(&emitted.node).expect("from_node failed")
}

fn f32_tensor(name: &str, vals: &[f32]) -> Tensor {
    Tensor::new(
        s(name),
        ElemType::Float,
        vec![Dim::Fixed(vals.len() as i64)],
        TensorData::F32(bits(vals)),
    )
}

fn empty_label_encoder() -> LabelEncoder {
    LabelEncoder {
        default_float: None,
        default_int64: None,
        default_string: None,
        default_tensor: None,
        keys_floats: None,
        keys_int64s: None,
        keys_strings: None,
        keys_tensor: None,
        values_floats: None,
        values_int64s: None,
        values_strings: None,
        values_tensor: None,
    }
}

#[test]
fn scaler_roundtrip_full() {
    let op = Scaler { offset: Some(bits(&[1.0, 2.0])), scale: Some(bits(&[0.5, 0.25])) };
    let (i, o) = io1();
    assert_eq!(roundtrip(&op, i, o), op);
}

#[test]
fn scaler_defaults_absent_stay_absent() {
    let op = Scaler { offset: None, scale: None };
    let (i, o) = io1();
    let emitted = op.to_node(i, o).expect("to_node failed");
    assert!(emitted.node.attributes.is_empty());
    assert_eq!(Scaler::from_node(&emitted.node).expect("from_node failed"), op);
}

#[test]
fn imputer_roundtrip_float() {
    let op = Imputer {
        imputed_value_floats: Some(bits(&[-1.0])),
        imputed_value_int64s: None,
        replaced_value_float: Some(0.0f32.to_bits()),
        replaced_value_int64: None,
    };
    let (i, o) = io1();
    assert_eq!(roundtrip(&op, i, o), op);
}

#[test]
fn imputer_roundtrip_int_absent_defaults() {
    let op = Imputer {
        imputed_value_floats: None,
        imputed_value_int64s: Some(vec![7, 8]),
        replaced_value_float: None,
        replaced_value_int64: None,
    };
    let (i, o) = io1();
    let back = roundtrip(&op, i, o);
    assert_eq!(back, op);
    assert!(back.replaced_value_float.is_none());
    assert!(back.replaced_value_int64.is_none());
}

#[test]
fn imputer_rejects_both_imputed_kinds() {
    let op = Imputer {
        imputed_value_floats: Some(bits(&[1.0])),
        imputed_value_int64s: Some(vec![1]),
        replaced_value_float: None,
        replaced_value_int64: None,
    };
    let (i, o) = io1();
    assert!(op.to_node(i, o).is_err());
}

#[test]
fn normalizer_roundtrip() {
    for norm in [None, Some(s("L1")), Some(s("MAX"))] {
        let op = Normalizer { norm };
        let (i, o) = io1();
        assert_eq!(roundtrip(&op, i.clone(), o.clone()), op);
    }
}

#[test]
fn label_encoder_strings_roundtrip() {
    let op = LabelEncoder {
        keys_strings: Some(vec![s("a"), s("b")]),
        values_int64s: Some(vec![0, 1]),
        default_int64: Some(42),
        ..empty_label_encoder()
    };
    let (i, o) = io1();
    assert_eq!(roundtrip(&op, i, o), op);
}

#[test]
fn label_encoder_tensor_attrs_roundtrip() {
    let op = LabelEncoder {
        keys_tensor: Some(f32_tensor("keys", &[1.0, 2.0])),
        values_tensor: Some(f32_tensor("values", &[10.0, 20.0])),
        default_tensor: Some(f32_tensor("default", &[-1.0])),
        ..empty_label_encoder()
    };
    let (i, o) = io1();
    assert_eq!(roundtrip(&op, i, o), op);
}

#[test]
fn label_encoder_rejects_missing_values() {
    let op = LabelEncoder { keys_strings: Some(vec![s("a")]), ..empty_label_encoder() };
    let (i, o) = io1();
    assert!(op.to_node(i, o).is_err());
}

#[test]
fn one_hot_encoder_int_roundtrip() {
    let op = OneHotEncoder { cats_int64s: Some(vec![1, 2, 3]), cats_strings: None, zeros: Some(1) };
    let (i, o) = io1();
    assert_eq!(roundtrip(&op, i, o), op);
}

#[test]
fn one_hot_encoder_strings_absent_zeros() {
    let op = OneHotEncoder { cats_int64s: None, cats_strings: Some(vec![s("x")]), zeros: None };
    let (i, o) = io1();
    let emitted = op.to_node(i, o).expect("to_node failed");
    assert!(emitted.node.attr("zeros").is_none());
    assert_eq!(OneHotEncoder::from_node(&emitted.node).expect("from_node failed"), op);
}

#[test]
fn dict_vectorizer_roundtrip() {
    let op = DictVectorizer { int64_vocabulary: None, string_vocabulary: Some(vec![s("a"), s("b")]) };
    let (i, o) = io1();
    assert_eq!(roundtrip(&op, i, o), op);
}

#[test]
fn feature_vectorizer_roundtrip() {
    let op = FeatureVectorizer { inputdimensions: Some(vec![2, 3]) };
    let emitted = op.to_node(vec![s("a"), s("b")], vec![s("y")]).expect("to_node failed");
    assert_eq!(FeatureVectorizer::from_node(&emitted.node).expect("from_node failed"), op);
}

#[test]
fn linear_classifier_roundtrip() {
    let mut op = LinearClassifier::with_int_labels(vec![0, 1], bits(&[0.5, -0.5, 0.25, 0.75]))
        .expect("build failed");
    op.intercepts = Some(bits(&[0.1, -0.1]));
    op.multi_class = Some(0);
    op.post_transform = Some(s("LOGISTIC"));
    let (i, o) = io2();
    assert_eq!(roundtrip(&op, i, o), op);
}

#[test]
fn linear_classifier_absent_optionals() {
    let op = LinearClassifier::with_string_labels(vec![s("a")], bits(&[1.0])).expect("build failed");
    let (i, o) = io2();
    let emitted = op.to_node(i, o).expect("to_node failed");
    assert!(emitted.node.attr("intercepts").is_none());
    assert!(emitted.node.attr("post_transform").is_none());
    assert!(emitted.node.attr("multi_class").is_none());
    assert_eq!(LinearClassifier::from_node(&emitted.node).expect("from_node failed"), op);
}

#[test]
fn linear_classifier_rejects_empty_coefficients() {
    let op = LinearClassifier {
        classlabels: ClassLabels { ints: Some(vec![0]), strings: None },
        coefficients: Vec::new(),
        intercepts: None,
        multi_class: None,
        post_transform: None,
    };
    let (i, o) = io2();
    assert!(op.to_node(i, o).is_err());
}

#[test]
fn linear_regressor_roundtrip() {
    let op = LinearRegressor {
        coefficients: bits(&[1.0, 2.0]),
        intercepts: None,
        post_transform: None,
        targets: Some(1),
    };
    let (i, o) = io1();
    assert_eq!(roundtrip(&op, i, o), op);
}

fn empty_svm_common() -> SvmCommon {
    SvmCommon {
        coefficients: None,
        kernel_params: None,
        kernel_type: None,
        post_transform: None,
        prob_a: None,
        prob_b: None,
        rho: None,
        support_vectors: None,
    }
}

#[test]
fn svm_classifier_roundtrip() {
    let op = SvmClassifier {
        classlabels: ClassLabels { ints: Some(vec![0, 1]), strings: None },
        common: SvmCommon {
            coefficients: Some(bits(&[1.0, -1.0])),
            kernel_params: Some(bits(&[0.5, 0.0, 3.0])),
            kernel_type: Some(s("RBF")),
            post_transform: None,
            prob_a: Some(bits(&[0.1])),
            prob_b: Some(bits(&[0.2])),
            rho: Some(bits(&[0.3])),
            support_vectors: Some(bits(&[1.0, 2.0])),
        },
        vectors_per_class: Some(vec![1, 1]),
    };
    let (i, o) = io2();
    assert_eq!(roundtrip(&op, i, o), op);
}

#[test]
fn svm_regressor_roundtrip() {
    let op = SvmRegressor {
        common: SvmCommon {
            kernel_type: Some(s("LINEAR")),
            rho: Some(bits(&[0.5])),
            ..empty_svm_common()
        },
        n_supports: Some(2),
        one_class: None,
    };
    let (i, o) = io1();
    let back = roundtrip(&op, i, o);
    assert_eq!(back, op);
    assert!(back.one_class.is_none());
    assert!(back.common.post_transform.is_none());
}

fn sample_tree_nodes() -> TreeNodes {
    TreeNodes {
        falsenodeids: vec![1, 2, 2],
        featureids: vec![0, 1, 0],
        hitrates: Some(bits(&[1.0, 0.5, 0.5])),
        hitrates_as_tensor: None,
        missing_value_tracks_true: None,
        modes: vec![s("BRANCH_LEQ"), s("LEAF"), s("LEAF")],
        nodeids: vec![0, 1, 2],
        treeids: vec![0, 0, 0],
        truenodeids: vec![1, 1, 2],
        values: Some(bits(&[0.5, 0.0, 0.0])),
        values_as_tensor: None,
    }
}

#[test]
fn tree_ensemble_classifier_full_roundtrip() {
    let op = TreeEnsembleClassifier {
        base_values: Some(bits(&[0.1, 0.2])),
        base_values_as_tensor: None,
        class_ids: vec![0, 1],
        class_nodeids: vec![1, 2],
        class_treeids: vec![0, 0],
        class_weights: Some(bits(&[1.5, 2.5])),
        class_weights_as_tensor: None,
        classlabels_int64s: Some(vec![0, 1]),
        classlabels_strings: None,
        nodes: sample_tree_nodes(),
        post_transform: Some(s("SOFTMAX")),
    };
    let (i, o) = io2();
    assert_eq!(roundtrip(&op, i, o), op);
}

#[test]
fn tree_ensemble_classifier_tensor_arrays_roundtrip() {
    let mut nodes = sample_tree_nodes();
    nodes.hitrates = None;
    nodes.hitrates_as_tensor = Some(f32_tensor("hitrates", &[1.0, 0.5, 0.5]));
    nodes.values = None;
    nodes.values_as_tensor = Some(f32_tensor("splits", &[0.5, 0.0, 0.0]));
    let op = TreeEnsembleClassifier {
        base_values: None,
        base_values_as_tensor: Some(f32_tensor("base", &[0.0, 0.0])),
        class_ids: vec![0],
        class_nodeids: vec![1],
        class_treeids: vec![0],
        class_weights: None,
        class_weights_as_tensor: Some(f32_tensor("cw", &[3.0])),
        classlabels_int64s: None,
        classlabels_strings: Some(vec![s("neg"), s("pos")]),
        nodes,
        post_transform: None,
    };
    let (i, o) = io2();
    let back = roundtrip(&op, i, o);
    assert_eq!(back, op);
    assert!(back.post_transform.is_none());
    assert!(back.base_values.is_none());
}

#[test]
fn tree_ensemble_regressor_full_roundtrip() {
    let op = TreeEnsembleRegressor {
        aggregate_function: Some(s("SUM")),
        base_values: None,
        base_values_as_tensor: None,
        n_targets: Some(1),
        nodes: sample_tree_nodes(),
        post_transform: None,
        target_ids: vec![0, 0],
        target_nodeids: vec![1, 2],
        target_treeids: vec![0, 0],
        target_weights: Some(bits(&[1.0, -1.0])),
        target_weights_as_tensor: None,
    };
    let (i, o) = io1();
    let back = roundtrip(&op, i, o);
    assert_eq!(back, op);
    assert!(back.post_transform.is_none());
    assert!(back.base_values.is_none());
}

#[test]
fn zipmap_roundtrip() {
    for op in [
        ZipMap { classlabels_int64s: Some(vec![0, 1]), classlabels_strings: None },
        ZipMap { classlabels_int64s: None, classlabels_strings: Some(vec![s("a")]) },
    ] {
        let (i, o) = io1();
        assert_eq!(roundtrip(&op, i.clone(), o.clone()), op);
    }
}

#[test]
fn cast_roundtrip() {
    let op = Cast { to: ElemType::Float, saturate: Some(1) };
    let (i, o) = io1();
    assert_eq!(roundtrip(&op, i, o), op);
    let bare = Cast { to: ElemType::Int64, saturate: None };
    let (i, o) = io1();
    let emitted = bare.to_node(i, o).expect("to_node failed");
    assert!(emitted.node.attr("saturate").is_none());
    assert_eq!(Cast::from_node(&emitted.node).expect("from_node failed"), bare);
}

#[test]
fn reshape_roundtrip() {
    let op = Reshape { allowzero: Some(1) };
    let emitted = op.to_node(vec![s("d"), s("s")], vec![s("r")]).expect("to_node failed");
    assert_eq!(Reshape::from_node(&emitted.node).expect("from_node failed"), op);
    let bare = Reshape { allowzero: None };
    let (i, o) = io1();
    let emitted = bare.to_node(i, o).expect("to_node failed");
    assert!(emitted.node.attributes.is_empty());
    assert_eq!(Reshape::from_node(&emitted.node).expect("from_node failed"), bare);
}

#[test]
fn concat_roundtrip() {
    let op = Concat { axis: -1 };
    let emitted = op.to_node(vec![s("a"), s("b")], vec![s("c")]).expect("to_node failed");
    assert_eq!(Concat::from_node(&emitted.node).expect("from_node failed"), op);
}

#[test]
fn gather_roundtrip() {
    let op = Gather { axis: None };
    let emitted = op.to_node(vec![s("d"), s("i")], vec![s("o")]).expect("to_node failed");
    assert!(emitted.node.attributes.is_empty());
    assert_eq!(Gather::from_node(&emitted.node).expect("from_node failed"), op);
}

#[test]
fn identity_roundtrip() {
    let op = Identity;
    let (i, o) = io1();
    assert_eq!(roundtrip(&op, i, o), op);
}

#[test]
fn recognition_typed_and_raw() {
    let scaler = Scaler { offset: Some(bits(&[0.0])), scale: Some(bits(&[1.0])) };
    let (i, o) = io1();
    let node = scaler.to_node(i, o).expect("to_node failed").node;
    match make_node_payload(&node) {
        NodePayload::Scaler(typed) => assert_eq!(typed.op, scaler),
        other => panic!("expected Scaler payload, got {:?}", other.node().op_type),
    }
    let unknown = Node::new(s("FancyFutureOp"), s("ai.onnx.ml"), vec![s("x")], vec![s("y")], Vec::new());
    assert!(make_node_payload(&unknown).is_raw());
}

#[test]
fn recognition_unknown_attr_falls_back_to_raw() {
    let scaler = Scaler { offset: Some(bits(&[0.0])), scale: None };
    let (i, o) = io1();
    let mut node = scaler.to_node(i, o).expect("to_node failed").node;
    node.attributes.push(Attribute::int64(s("future_flag"), 1));
    let payload = make_node_payload(&node);
    assert!(payload.is_raw());
    assert_eq!(payload.node(), &node);
}

#[test]
fn recognition_wrong_attr_type_falls_back_to_raw() {
    let node = Node::new(
        s("Scaler"),
        s(ML_DOMAIN),
        vec![s("x")],
        vec![s("y")],
        vec![Attribute::int64(s("scale"), 3)],
    );
    assert!(make_node_payload(&node).is_raw());
}

#[test]
fn recognition_duplicate_attr_falls_back_to_raw() {
    let node = Node::new(
        s("Concat"),
        s(""),
        vec![s("a")],
        vec![s("c")],
        vec![Attribute::int64(s("axis"), 0), Attribute::int64(s("axis"), 1)],
    );
    assert!(make_node_payload(&node).is_raw());
}

#[test]
fn recognition_missing_required_falls_back_to_raw() {
    let node = Node::new(s("Concat"), s(""), vec![s("a")], vec![s("c")], Vec::new());
    assert!(make_node_payload(&node).is_raw());
    let cast = Node::new(s("Cast"), s(""), vec![s("x")], vec![s("y")], Vec::new());
    assert!(make_node_payload(&cast).is_raw());
}

#[test]
fn recognition_preserves_node_metadata() {
    let scaler = Scaler { offset: Some(bits(&[1.0])), scale: None };
    let (i, o) = io1();
    let mut node = scaler.to_node(i, o).expect("to_node failed").node;
    node.name = Some(s("scale0"));
    node.doc_string = s("doc");
    node.metadata = vec![(s("k"), s("v"))];
    node.device_configurations = vec![NodeDeviceConfiguration {
        configuration_id: s("cfg"),
        pipeline_stage: 2,
        sharding_specs_raw: Vec::new(),
    }];
    match make_node_payload(&node) {
        NodePayload::Scaler(typed) => {
            assert_eq!(typed.node, node);
            assert_eq!(typed.op, scaler);
        }
        _ => panic!("expected typed Scaler"),
    }
    let mut unknown = Node::new(
        s("Other"),
        s("custom.domain"),
        vec![s("x")],
        vec![s("y")],
        vec![Attribute::float(s("w"), 1.0f32.to_bits())],
    );
    unknown.metadata = vec![(s("a"), s("b"))];
    match make_node_payload(&unknown) {
        NodePayload::Raw(kept) => assert_eq!(kept, unknown),
        _ => panic!("expected Raw"),
    }
}

#[test]
fn wrong_attr_value_type_rejected() {
    let node = Node::new(
        s("Gather"),
        s(""),
        vec![s("d"), s("i")],
        vec![s("o")],
        vec![Attribute::float(s("axis"), 1.0f32.to_bits())],
    );
    assert!(matches!(Gather::from_node(&node), Err(OpError::WrongAttributeType { .. })));
}

#[test]
fn attribute_value_kinds_rejected() {
    let node = Node::new(
        s("Scaler"),
        s(ML_DOMAIN),
        vec![s("x")],
        vec![s("y")],
        vec![Attribute::new(s("scale"), AttributeValue::String(s("bad")))],
    );
    assert!(matches!(Scaler::from_node(&node), Err(OpError::WrongAttributeType { .. })));
}

#[test]
fn opset_target_constants_match_codec_limits() {
    assert_eq!(ML_EXPORT_OPSET_TARGET, 4);
    assert_eq!(CORE_TYPED_OPSET_TARGET, 21);
    assert_eq!(CODEC_MAX_IR_VERSION, 10);
    assert_eq!(CODEC_MAX_ONNX_OPSET, 25);
    assert_eq!(CODEC_MAX_ML_OPSET, 5);
}
