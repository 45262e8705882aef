use serde_onnx::export::{export_model, ExportError, GraphBuilder, ToOnnx, ValueRef};
use serde_onnx::import::{DecodedModel, ImportWarning, ImportWarningKind, PayloadVisitor};
use serde_onnx::ir::{
    Attribute, Dim, ElemType, FunctionRaw, Graph, GraphRef, Model, Node, OpsetId, TrainingInfoRaw,
    ValueInfo, ValueType,
};
use serde_onnx::ml::{NodePayload, Scaler, TreeEnsembleClassifier, TreeNodes};
use serde_onnx::proto::model::{decode_model_proto, encode_model_proto};

fn s(v: &str) -> String {
    v.to_string()
}

fn bits(v: &[f32]) -> Vec<u32> {
    v.iter().map(|x| x.to_bits()).collect()
}

fn matrix() -> ValueType {
    ValueType::tensor(ElemType::Float, Some(vec![Dim::Unknown, Dim::Unknown]))
}

fn decode(model: &Model) -> DecodedModel {
    DecodedModel::from_model(decode_model_proto(&encode_model_proto(model)).expect("decode must succeed"))
}

struct ScalerModel {
    scaler: Scaler,
}

impl ToOnnx for ScalerModel {
    fn to_graph(&self, builder: &mut GraphBuilder) -> Result<ValueRef, ExportError> {
        let x = builder.input(s("X"), matrix())?;
        let outs = builder.emit_op(&self.scaler, vec![x], 1)?;
        let out = outs.into_iter().next().expect("single output");
        builder.output(out.name().to_string(), matrix())?;
        Ok(ValueRef(out.name().to_string()))
    }
}

fn sample_tree_nodes() -> TreeNodes {
    TreeNodes {
        falsenodeids: vec![1, 2, 2],
        featureids: vec![0, 1, 0],
        hitrates: Some(bits(&[1.0, 0.5, 0.5])),
        hitrates_as_tensor: None,
        missing_value_tracks_true: None,
        modes: vec![s("BRANCH_LEQ"), s("LEAF"), s("LEAF")],
        nodeids: vec![0, 1, 2],
        treeids: vec![0, 0, 0],
        truenodeids: vec![1, 1, 2],
        values: Some(bits(&[0.5, 0.0, 0.0])),
        values_as_tensor: None,
    }
}

struct EnsembleModel {
    ensemble: TreeEnsembleClassifier,
}

impl ToOnnx for EnsembleModel {
    fn to_graph(&self, builder: &mut GraphBuilder) -> Result<ValueRef, ExportError> {
        let x = builder.input(s("X"), matrix())?;
        let outs = builder.emit_op(&self.ensemble, vec![x], 2)?;
        let mut outs = outs.into_iter();
        let y = outs.next().expect("first output");
        let z = outs.next().expect("second output");
        builder.output(y.name().to_string(), matrix())?;
        builder.output(z.name().to_string(), matrix())?;
        Ok(ValueRef(y.name().to_string()))
    }
}

#[test]
fn scaler_export_encode_decode_recognizes_typed() {
    let scaler = Scaler { offset: Some(bits(&[1.0, 2.0])), scale: Some(bits(&[0.5, 0.25])) };
    let model = export_model(&ScalerModel { scaler: scaler.clone() }, s("scaler_graph"))
        .expect("export must succeed");
    let decoded = decode(&model);
    assert_eq!(decoded.payloads.len(), 1);
    match &decoded.payloads[0] {
        NodePayload::Scaler(typed) => assert_eq!(typed.op, scaler),
        other => panic!("expected typed Scaler, got {:?}", other.node().op_type),
    }
    assert_eq!(decoded.inputs().len(), 1);
    assert_eq!(decoded.inputs()[0].name, "X");
    assert_eq!(decoded.outputs().len(), 1);
    assert!(decoded.initializers().is_empty());
    assert!(decoded.warnings.is_empty());
}

#[test]
fn tree_ensemble_classifier_export_encode_decode_recognizes_typed() {
    let ensemble = TreeEnsembleClassifier {
        base_values: Some(bits(&[0.1, 0.2])),
        base_values_as_tensor: None,
        class_ids: vec![0, 1],
        class_nodeids: vec![1, 2],
        class_treeids: vec![0, 0],
        class_weights: Some(bits(&[1.5, 2.5])),
        class_weights_as_tensor: None,
        classlabels_int64s: Some(vec![0, 1]),
        classlabels_strings: None,
        nodes: sample_tree_nodes(),
        post_transform: Some(s("SOFTMAX")),
    };
    let model = export_model(&EnsembleModel { ensemble: ensemble.clone() }, s("ensemble_graph"))
        .expect("export must succeed");
    let decoded = decode(&model);
    assert_eq!(decoded.payloads.len(), 1);
    match &decoded.payloads[0] {
        NodePayload::TreeEnsembleClassifier(typed) => assert_eq!(typed.op, ensemble),
        other => panic!("expected typed TreeEnsembleClassifier, got {:?}", other.node().op_type),
    }
    assert!(decoded.warnings.is_empty());
}

#[test]
fn unknown_op_decodes_with_raw_preserved() {
    let mut graph = Graph::new(s("raw_graph"));
    graph.inputs.push(ValueInfo::new(s("x"), matrix()));
    let node = Node::new(
        s("FancyFutureOp"),
        s("ai.onnx.ml"),
        vec![s("x")],
        vec![s("y")],
        vec![Attribute::float(s("weight"), 1.5f32.to_bits())],
    );
    graph.nodes.push(node.clone());
    graph.outputs.push(ValueInfo::new(s("y"), matrix()));
    let model = Model::new(graph, vec![OpsetId { domain: s("ai.onnx.ml"), version: 4 }]);
    let decoded = decode(&model);
    assert_eq!(decoded.payloads.len(), 1);
    match &decoded.payloads[0] {
        NodePayload::Raw(kept) => assert_eq!(kept, &node),
        other => panic!("expected Raw, got {:?}", other.node().op_type),
    }
    assert!(decoded.warnings.is_empty());
}

#[test]
fn subgraph_attribute_marks_non_fatal_warning() {
    let mut graph = Graph::new(s("loop_graph"));
    graph.inputs.push(ValueInfo::new(s("x"), matrix()));
    graph.nodes.push(Node::new(
        s("Loop"),
        s(""),
        vec![s("x")],
        vec![s("y")],
        vec![Attribute::graph(s("body"), GraphRef { name: s("body"), proto: vec![1, 2, 3] })],
    ));
    graph.outputs.push(ValueInfo::new(s("y"), matrix()));
    let model = Model::new(graph, vec![OpsetId { domain: String::new(), version: 21 }]);
    let decoded = decode(&model);
    assert_eq!(decoded.payloads.len(), 1);
    assert!(decoded.payloads[0].is_raw());
    assert_eq!(decoded.warnings.len(), 1);
    assert_eq!(decoded.warnings[0].kind, ImportWarningKind::SubgraphAttribute);
    assert_eq!(decoded.warnings[0].node_index, Some(0));
    assert_eq!(
        decoded.warnings[0].message,
        "node 0 (:Loop) attribute \"body\" carries a subgraph preserved as raw bytes"
    );
    assert_eq!(
        decoded.warnings[0].text(),
        "[subgraph-attribute at node 0] node 0 (:Loop) attribute \"body\" carries a subgraph preserved as raw bytes"
    );
}

#[test]
fn function_and_training_blobs_mark_non_fatal_warnings() {
    let scaler = Scaler { offset: Some(bits(&[0.0])), scale: Some(bits(&[1.0])) };
    let mut model =
        export_model(&ScalerModel { scaler }, s("warn_graph")).expect("export must succeed");
    model.functions_raw.push(FunctionRaw {
        domain: s("custom.domain"),
        name: s("CustomFn"),
        overload: String::new(),
        proto: vec![9, 9, 9],
    });
    model.training_info_raw.push(TrainingInfoRaw { proto: vec![7, 7] });
    let decoded = decode(&model);
    assert!(matches!(decoded.payloads[0], NodePayload::Scaler(_)));
    assert_eq!(decoded.warnings.len(), 2);
    assert!(decoded.warnings.iter().any(|w| w.kind == ImportWarningKind::Function));
    assert!(decoded.warnings.iter().any(|w| w.kind == ImportWarningKind::TrainingInfo));
}

struct Counter {
    typed: usize,
    raw: usize,
}

impl PayloadVisitor for Counter {
    fn visit_typed(&mut self, _index: usize, _payload: &NodePayload) {
        self.typed += 1;
    }

    fn visit_raw(&mut self, _index: usize, _node: &Node) {
        self.raw += 1;
    }
}

#[test]
fn visitor_distinguishes_typed_and_raw() {
    let scaler = Scaler { offset: Some(bits(&[1.0])), scale: None };
    let mut model =
        export_model(&ScalerModel { scaler }, s("visit_graph")).expect("export must succeed");
    model.graph.nodes.push(Node::new(
        s("FancyFutureOp"),
        s("custom.domain"),
        vec![s("node_0_Scaler_out")],
        vec![s("z")],
        Vec::new(),
    ));
    model.graph.outputs.push(ValueInfo::new(s("z"), matrix()));
    let decoded = decode(&model);
    let mut counter = Counter { typed: 0, raw: 0 };
    decoded.visit(&mut counter);
    assert_eq!((counter.typed, counter.raw), (1, 1));
    assert_eq!(decoded.typed().len(), 1);
    assert_eq!(decoded.raw_nodes().len(), 1);
    assert_eq!(decoded.typed()[0].0, 0);
    assert_eq!(decoded.raw_nodes()[0].0, 1);
}

#[test]
fn warning_messages_name_functions_and_training_entries() {
    let f = ImportWarning::function("custom.domain", "CustomFn");
    assert_eq!(f.node_index, None);
    assert_eq!(
        f.message,
        "model function \"custom.domain\"::\"CustomFn\" preserved as raw bytes without resolution"
    );
    assert_eq!(f.text(), format!("[function] {}", f.message));
    let t = ImportWarning::training_info(3);
    assert_eq!(t.message, "model training_info entry 3 preserved as raw bytes");
    assert_eq!(t.kind.label(), "training-info");
    assert_eq!(ImportWarningKind::SubgraphAttribute.label(), "subgraph-attribute");
}

#[test]
fn decoded_model_exposes_graph_parts() {
    let scaler = Scaler { offset: None, scale: Some(bits(&[2.0])) };
    let model =
        export_model(&ScalerModel { scaler }, s("file_graph")).expect("export must succeed");
    let decoded = DecodedModel::from_model(model);
    assert_eq!(decoded.graph_name(), "file_graph");
    assert_eq!(decoded.opset_import().len(), 1);
    assert_eq!(decoded.opset_import()[0].domain, "ai.onnx.ml");
}
