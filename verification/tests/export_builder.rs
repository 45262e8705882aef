use serde_onnx::export::{export_model, ExportError, GraphBuilder, ToOnnx, ValueRef};
use serde_onnx::ir::{Attribute, Dim, ElemType, TensorData, ValueType};
use serde_onnx::ml::{OnnxOp, OpSink, Scaler, CORE_TYPED_OPSET_TARGET, ML_EXPORT_OPSET_TARGET};

fn s(v: &str) -> String {
    v.to_string()
}

fn matrix() -> ValueType {
    ValueType::tensor(ElemType::Float, Some(vec![Dim::Unknown, Dim::Unknown]))
}

#[test]
fn initializer_infers_dtype_from_scalar() {
    let mut builder = GraphBuilder::new(s("g"));
    builder
        .initializer(s("w"), vec![Dim::Fixed(2)], TensorData::F32(vec![1.0f32.to_bits(), 2.0f32.to_bits()]))
        .expect("initializer");
    builder
        .initializer(s("ids"), vec![Dim::Fixed(3)], TensorData::I64(vec![1, 2, 3]))
        .expect("initializer");
    let (graph, _) = builder.finish();
    assert_eq!(graph.initializers[0].elem, ElemType::Float);
    assert_eq!(graph.initializers[1].elem, ElemType::Int64);
}

#[test]
fn duplicate_names_are_rejected() {
    let mut builder = GraphBuilder::new(s("g"));
    builder.input(s("X"), matrix()).expect("input");
    let err = builder.input(s("X"), matrix()).expect_err("duplicate input");
    assert!(matches!(err, ExportError::DuplicateName(_)));
    let err = builder
        .initializer(s("X"), vec![Dim::Fixed(1)], TensorData::F32(vec![1.0f32.to_bits()]))
        .expect_err("initializer collides with input");
    assert!(matches!(err, ExportError::DuplicateName(_)));
}

#[test]
fn auto_named_outputs_collide_with_existing_names() {
    let mut builder = GraphBuilder::new(s("g"));
    builder.input(s("X"), matrix()).expect("input");
    builder.input(s("node_0_Identity_out"), matrix()).expect("input");
    let err = builder
        .push_node("Identity", "", vec![s("X")], Vec::new(), 1)
        .expect_err("auto name collides");
    assert!(matches!(err, ExportError::DuplicateName(_)));
}

#[test]
fn opset_imports_register_per_domain() {
    let mut builder = GraphBuilder::new(s("g"));
    let input = builder.input(s("X"), matrix()).expect("input");
    builder
        .push_node(
            "Scaler",
            "ai.onnx.ml",
            vec![input.name().to_string()],
            vec![Attribute::floats(s("scale"), vec![1.0f32.to_bits()])],
            1,
        )
        .expect("ml node");
    builder
        .push_node("Identity", "", vec![s("node_0_Scaler_out")], Vec::new(), 1)
        .expect("core node");
    let opsets = builder.opset_import();
    let ml = opsets.iter().find(|o| o.domain == "ai.onnx.ml").expect("ml opset");
    assert_eq!(ml.version, ML_EXPORT_OPSET_TARGET);
    let core = opsets.iter().find(|o| o.domain.is_empty()).expect("core opset");
    assert_eq!(core.version, CORE_TYPED_OPSET_TARGET);
}

#[test]
fn emit_op_uses_deterministic_auto_names() {
    let mut builder = GraphBuilder::new(s("g"));
    let input = builder.input(s("X"), matrix()).expect("input");
    let op = Scaler { offset: None, scale: Some(vec![2.0f32.to_bits()]) };
    let outputs = builder.emit_op(&op, vec![input], 1).expect("emit");
    assert_eq!(outputs[0].name(), "node_0_Scaler_out");
}

#[test]
fn sink_emit_registers_opset_and_initializers() {
    let mut builder = GraphBuilder::new(s("g"));
    let op = Scaler { offset: None, scale: Some(vec![2.0f32.to_bits()]) };
    let emitted = op.to_node(vec![s("X")], vec![s("Y")]).expect("node");
    builder.input(s("X"), matrix()).expect("input");
    let (inputs, outputs) = builder.emit(emitted).expect("sink emit");
    assert_eq!(inputs, vec![s("X")]);
    assert_eq!(outputs, vec![s("Y")]);
    let opsets = builder.opset_import();
    assert!(opsets.iter().any(|o| o.domain == "ai.onnx.ml"));
}

struct Dangling;

impl ToOnnx for Dangling {
    fn to_graph(&self, builder: &mut GraphBuilder) -> Result<ValueRef, ExportError> {
        let outputs = builder.push_node("Identity", "", vec![s("missing")], Vec::new(), 1)?;
        let output = outputs.into_iter().next().expect("single output");
        builder.output(output.name().to_string(), matrix())?;
        Ok(output)
    }
}

#[test]
fn export_model_rejects_invalid_graph_with_aggregated_errors() {
    let err = export_model(&Dangling, s("g")).expect_err("undefined value");
    match err {
        ExportError::Validation(errors) => assert!(!errors.is_empty()),
        other => panic!("expected validation errors, got {other:?}"),
    }
}

#[test]
fn several_outputs_are_numbered_and_stem_keeps_letters_and_digits() {
    let mut builder = GraphBuilder::new(s("g"));
    builder.input(s("X"), matrix()).expect("input");
    let outs = builder.push_node("My-Op.2", "custom", vec![s("X")], Vec::new(), 2).expect("node");
    let names: Vec<&str> = outs.iter().map(|v| v.name()).collect();
    assert_eq!(names, vec!["node_0_MyOp2_out_0", "node_0_MyOp2_out_1"]);
    let outs = builder.push_node("--", "custom", vec![s("X")], Vec::new(), 1).expect("node");
    assert_eq!(outs[0].name(), "node_1_Op_out");
    assert!(builder.opset_import().is_empty());
}

#[test]
fn declared_opsets_keep_the_highest_version_in_domain_order() {
    let mut builder = GraphBuilder::new(s("g"));
    builder.declare_opset(s("zeta"), 3);
    builder.declare_opset(s("ai.onnx.ml"), 2);
    builder.declare_opset(s(""), 7);
    builder.declare_opset(s("zeta"), 1);
    builder.declare_opset(s("ai.onnx.ml"), 5);
    let (_, opsets) = builder.finish();
    let pairs: Vec<(&str, i64)> = opsets.iter().map(|o| (o.domain.as_str(), o.version)).collect();
    assert_eq!(pairs, vec![("", 7), ("ai.onnx.ml", 5), ("zeta", 3)]);
}

#[test]
fn initializer_length_must_match_a_fixed_shape() {
    let mut builder = GraphBuilder::new(s("g"));
    let err = builder
        .initializer(s("w"), vec![Dim::Fixed(2), Dim::Fixed(2)], TensorData::I64(vec![1, 2, 3]))
        .expect_err("length mismatch");
    assert_eq!(err, ExportError::LengthMismatch { name: s("w"), expected: 4, got: 3 });
    builder
        .initializer(s("free"), vec![Dim::Param(s("N"))], TensorData::I64(vec![1, 2, 3]))
        .expect("shape without fixed length accepts any length");
}

#[test]
fn graph_name_and_outputs_are_recorded() {
    let mut builder = GraphBuilder::new(s("main"));
    assert_eq!(builder.graph_name(), "main");
    let y = builder.output(s("Y"), matrix()).expect("output");
    assert_eq!(y.into_string(), "Y");
    let (graph, _) = builder.finish();
    assert_eq!(graph.outputs.len(), 1);
    assert_eq!(graph.outputs[0].name, "Y");
}

struct Chain;

impl ToOnnx for Chain {
    fn to_graph(&self, builder: &mut GraphBuilder) -> Result<ValueRef, ExportError> {
        let x = builder.input(s("X"), matrix())?;
        let op = Scaler { offset: None, scale: Some(vec![2.0f32.to_bits()]) };
        let outs = builder.emit_op(&op, vec![x], 1)?;
        let out = outs.into_iter().next().expect("single output");
        builder.output(out.name().to_string(), matrix())?;
        Ok(out)
    }
}

#[test]
fn export_model_builds_a_valid_model() {
    let model = export_model(&Chain, s("g")).expect("valid graph");
    assert_eq!(model.graph.name, "g");
    assert_eq!(model.graph.nodes.len(), 1);
    assert_eq!(model.opset_import.len(), 1);
    assert_eq!(model.opset_import[0].domain, "ai.onnx.ml");
    assert_eq!(model.opset_import[0].version, ML_EXPORT_OPSET_TARGET);
}
