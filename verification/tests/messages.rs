use serde_onnx::export::ExportError;
use serde_onnx::ir::validate::{ValidationError, ValidationReport};
use serde_onnx::ir::AttributeError;
use serde_onnx::ml::OpError;
use serde_onnx::proto::ProtoCodecError;

fn s(v: &str) -> String {
    v.to_string()
}

#[test]
fn codec_error_messages() {
    assert_eq!(
        ProtoCodecError::UnsupportedIrVersion { declared: 11, supported: 10 }.message(),
        "unsupported IR version 11: this library supports up to IR version 10"
    );
    assert_eq!(
        ProtoCodecError::UnsupportedOpsetVersion { domain: s("ai.onnx"), declared: 26, supported: 25 }
            .message(),
        "unsupported opset version 26 for domain \"ai.onnx\": this library supports up to 25"
    );
    assert_eq!(
        ProtoCodecError::TensorSizeMismatch { name: s("t"), expected: 10, got: 37 }.message(),
        "tensor \"t\": shape implies 10 elements but data carries 37"
    );
    assert_eq!(
        ProtoCodecError::Attribute(AttributeError::NoValue { name: s("a") }).message(),
        "invalid attribute: attribute \"a\" has no value field set"
    );
    assert_eq!(ProtoCodecError::Io(s("gone")).message(), "io error: gone");
    assert_eq!(ProtoCodecError::Protobuf(s("bad")).message(), "invalid protobuf data: bad");
}

#[test]
fn op_error_messages() {
    assert_eq!(
        OpError::MissingAttribute { op: "Concat", attr: "axis" }.message(),
        "op Concat is missing required attribute \"axis\""
    );
    assert_eq!(
        OpError::WrongInputCount { op: "Gather", expected: s("2"), got: 1 }.message(),
        "op Gather expects 2 inputs, got 1"
    );
    assert_eq!(
        OpError::WrongOp {
            expected_domain: "ai.onnx.ml",
            expected_op: "Scaler",
            got_domain: s(""),
            got_op: s("Identity"),
        }
        .message(),
        "node (\"\", \"Identity\") is not (\"ai.onnx.ml\", \"Scaler\")"
    );
}

#[test]
fn validation_and_export_messages() {
    let cycle = ValidationError::Cycle { path: vec![s("a"), s("b"), s("a")] };
    assert_eq!(cycle.message(), "graph contains a cycle: a -> b -> a");
    let report = ValidationReport {
        errors: vec![
            ValidationError::GraphMissingName,
            ValidationError::UndefinedValue { node_index: 0, name: s("ghost") },
        ],
    };
    assert_eq!(report.message(), "graph has no name\nnode 0 references undefined value \"ghost\"");
    let export = ExportError::Validation(report.errors);
    assert_eq!(
        export.message(),
        "exported graph failed validation (2 error(s)):\n- graph has no name\n- node 0 references undefined value \"ghost\""
    );
    assert_eq!(
        ExportError::DuplicateName(s("X")).message(),
        "exported value \"X\" is already defined"
    );
    assert_eq!(
        ExportError::LengthMismatch { name: s("w"), expected: 4, got: 3 }.message(),
        "initializer \"w\": shape implies 4 elements but data carries 3"
    );
    assert_eq!(
        ExportError::Op(OpError::DuplicateAttribute { op: "Concat", attr: s("axis") }).message(),
        "invalid op for export: op Concat has duplicate attribute \"axis\""
    );
}
