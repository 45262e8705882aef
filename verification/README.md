# serde-onnx

Strongly typed ONNX models in Verus: a typed intermediate representation of
ONNX graphs, typed `ai.onnx.ml` operators, and the conversion between the
intermediate representation and the ONNX protobuf messages, with contracts
proved by Verus.

## Layout

- `src/ir/`: the intermediate representation (element and value types,
  tensors and their external data references, attributes, nodes, graphs,
  models) and graph validation (SSA form, defined values, cycles, shapes of
  the main inputs and outputs).
- `src/ml/`: the typed operators, each converting to and from a generic
  node, the attribute table they share, and the recognition of typed
  operators in the nodes of a model.
- `src/proto/`: the protobuf messages as plain data, the conversion between
  them and the intermediate representation, and the round-trip laws:
  reading back a written model gives the model.
- `src/export.rs`: building a graph from typed operators, with every value
  defined once and the operator sets the nodes need.
- `src/import.rs`: reading a decoded model as typed operators, with
  warnings for the parts kept as raw bytes.
- `src/text.rs`: numerals and UTF-8 text, over the standard library.
- `app/`: the protobuf wire format (`prost`), the file system (model files
  and external tensor data) and the floating-point views of tensor data
  (`half`, `num-traits`), around the library.

Floating-point numbers are held in the library as their IEEE-754 bit
patterns (`u32` for `float`, `u64` for `double`).
