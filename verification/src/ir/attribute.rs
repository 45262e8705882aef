use super::tensor::{Tensor, TensorSpec};
use super::types::{ValueType, ValueTypeSpec};
use crate::text::{debug_quoted, push_str, quoted, utf8_strict};
use vstd::prelude::*;
use vstd::utf8::{decode_utf8, valid_utf8};

verus! {

/// Mathematical model of [`GraphRef`] and [`SparseRef`]: a name and raw bytes.
pub struct NamedBytesSpec {
    pub name: Seq<char>,
    pub proto: Seq<u8>,
}

/// A subgraph carried as the raw bytes of its `GraphProto`.
#[derive(Debug, PartialEq)]
pub struct GraphRef {
    pub name: String,
    pub proto: Vec<u8>,
}

impl DeepView for GraphRef {
    type V = NamedBytesSpec;

    open spec fn deep_view(&self) -> NamedBytesSpec {
        NamedBytesSpec { name: self.name@, proto: self.proto@ }
    }
}

impl Clone for GraphRef {
    fn clone(&self) -> (r: Self)
        ensures
            r.deep_view() == self.deep_view(),
    {
        let proto = self.proto.clone();
        proof {
            assert(proto@ =~= self.proto@);
        }
        GraphRef { name: self.name.clone(), proto }
    }
}

/// A sparse tensor carried as the raw bytes of its `SparseTensorProto`.
#[derive(Debug, PartialEq)]
pub struct SparseRef {
    pub name: String,
    pub proto: Vec<u8>,
}

impl DeepView for SparseRef {
    type V = NamedBytesSpec;

    open spec fn deep_view(&self) -> NamedBytesSpec {
        NamedBytesSpec { name: self.name@, proto: self.proto@ }
    }
}

impl Clone for SparseRef {
    fn clone(&self) -> (r: Self)
        ensures
            r.deep_view() == self.deep_view(),
    {
        let proto = self.proto.clone();
        proof {
            assert(proto@ =~= self.proto@);
        }
        SparseRef { name: self.name.clone(), proto }
    }
}

/// Mathematical model of [`AttributeValue`].
pub enum AttributeValueSpec {
    Float(u32),
    Int(i64),
    String(Seq<char>),
    Tensor(TensorSpec),
    Graph(NamedBytesSpec),
    SparseTensor(NamedBytesSpec),
    TypeProto(ValueTypeSpec),
    Floats(Seq<u32>),
    Ints(Seq<i64>),
    Strings(Seq<Seq<char>>),
    Tensors(Seq<TensorSpec>),
    Graphs(Seq<NamedBytesSpec>),
    SparseTensors(Seq<NamedBytesSpec>),
    TypeProtos(Seq<ValueTypeSpec>),
}

/// The value of a node attribute. `FLOAT` values are held as IEEE-754 bit
/// patterns.
#[derive(Debug, PartialEq)]
pub enum AttributeValue {
    Float(u32),
    Int(i64),
    String(String),
    Tensor(Box<Tensor>),
    Graph(GraphRef),
    SparseTensor(SparseRef),
    TypeProto(Box<ValueType>),
    Floats(Vec<u32>),
    Ints(Vec<i64>),
    Strings(Vec<String>),
    Tensors(Vec<Tensor>),
    Graphs(Vec<GraphRef>),
    SparseTensors(Vec<SparseRef>),
    TypeProtos(Vec<ValueType>),
}

impl DeepView for AttributeValue {
    type V = AttributeValueSpec;

    open spec fn deep_view(&self) -> AttributeValueSpec {
        match self {
            AttributeValue::Float(v) => AttributeValueSpec::Float(*v),
            AttributeValue::Int(v) => AttributeValueSpec::Int(*v),
            AttributeValue::String(v) => AttributeValueSpec::String(v@),
            AttributeValue::Tensor(t) => AttributeValueSpec::Tensor((**t).deep_view()),
            AttributeValue::Graph(g) => AttributeValueSpec::Graph(g.deep_view()),
            AttributeValue::SparseTensor(s) => AttributeValueSpec::SparseTensor(s.deep_view()),
            AttributeValue::TypeProto(t) => AttributeValueSpec::TypeProto((**t).deep_view()),
            AttributeValue::Floats(v) => AttributeValueSpec::Floats(v@),
            AttributeValue::Ints(v) => AttributeValueSpec::Ints(v@),
            AttributeValue::Strings(v) => AttributeValueSpec::Strings(v.deep_view()),
            AttributeValue::Tensors(v) => AttributeValueSpec::Tensors(v.deep_view()),
            AttributeValue::Graphs(v) => AttributeValueSpec::Graphs(v.deep_view()),
            AttributeValue::SparseTensors(v) => AttributeValueSpec::SparseTensors(v.deep_view()),
            AttributeValue::TypeProtos(v) => AttributeValueSpec::TypeProtos(v.deep_view()),
        }
    }
}

impl Clone for AttributeValue {
    fn clone(&self) -> (r: Self)
        ensures
            r.deep_view() == self.deep_view(),
    {
        match self {
            AttributeValue::Float(v) => AttributeValue::Float(*v),
            AttributeValue::Int(v) => AttributeValue::Int(*v),
            AttributeValue::String(v) => AttributeValue::String(v.clone()),
            AttributeValue::Tensor(t) => AttributeValue::Tensor(Box::new((**t).clone())),
            AttributeValue::Graph(g) => AttributeValue::Graph(g.clone()),
            AttributeValue::SparseTensor(s) => AttributeValue::SparseTensor(s.clone()),
            AttributeValue::TypeProto(t) => AttributeValue::TypeProto(Box::new((**t).clone())),
            AttributeValue::Floats(v) => {
                let c = v.clone();
                proof {
                    assert(c@ =~= v@);
                }
                AttributeValue::Floats(c)
            },
            AttributeValue::Ints(v) => {
                let c = v.clone();
                proof {
                    assert(c@ =~= v@);
                }
                AttributeValue::Ints(c)
            },
            AttributeValue::Strings(v) => {
                let c = v.clone();
                proof {
                    assert(c.deep_view() =~= v.deep_view());
                }
                AttributeValue::Strings(c)
            },
            AttributeValue::Tensors(v) => {
                let c = v.clone();
                proof {
                    assert(c.deep_view() =~= v.deep_view());
                }
                AttributeValue::Tensors(c)
            },
            AttributeValue::Graphs(v) => {
                let c = v.clone();
                proof {
                    assert(c.deep_view() =~= v.deep_view());
                }
                AttributeValue::Graphs(c)
            },
            AttributeValue::SparseTensors(v) => {
                let c = v.clone();
                proof {
                    assert(c.deep_view() =~= v.deep_view());
                }
                AttributeValue::SparseTensors(c)
            },
            AttributeValue::TypeProtos(v) => {
                let c = v.clone();
                proof {
                    assert(c.deep_view() =~= v.deep_view());
                }
                AttributeValue::TypeProtos(c)
            },
        }
    }
}

/// Mathematical model of [`Attribute`].
pub struct AttributeSpec {
    pub name: Seq<char>,
    pub value: AttributeValueSpec,
    pub doc_string: Seq<char>,
}

/// A named attribute of a node.
#[derive(Debug, PartialEq)]
pub struct Attribute {
    pub name: String,
    pub value: AttributeValue,
    pub doc_string: String,
}

impl DeepView for Attribute {
    type V = AttributeSpec;

    open spec fn deep_view(&self) -> AttributeSpec {
        AttributeSpec {
            name: self.name@,
            value: self.value.deep_view(),
            doc_string: self.doc_string@,
        }
    }
}

impl Clone for Attribute {
    fn clone(&self) -> (r: Self)
        ensures
            r.deep_view() == self.deep_view(),
    {
        Attribute {
            name: self.name.clone(),
            value: self.value.clone(),
            doc_string: self.doc_string.clone(),
        }
    }
}

/// An attribute with the given name and value and no documentation.
pub open spec fn spec_attribute(name: Seq<char>, value: AttributeValueSpec) -> AttributeSpec {
    AttributeSpec { name, value, doc_string: Seq::empty() }
}

impl Attribute {
    /// An attribute with the given name and value.
    pub fn new(name: String, value: AttributeValue) -> (r: Self)
        ensures
            r.deep_view() == spec_attribute(name@, value.deep_view()),
    {
        Attribute { name, value, doc_string: String::new() }
    }

    /// A `FLOAT` attribute, given by the bit pattern of its value.
    pub fn float(name: String, v: u32) -> (r: Self)
        ensures
            r.deep_view() == spec_attribute(name@, AttributeValueSpec::Float(v)),
    {
        Self::new(name, AttributeValue::Float(v))
    }

    /// An `INT` attribute.
    pub fn int64(name: String, v: i64) -> (r: Self)
        ensures
            r.deep_view() == spec_attribute(name@, AttributeValueSpec::Int(v)),
    {
        Self::new(name, AttributeValue::Int(v))
    }

    /// A `STRING` attribute.
    pub fn string(name: String, v: String) -> (r: Self)
        ensures
            r.deep_view() == spec_attribute(name@, AttributeValueSpec::String(v@)),
    {
        Self::new(name, AttributeValue::String(v))
    }

    /// A `TENSOR` attribute.
    pub fn tensor(name: String, t: Tensor) -> (r: Self)
        ensures
            r.deep_view() == spec_attribute(name@, AttributeValueSpec::Tensor(t.deep_view())),
    {
        Self::new(name, AttributeValue::Tensor(Box::new(t)))
    }

    /// A `GRAPH` attribute.
    pub fn graph(name: String, g: GraphRef) -> (r: Self)
        ensures
            r.deep_view() == spec_attribute(name@, AttributeValueSpec::Graph(g.deep_view())),
    {
        Self::new(name, AttributeValue::Graph(g))
    }

    /// A `FLOATS` attribute, given by the bit patterns of its values.
    pub fn floats(name: String, v: Vec<u32>) -> (r: Self)
        ensures
            r.deep_view() == spec_attribute(name@, AttributeValueSpec::Floats(v@)),
    {
        Self::new(name, AttributeValue::Floats(v))
    }

    /// An `INTS` attribute.
    pub fn ints(name: String, v: Vec<i64>) -> (r: Self)
        ensures
            r.deep_view() == spec_attribute(name@, AttributeValueSpec::Ints(v@)),
    {
        Self::new(name, AttributeValue::Ints(v))
    }

    /// A `STRINGS` attribute.
    pub fn strings(name: String, v: Vec<String>) -> (r: Self)
        ensures
            r.deep_view() == spec_attribute(name@, AttributeValueSpec::Strings(v.deep_view())),
    {
        Self::new(name, AttributeValue::Strings(v))
    }

    /// A `TENSORS` attribute.
    pub fn tensors(name: String, v: Vec<Tensor>) -> (r: Self)
        ensures
            r.deep_view() == spec_attribute(name@, AttributeValueSpec::Tensors(v.deep_view())),
    {
        Self::new(name, AttributeValue::Tensors(v))
    }
}

/// The value fields of an `AttributeProto`, each present or not.
#[derive(Debug, PartialEq)]
pub struct AttributeFields {
    pub float: Option<u32>,
    pub int: Option<i64>,
    pub string_bytes: Option<Vec<u8>>,
    pub tensor: Option<Tensor>,
    pub graph: Option<GraphRef>,
    pub floats: Option<Vec<u32>>,
    pub ints: Option<Vec<i64>>,
    pub strings: Option<Vec<String>>,
    pub tensors: Option<Vec<Tensor>>,
    pub graphs: Option<Vec<GraphRef>>,
}

/// Mathematical model of [`AttributeFields`].
pub struct AttributeFieldsSpec {
    pub float: Option<u32>,
    pub int: Option<i64>,
    pub string_bytes: Option<Seq<u8>>,
    pub tensor: Option<TensorSpec>,
    pub graph: Option<NamedBytesSpec>,
    pub floats: Option<Seq<u32>>,
    pub ints: Option<Seq<i64>>,
    pub strings: Option<Seq<Seq<char>>>,
    pub tensors: Option<Seq<TensorSpec>>,
    pub graphs: Option<Seq<NamedBytesSpec>>,
}

impl DeepView for AttributeFields {
    type V = AttributeFieldsSpec;

    open spec fn deep_view(&self) -> AttributeFieldsSpec {
        AttributeFieldsSpec {
            float: self.float,
            int: self.int,
            string_bytes: match self.string_bytes {
                Some(b) => Some(b@),
                None => None,
            },
            tensor: self.tensor.deep_view(),
            graph: self.graph.deep_view(),
            floats: match self.floats {
                Some(v) => Some(v@),
                None => None,
            },
            ints: match self.ints {
                Some(v) => Some(v@),
                None => None,
            },
            strings: self.strings.deep_view(),
            tensors: self.tensors.deep_view(),
            graphs: self.graphs.deep_view(),
        }
    }
}

impl AttributeFieldsSpec {
    /// How many value fields are present.
    pub open spec fn present_count(self) -> nat {
        self.single_count() + self.list_count()
    }

    /// How many of the single-value fields are present.
    pub open spec fn single_count(self) -> nat {
        flag(self.float is Some) + flag(self.int is Some) + flag(self.string_bytes is Some) + flag(
            self.tensor is Some,
        ) + flag(self.graph is Some)
    }

    /// How many of the list-value fields are present.
    pub open spec fn list_count(self) -> nat {
        flag(self.floats is Some) + flag(self.ints is Some) + flag(self.strings is Some) + flag(
            self.tensors is Some,
        ) + flag(self.graphs is Some)
    }

    /// The attribute value of the one present field, with the string field
    /// decoded as UTF-8.
    pub open spec fn single_value(self) -> AttributeValueSpec {
        if self.float is Some {
            AttributeValueSpec::Float(self.float->0)
        } else if self.int is Some {
            AttributeValueSpec::Int(self.int->0)
        } else if self.string_bytes is Some {
            AttributeValueSpec::String(decode_utf8(self.string_bytes->0))
        } else if self.tensor is Some {
            AttributeValueSpec::Tensor(self.tensor->0)
        } else if self.graph is Some {
            AttributeValueSpec::Graph(self.graph->0)
        } else if self.floats is Some {
            AttributeValueSpec::Floats(self.floats->0)
        } else if self.ints is Some {
            AttributeValueSpec::Ints(self.ints->0)
        } else if self.strings is Some {
            AttributeValueSpec::Strings(self.strings->0)
        } else if self.tensors is Some {
            AttributeValueSpec::Tensors(self.tensors->0)
        } else {
            AttributeValueSpec::Graphs(self.graphs->0)
        }
    }
}

/// Mathematical model of [`AttributeError`].
pub enum AttributeErrorSpec {
    ConflictingValues { name: Seq<char> },
    NoValue { name: Seq<char> },
    InvalidUtf8String(Seq<char>),
}

/// Why a set of attribute fields does not make an attribute.
#[derive(Debug, PartialEq)]
pub enum AttributeError {
    ConflictingValues { name: String },
    NoValue { name: String },
    InvalidUtf8String(String),
}

impl DeepView for AttributeError {
    type V = AttributeErrorSpec;

    open spec fn deep_view(&self) -> AttributeErrorSpec {
        match self {
            AttributeError::ConflictingValues { name } => AttributeErrorSpec::ConflictingValues {
                name: name@,
            },
            AttributeError::NoValue { name } => AttributeErrorSpec::NoValue { name: name@ },
            AttributeError::InvalidUtf8String(name) => AttributeErrorSpec::InvalidUtf8String(
                name@,
            ),
        }
    }
}

impl Clone for AttributeError {
    fn clone(&self) -> (r: Self)
        ensures
            r.deep_view() == self.deep_view(),
    {
        match self {
            AttributeError::ConflictingValues { name } => AttributeError::ConflictingValues {
                name: name.clone(),
            },
            AttributeError::NoValue { name } => AttributeError::NoValue { name: name.clone() },
            AttributeError::InvalidUtf8String(name) => AttributeError::InvalidUtf8String(
                name.clone(),
            ),
        }
    }
}

/// The text of an attribute error.
pub open spec fn attribute_error_text(e: AttributeErrorSpec) -> Seq<char> {
    match e {
        AttributeErrorSpec::ConflictingValues { name } => "attribute "@ + debug_quoted(name)
            + " has more than one value field set"@,
        AttributeErrorSpec::NoValue { name } => "attribute "@ + debug_quoted(name)
            + " has no value field set"@,
        AttributeErrorSpec::InvalidUtf8String(name) => "attribute "@ + debug_quoted(name)
            + " string value is not valid UTF-8"@,
    }
}

impl AttributeError {
    /// The error as text.
    pub fn message(&self) -> (r: String)
        ensures
            r@ == attribute_error_text(self.deep_view()),
    {
        let mut m = String::from_str("attribute ");
        match self {
            AttributeError::ConflictingValues { name } => {
                push_str(&mut m, quoted(name.as_str()).as_str());
                push_str(&mut m, " has more than one value field set");
            },
            AttributeError::NoValue { name } => {
                push_str(&mut m, quoted(name.as_str()).as_str());
                push_str(&mut m, " has no value field set");
            },
            AttributeError::InvalidUtf8String(name) => {
                push_str(&mut m, quoted(name.as_str()).as_str());
                push_str(&mut m, " string value is not valid UTF-8");
            },
        }
        m
    }
}

/// One for a present field, zero for an absent one.
#[verifier::opaque]
pub open spec fn flag(present: bool) -> nat {
    if present {
        1
    } else {
        0
    }
}

fn flag_of(present: bool) -> (n: usize)
    ensures
        n == flag(present),
        n <= 1,
{
    proof {
        reveal(flag);
    }
    if present {
        1
    } else {
        0
    }
}

fn count_single(fields: &AttributeFields) -> (n: usize)
    ensures
        n == fields.deep_view().single_count(),
        n <= 5,
{
    let mut n: usize = flag_of(fields.float.is_some());
    n = n + flag_of(fields.int.is_some());
    n = n + flag_of(fields.string_bytes.is_some());
    n = n + flag_of(fields.tensor.is_some());
    n = n + flag_of(fields.graph.is_some());
    n
}

fn count_lists(fields: &AttributeFields) -> (n: usize)
    ensures
        n == fields.deep_view().list_count(),
        n <= 5,
{
    let mut n: usize = flag_of(fields.floats.is_some());
    n = n + flag_of(fields.ints.is_some());
    n = n + flag_of(fields.strings.is_some());
    n = n + flag_of(fields.tensors.is_some());
    n = n + flag_of(fields.graphs.is_some());
    n
}

/// What [`attribute_from_fields`] makes of a name and a set of fields.
pub open spec fn spec_attribute_from_fields(name: Seq<char>, f: AttributeFieldsSpec) -> Result<
    AttributeSpec,
    AttributeErrorSpec,
> {
    if f.present_count() > 1 {
        Err(AttributeErrorSpec::ConflictingValues { name })
    } else if f.present_count() == 0 {
        Err(AttributeErrorSpec::NoValue { name })
    } else if f.string_bytes is Some && !valid_utf8(f.string_bytes->0) {
        Err(AttributeErrorSpec::InvalidUtf8String(name))
    } else {
        Ok(spec_attribute(name, f.single_value()))
    }
}

/// Builds an attribute from its proto fields: exactly one field must be
/// present, and a string value must be valid UTF-8.
#[verifier::rlimit(50)]
pub fn attribute_from_fields(name: String, fields: AttributeFields) -> (r: Result<
    Attribute,
    AttributeError,
>)
    ensures
        match spec_attribute_from_fields(name@, fields.deep_view()) {
            Ok(a) => r matches Ok(x) && x.deep_view() == a,
            Err(e) => r matches Err(x) && x.deep_view() == e,
        },
{
    let count = count_single(&fields) + count_lists(&fields);
    proof {
        reveal(flag);
    }
    if count > 1 {
        return Err(AttributeError::ConflictingValues { name });
    }
    let value = if let Some(float_value) = fields.float {
        AttributeValue::Float(float_value)
    } else if let Some(int_value) = fields.int {
        AttributeValue::Int(int_value)
    } else if let Some(string_bytes) = fields.string_bytes {
        match utf8_strict(string_bytes) {
            Some(v) => AttributeValue::String(v),
            None => {
                return Err(AttributeError::InvalidUtf8String(name));
            },
        }
    } else if let Some(tensor) = fields.tensor {
        AttributeValue::Tensor(Box::new(tensor))
    } else if let Some(graph) = fields.graph {
        AttributeValue::Graph(graph)
    } else if let Some(v) = fields.floats {
        AttributeValue::Floats(v)
    } else if let Some(v) = fields.ints {
        AttributeValue::Ints(v)
    } else if let Some(v) = fields.strings {
        AttributeValue::Strings(v)
    } else if let Some(v) = fields.tensors {
        AttributeValue::Tensors(v)
    } else if let Some(v) = fields.graphs {
        AttributeValue::Graphs(v)
    } else {
        return Err(AttributeError::NoValue { name });
    };
    Ok(Attribute { name, value, doc_string: String::new() })
}

} // verus!
