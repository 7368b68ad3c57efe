//! In-memory model of a descriptor set: files holding messages, enums and
//! services.  The generator reads these read-only values and derives
//! bindings, attributes and code text from them.

use vstd::prelude::*;

verus! {

/// Cardinality label of a field as it appears in the descriptor.
#[derive(Clone, Copy, PartialEq, Eq, Structural, Debug)]
pub enum FieldLabel {
    Optional,
    Required,
    Repeated,
}

/// The declared type class of a field.  Only the classes the generator
/// distinguishes are kept; every remaining scalar kind is `Other`.
#[derive(Clone, Copy, PartialEq, Eq, Structural, Debug)]
pub enum FieldType {
    /// An enum-typed field.
    Enum,
    /// An embedded message field.
    Message,
    /// A string-typed field.
    Text,
    /// Any other scalar or well-known type.
    Other,
}

/// A field of a message: wire name (word_case), declared type class,
/// cardinality label, the explicit-optional flag, and for enum and message
/// fields the dotted type reference (possibly with a leading `.`).
#[derive(Clone, Debug)]
pub struct FieldDescriptor {
    pub name: String,
    pub field_type: FieldType,
    pub label: FieldLabel,
    pub proto3_optional: bool,
    pub type_ref: String,
}

/// One symbolic name of an enum together with its wire integer value.
#[derive(Clone, Debug)]
pub struct EnumValue {
    pub name: String,
    pub number: i32,
}

/// An enum type: its TypeCase name and its ordered (name, value) pairs.
/// Integer values need not be distinct; the symbolic names are.
#[derive(Clone, Debug)]
pub struct EnumDescriptor {
    pub name: String,
    pub values: Vec<EnumValue>,
}

/// A message type: name, ordered fields, nested messages and nested enums.
#[derive(Debug)]
pub struct MessageDescriptor {
    pub name: String,
    pub fields: Vec<FieldDescriptor>,
    pub nested: Vec<MessageDescriptor>,
    pub enums: Vec<EnumDescriptor>,
}

/// One RPC method: Rust-style name, wire name, and the input and output
/// type names used by the generated code.
#[derive(Clone, Debug)]
pub struct MethodDescriptor {
    pub name: String,
    pub proto_name: String,
    pub input_type: String,
    pub output_type: String,
}

/// One service: Rust-style name, wire name, owning package and methods.
#[derive(Clone, Debug)]
pub struct ServiceDescriptor {
    pub name: String,
    pub proto_name: String,
    pub package: String,
    pub methods: Vec<MethodDescriptor>,
}

/// One descriptor file: package name, top-level messages, top-level enums
/// and services.
#[derive(Debug)]
pub struct FileDescriptor {
    pub package: String,
    pub messages: Vec<MessageDescriptor>,
    pub enums: Vec<EnumDescriptor>,
    pub services: Vec<ServiceDescriptor>,
}

/// Cardinality class of a generated enum codec.
#[derive(Clone, Copy, PartialEq, Eq, Structural, Debug)]
pub enum Cardinality {
    Single,
    Optional,
    Repeated,
}

/// The cardinality class derived from a field's label and explicit-optional
/// flag: `repeated` fields are `Repeated`, label-optional fields with the
/// explicit-optional flag are `Optional`, everything else is `Single`.
pub open spec fn card_of(f: FieldDescriptor) -> Cardinality {
    match f.label {
        FieldLabel::Repeated => Cardinality::Repeated,
        FieldLabel::Optional => if f.proto3_optional {
            Cardinality::Optional
        } else {
            Cardinality::Single
        },
        FieldLabel::Required => Cardinality::Single,
    }
}

/// Derive the codec cardinality of a field.
pub fn cardinality_of(f: &FieldDescriptor) -> (c: Cardinality)
    ensures
        c == card_of(*f),
{
    match f.label {
        FieldLabel::Repeated => Cardinality::Repeated,
        FieldLabel::Optional => if f.proto3_optional {
            Cardinality::Optional
        } else {
            Cardinality::Single
        },
        FieldLabel::Required => Cardinality::Single,
    }
}

/// The cardinality label used in binding listings: `Single`, `Option` or
/// `Repeated`.
pub fn cardinality_label(c: Cardinality) -> (r: &'static str)
    ensures
        c is Single ==> r@ == "Single"@,
        c is Optional ==> r@ == "Option"@,
        c is Repeated ==> r@ == "Repeated"@,
{
    match c {
        Cardinality::Single => "Single",
        Cardinality::Optional => "Option",
        Cardinality::Repeated => "Repeated",
    }
}

/// An enum descriptor is well formed when its symbolic names are pairwise
/// distinct (the source format guarantees this; integer values may repeat).
pub open spec fn enum_wf(e: EnumDescriptor) -> bool {
    forall|i: int, j: int|
        0 <= i < j < e.values.len() ==> e.values[i].name@ != e.values[j].name@
}

/// A derived binding of one enum-typed field: its globally unique
/// identifier, the resolved enum type path, and its cardinality class.
#[derive(Clone, Debug)]
pub struct FieldBinding {
    pub field_id: String,
    pub enum_type_path: String,
    pub cardinality: Cardinality,
}

/// The mathematical content of a `FieldBinding`.
pub ghost struct FieldBindingModel {
    pub field_id: Seq<char>,
    pub enum_type_path: Seq<char>,
    pub cardinality: Cardinality,
}

impl View for FieldBinding {
    type V = FieldBindingModel;

    open spec fn view(&self) -> FieldBindingModel {
        FieldBindingModel {
            field_id: self.field_id@,
            enum_type_path: self.enum_type_path@,
            cardinality: self.cardinality,
        }
    }
}

impl DeepView for FieldBinding {
    type V = FieldBindingModel;

    open spec fn deep_view(&self) -> FieldBindingModel {
        self.view()
    }
}

} // verus!
