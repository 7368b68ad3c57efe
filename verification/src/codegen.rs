//! Emission of the per-field enum codec source text.
//!
//! For every `FieldBinding` the generator emits a dedicated pair of
//! serialize/deserialize functions, named after the binding's unique field
//! identifier and bound to the binding's specific enum type.  A fragment
//! that does not lex as Rust tokens is a generation-time error: the build
//! must fail rather than emit broken code.

use vstd::prelude::*;

use crate::descriptor::{Cardinality, FieldBinding, FieldBindingModel, FileDescriptor};
use crate::extract::{
    all_enum_paths_from, extract_all_enum_types, extract_package_enum_fields, models,
    package_bindings_from, string_views,
};

verus! {

// ---------------------------------------------------------------------------
// Function names.
// ---------------------------------------------------------------------------

/// The name of the serializer bound to field `id` at cardinality `c`.
pub open spec fn ser_fn_name(c: Cardinality, id: Seq<char>) -> Seq<char> {
    match c {
        Cardinality::Single => "serialize_"@ + id + "_as_string"@,
        Cardinality::Optional => "serialize_option_"@ + id + "_as_string"@,
        Cardinality::Repeated => "serialize_repeated_"@ + id + "_as_string"@,
    }
}

/// The name of the deserializer bound to field `id` at cardinality `c`.
pub open spec fn deser_fn_name(c: Cardinality, id: Seq<char>) -> Seq<char> {
    match c {
        Cardinality::Single => "deserialize_"@ + id + "_from_string"@,
        Cardinality::Optional => "deserialize_option_"@ + id + "_from_string"@,
        Cardinality::Repeated => "deserialize_repeated_"@ + id + "_from_string"@,
    }
}

/// Build the serializer function name for a field.
pub fn serializer_fn_name(c: Cardinality, field_id: &str) -> (r: String)
    ensures
        r@ == ser_fn_name(c, field_id@),
{
    let mut out = String::new();
    match c {
        Cardinality::Single => out.append("serialize_"),
        Cardinality::Optional => out.append("serialize_option_"),
        Cardinality::Repeated => out.append("serialize_repeated_"),
    }
    out.append(field_id);
    out.append("_as_string");
    proof {
        assert(out@ =~= ser_fn_name(c, field_id@));
    }
    out
}

/// Build the deserializer function name for a field.
pub fn deserializer_fn_name(c: Cardinality, field_id: &str) -> (r: String)
    ensures
        r@ == deser_fn_name(c, field_id@),
{
    let mut out = String::new();
    match c {
        Cardinality::Single => out.append("deserialize_"),
        Cardinality::Optional => out.append("deserialize_option_"),
        Cardinality::Repeated => out.append("deserialize_repeated_"),
    }
    out.append(field_id);
    out.append("_from_string");
    proof {
        assert(out@ =~= deser_fn_name(c, field_id@));
    }
    out
}

// ---------------------------------------------------------------------------
// Code templates.  Every template takes the field identifier and the
// resolved enum type path at the same five splice points:
// name(id), body(path), name(id), body(path), stringify(path).
// ---------------------------------------------------------------------------

/// The text `a ++ id ++ b ++ path ++ c ++ id ++ d ++ path ++ e ++ path ++ f`.
pub open spec fn spliced(
    a: Seq<char>,
    b: Seq<char>,
    c: Seq<char>,
    d: Seq<char>,
    e: Seq<char>,
    f: Seq<char>,
    id: Seq<char>,
    path: Seq<char>,
) -> Seq<char> {
    a + id + b + path + c + id + d + path + e + path + f
}

fn splice(
    a: &str,
    b: &str,
    c: &str,
    d: &str,
    e: &str,
    f: &str,
    id: &str,
    path: &str,
) -> (r: String)
    ensures
        r@ == spliced(a@, b@, c@, d@, e@, f@, id@, path@),
{
    let mut out = String::new();
    out.append(a);
    out.append(id);
    out.append(b);
    out.append(path);
    out.append(c);
    out.append(id);
    out.append(d);
    out.append(path);
    out.append(e);
    out.append(path);
    out.append(f);
    proof {
        assert(out@ =~= spliced(a@, b@, c@, d@, e@, f@, id@, path@));
    }
    out
}

pub const SINGLE_A: &'static str = "#[allow(dead_code)]\npub fn serialize_";

pub const SINGLE_B: &'static str =
    "_as_string<S>(value: &i32, serializer: S) -> Result<S::Ok, S::Error>\nwhere\n    S: serde::Serializer,\n{\n    use serde::Serialize;\n    if let Ok(enum_val) = ";

pub const SINGLE_C: &'static str =
    "::try_from(*value) {\n        enum_val.as_str_name().serialize(serializer)\n    } else {\n        value.serialize(serializer)\n    }\n}\n\n#[allow(dead_code)]\npub fn deserialize_";

pub const SINGLE_D: &'static str =
    "_from_string<'de, D>(deserializer: D) -> Result<i32, D::Error>\nwhere\n    D: serde::Deserializer<'de>,\n{\n    use serde::Deserialize;\n    #[derive(Deserialize)]\n    #[serde(untagged)]\n    #[allow(dead_code)]\n    enum EnumOrString {\n        String(String),\n        Int(i32),\n    }\n    match EnumOrString::deserialize(deserializer)? {\n        EnumOrString::String(s) => {\n            if let Some(enum_val) = ";

pub const SINGLE_E: &'static str =
    "::from_str_name(&s) {\n                Ok(enum_val as i32)\n            } else {\n                Err(serde::de::Error::custom(format!(\"Unknown enum value for {}: {}\", stringify!(";

pub const SINGLE_F: &'static str =
    "), s)))\n            }\n        }\n        EnumOrString::Int(i) => Ok(i),\n    }\n}\n\n";

pub const OPTION_A: &'static str = "#[allow(dead_code)]\npub fn serialize_option_";

pub const OPTION_B: &'static str =
    "_as_string<S>(value: &Option<i32>, serializer: S) -> Result<S::Ok, S::Error>\nwhere\n    S: serde::Serializer,\n{\n    use serde::Serialize;\n    match value {\n        Some(val) => {\n            if let Ok(enum_val) = ";

pub const OPTION_C: &'static str =
    "::try_from(*val) {\n                Some(enum_val.as_str_name()).serialize(serializer)\n            } else {\n                Some(*val).serialize(serializer)\n            }\n        }\n        None => None::<&str>.serialize(serializer),\n    }\n}\n\n#[allow(dead_code)]\npub fn deserialize_option_";

pub const OPTION_D: &'static str =
    "_from_string<'de, D>(deserializer: D) -> Result<Option<i32>, D::Error>\nwhere\n    D: serde::Deserializer<'de>,\n{\n    use serde::Deserialize;\n    #[derive(Deserialize)]\n    #[serde(untagged)]\n    #[allow(dead_code)]\n    enum OptionalEnumOrString {\n        String(String),\n        Int(i32),\n        None,\n    }\n    match Option::<OptionalEnumOrString>::deserialize(deserializer)? {\n        Some(OptionalEnumOrString::String(s)) => {\n            if let Some(enum_val) = ";

pub const OPTION_E: &'static str =
    "::from_str_name(&s) {\n                Ok(Some(enum_val as i32))\n            } else {\n                Err(serde::de::Error::custom(format!(\"Unknown enum value for {}: {}\", stringify!(";

pub const OPTION_F: &'static str =
    "), s)))\n            }\n        }\n        Some(OptionalEnumOrString::Int(i)) => Ok(Some(i)),\n        Some(OptionalEnumOrString::None) | None => Ok(None),\n    }\n}\n\n";

pub const REPEATED_A: &'static str = "#[allow(dead_code)]\npub fn serialize_repeated_";

pub const REPEATED_B: &'static str =
    "_as_string<S>(values: &[i32], serializer: S) -> Result<S::Ok, S::Error>\nwhere\n    S: serde::Serializer,\n{\n    use serde::Serialize;\n    let string_values: Vec<_> = values.iter().map(|val| {\n        if let Ok(enum_val) = ";

pub const REPEATED_C: &'static str =
    "::try_from(*val) {\n            enum_val.as_str_name().to_string()\n        } else {\n            val.to_string()\n        }\n    }).collect();\n    string_values.serialize(serializer)\n}\n\n#[allow(dead_code)]\npub fn deserialize_repeated_";

pub const REPEATED_D: &'static str =
    "_from_string<'de, D>(deserializer: D) -> Result<Vec<i32>, D::Error>\nwhere\n    D: serde::Deserializer<'de>,\n{\n    use serde::Deserialize;\n    #[derive(Deserialize)]\n    #[serde(untagged)]\n    #[allow(dead_code)]\n    enum EnumOrStringItem {\n        String(String),\n        Int(i32),\n    }\n    let items: Vec<EnumOrStringItem> = Vec::deserialize(deserializer)?;\n    let mut result = Vec::with_capacity(items.len());\n    for item in items {\n        match item {\n            EnumOrStringItem::String(s) => {\n                if let Some(enum_val) = ";

pub const REPEATED_E: &'static str =
    "::from_str_name(&s) {\n                    result.push(enum_val as i32);\n                } else {\n                    return Err(serde::de::Error::custom(format!(\"Unknown enum value for {}: {}\", stringify!(";

pub const REPEATED_F: &'static str =
    "), s)));\n                }\n            }\n            EnumOrStringItem::Int(i) => {\n                result.push(i);\n            }\n        }\n    }\n    Ok(result)\n}\n\n";

/// The serializer/deserializer pair emitted for a single-cardinality field.
pub open spec fn single_fns_text(id: Seq<char>, path: Seq<char>) -> Seq<char> {
    spliced(SINGLE_A@, SINGLE_B@, SINGLE_C@, SINGLE_D@, SINGLE_E@, SINGLE_F@, id, path)
}

/// The serializer/deserializer pair emitted for an optional field.
pub open spec fn option_fns_text(id: Seq<char>, path: Seq<char>) -> Seq<char> {
    spliced(OPTION_A@, OPTION_B@, OPTION_C@, OPTION_D@, OPTION_E@, OPTION_F@, id, path)
}

/// The serializer/deserializer pair emitted for a repeated field.
pub open spec fn repeated_fns_text(id: Seq<char>, path: Seq<char>) -> Seq<char> {
    spliced(REPEATED_A@, REPEATED_B@, REPEATED_C@, REPEATED_D@, REPEATED_E@, REPEATED_F@, id, path)
}

/// The function pair emitted for one binding, by its cardinality.
pub open spec fn binding_fns_text(b: FieldBindingModel) -> Seq<char> {
    match b.cardinality {
        Cardinality::Single => single_fns_text(b.field_id, b.enum_type_path),
        Cardinality::Optional => option_fns_text(b.field_id, b.enum_type_path),
        Cardinality::Repeated => repeated_fns_text(b.field_id, b.enum_type_path),
    }
}

/// Emit the function pair for a single-cardinality field.
pub fn emit_single_enum_functions(field_id: &str, enum_path: &str) -> (r: String)
    ensures
        r@ == single_fns_text(field_id@, enum_path@),
{
    splice(SINGLE_A, SINGLE_B, SINGLE_C, SINGLE_D, SINGLE_E, SINGLE_F, field_id, enum_path)
}

/// Emit the function pair for an optional field.
pub fn emit_option_enum_functions(field_id: &str, enum_path: &str) -> (r: String)
    ensures
        r@ == option_fns_text(field_id@, enum_path@),
{
    splice(OPTION_A, OPTION_B, OPTION_C, OPTION_D, OPTION_E, OPTION_F, field_id, enum_path)
}

/// Emit the function pair for a repeated field.
pub fn emit_repeated_enum_functions(field_id: &str, enum_path: &str) -> (r: String)
    ensures
        r@ == repeated_fns_text(field_id@, enum_path@),
{
    splice(
        REPEATED_A,
        REPEATED_B,
        REPEATED_C,
        REPEATED_D,
        REPEATED_E,
        REPEATED_F,
        field_id,
        enum_path,
    )
}

// ---------------------------------------------------------------------------
// Fragment validation and generation-time errors.
// ---------------------------------------------------------------------------

/// Whether a piece of text lexes as a Rust token stream.
pub uninterp spec fn fragment_well_formed(s: Seq<char>) -> bool;

/// Relies on `proc_macro2::TokenStream::from_str`: the text parses as a
/// Rust token stream exactly when the parse succeeds, and the outcome
/// depends on the text alone.
#[verifier::external_body]
fn tokenizes(s: &str) -> (r: bool)
    ensures
        r == fragment_well_formed(s@),
{
    s.parse::<proc_macro2::TokenStream>().is_ok()
}

/// A generation-time failure; each one is fatal to the build.
#[derive(Clone, Debug, PartialEq, Eq)]
pub enum GenError {
    /// A resolved enum type path that does not lex as Rust tokens.
    InvalidEnumPath(String),
    /// A generated fragment that does not lex as Rust tokens.
    InvalidFragment,
}

/// The mathematical content of a `GenError`.
pub ghost enum GenErrorModel {
    InvalidEnumPath(Seq<char>),
    InvalidFragment,
}

impl View for GenError {
    type V = GenErrorModel;

    open spec fn view(&self) -> GenErrorModel {
        match self {
            GenError::InvalidEnumPath(p) => GenErrorModel::InvalidEnumPath(p@),
            GenError::InvalidFragment => GenErrorModel::InvalidFragment,
        }
    }
}

impl GenError {
    /// The error text reported when generation fails.
    pub fn message(&self) -> (r: String)
        ensures
            self@ matches GenErrorModel::InvalidEnumPath(p) ==> r@ == "Invalid enum type path: "@
                + p,
            self@ is InvalidFragment ==> r@
                == "Generated enum functions are not valid Rust syntax"@,
    {
        match self {
            GenError::InvalidEnumPath(p) => {
                let mut out = String::new();
                out.append("Invalid enum type path: ");
                out.append(p.as_str());
                proof {
                    assert(out@ =~= "Invalid enum type path: "@ + p@);
                }
                out
            },
            GenError::InvalidFragment => {
                let mut out = String::new();
                out.append("Generated enum functions are not valid Rust syntax");
                proof {
                    assert(out@ =~= "Generated enum functions are not valid Rust syntax"@);
                }
                out
            },
        }
    }
}

/// The enum type path of the first binding in `bs[k..]` whose path does not
/// lex, if any.
pub open spec fn first_invalid_path_from(bs: Seq<FieldBindingModel>, k: int) -> Option<Seq<char>>
    decreases bs.len() - k,
{
    if k < 0 || k >= bs.len() {
        None
    } else if !fragment_well_formed(bs[k].enum_type_path) {
        Some(bs[k].enum_type_path)
    } else {
        first_invalid_path_from(bs, k + 1)
    }
}

/// The concatenated function pairs of the bindings `bs[k..]`.
pub open spec fn functions_text_from(bs: Seq<FieldBindingModel>, k: int) -> Seq<char>
    decreases bs.len() - k,
{
    if k < 0 || k >= bs.len() {
        Seq::empty()
    } else {
        binding_fns_text(bs[k]) + functions_text_from(bs, k + 1)
    }
}

/// Emit the dedicated serializer/deserializer pair for every binding, in
/// order.  Fails on the first binding whose resolved enum type path does
/// not lex as Rust tokens.
pub fn emit_field_specific_enum_functions(bindings: &Vec<FieldBinding>) -> (r: Result<
    String,
    GenError,
>)
    ensures
        match r {
            Ok(t) => first_invalid_path_from(models(bindings@), 0) is None && t@
                == functions_text_from(models(bindings@), 0),
            Err(e) => e@ matches GenErrorModel::InvalidEnumPath(p) && first_invalid_path_from(
                models(bindings@),
                0,
            ) == Some(p),
        },
{
    let ghost bs = models(bindings@);
    let mut out = String::new();
    let mut k: usize = 0;
    while k < bindings.len()
        invariant
            k <= bindings.len(),
            bs == models(bindings@),
            bs.len() == bindings.len(),
            first_invalid_path_from(bs, 0) == first_invalid_path_from(bs, k as int),
            functions_text_from(bs, 0) == out@ + functions_text_from(bs, k as int),
        decreases bindings.len() - k,
    {
        let ghost out0 = out@;
        let b = &bindings[k];
        if !tokenizes(b.enum_type_path.as_str()) {
            return Err(GenError::InvalidEnumPath(b.enum_type_path.clone()));
        }
        let text = match b.cardinality {
            Cardinality::Single => emit_single_enum_functions(
                b.field_id.as_str(),
                b.enum_type_path.as_str(),
            ),
            Cardinality::Optional => emit_option_enum_functions(
                b.field_id.as_str(),
                b.enum_type_path.as_str(),
            ),
            Cardinality::Repeated => emit_repeated_enum_functions(
                b.field_id.as_str(),
                b.enum_type_path.as_str(),
            ),
        };
        out.append(text.as_str());
        proof {
            assert(out@ == out0 + binding_fns_text(bs[k as int]));
            assert(out0 + functions_text_from(bs, k as int) =~= out@ + functions_text_from(
                bs,
                k as int + 1,
            ));
        }
        k = k + 1;
    }
    proof {
        assert(functions_text_from(bs, 0) =~= out@);
    }
    Ok(out)
}

// ---------------------------------------------------------------------------
// The per-package codec module.
// ---------------------------------------------------------------------------

pub const MODULE_HEAD: &'static str = "pub mod enum_deserializer {\n    use super::*;\n\n";

pub const MODULE_TAIL: &'static str = "}\n";

/// The full `enum_deserializer` module text for a set of bindings.
pub open spec fn deserializer_module_text(bs: Seq<FieldBindingModel>) -> Seq<char> {
    MODULE_HEAD@ + functions_text_from(bs, 0) + MODULE_TAIL@
}

/// Emit the per-package `enum_deserializer` module holding the
/// field-specific codec pair of every enum field of `target_package`.
/// A package without enum fields gets no module (empty text).  Fails when a
/// resolved enum type path or the assembled fragment does not lex.
pub fn generate_package_specific_enum_deserializer_code(
    files: &Vec<FileDescriptor>,
    target_package: &str,
) -> (r: Result<String, GenError>)
    ensures
        ({
            let bs = package_bindings_from(files@, target_package@, 0);
            match r {
                Ok(t) => {
                    &&& (bs.len() == 0 ==> t@ == Seq::<char>::empty())
                    &&& (bs.len() > 0 ==> {
                        &&& first_invalid_path_from(bs, 0) is None
                        &&& fragment_well_formed(functions_text_from(bs, 0))
                        &&& t@ == deserializer_module_text(bs)
                    })
                },
                Err(e) => {
                    &&& bs.len() > 0
                    &&& match e@ {
                        GenErrorModel::InvalidEnumPath(p) => first_invalid_path_from(bs, 0)
                            == Some(p),
                        GenErrorModel::InvalidFragment => first_invalid_path_from(bs, 0) is None
                            && !fragment_well_formed(functions_text_from(bs, 0)),
                    }
                },
            }
        }),
{
    let bindings = extract_package_enum_fields(files, target_package);
    if bindings.len() == 0 {
        return Ok(String::new());
    }
    let fns = match emit_field_specific_enum_functions(&bindings) {
        Ok(t) => t,
        Err(e) => {
            return Err(e);
        },
    };
    if !tokenizes(fns.as_str()) {
        return Err(GenError::InvalidFragment);
    }
    let mut out = String::new();
    out.append(MODULE_HEAD);
    out.append(fns.as_str());
    out.append(MODULE_TAIL);
    proof {
        assert(out@ =~= deserializer_module_text(models(bindings@)));
    }
    Ok(out)
}

// ---------------------------------------------------------------------------
// The package-wide enum listing module.  This is the discarded
// "try every known enum in declaration order" design: a shared codec that
// scans all enum types and takes the first match, which can attach the
// wrong enum's name when integer values collide.  It is kept only behind
// its own entry point; the generator itself emits the field-specific
// codecs above.
// ---------------------------------------------------------------------------

pub const PARSE_MACRO_HEAD: &'static str =
    "macro_rules! try_parse_all_enums {\n    ($s:expr) => {\n        {\n";

pub const PARSE_ITEM_A: &'static str = "            if let Some(val) = ";

pub const PARSE_ITEM_B: &'static str =
    "::from_str_name($s) {\n                return Some(val as i32);\n            }\n";

pub const SER_MACRO_HEAD: &'static str =
    "macro_rules! try_serialize_all_enums {\n    ($value:expr) => {\n        {\n";

pub const SER_ITEM_A: &'static str = "            if let Ok(enum_val) = ";

pub const SER_ITEM_B: &'static str =
    "::try_from($value) {\n                return Some(enum_val.as_str_name());\n            }\n";

pub const MACRO_TAIL: &'static str = "            None\n        }\n    };\n}\n\n";

pub const GENERIC_CODECS: &'static str =
    "#[allow(dead_code)]\npub fn deserialize_enum_from_string<'de, D>(deserializer: D) -> Result<i32, D::Error>\nwhere\n    D: serde::Deserializer<'de>,\n{\n    use serde::Deserialize;\n    #[derive(Deserialize)]\n    #[serde(untagged)]\n    #[allow(dead_code)]\n    enum EnumOrString {\n        String(String),\n        Int(i32),\n    }\n    match EnumOrString::deserialize(deserializer)? {\n        EnumOrString::String(s) => {\n            fn try_parse_enum(s: &str) -> Option<i32> {\n                try_parse_all_enums!(s)\n            }\n            try_parse_enum(&s).ok_or_else(|| {\n                serde::de::Error::custom(format!(\"Unknown enum value: {}\", s))\n            })\n        }\n        EnumOrString::Int(i) => Ok(i),\n    }\n}\n\n#[allow(dead_code)]\npub fn deserialize_option_enum_from_string<'de, D>(deserializer: D) -> Result<Option<i32>, D::Error>\nwhere\n    D: serde::Deserializer<'de>,\n{\n    use serde::Deserialize;\n    #[derive(Deserialize)]\n    #[serde(untagged)]\n    #[allow(dead_code)]\n    enum OptionalEnumOrString {\n        String(String),\n        Int(i32),\n        None,\n    }\n    match Option::<OptionalEnumOrString>::deserialize(deserializer)? {\n        Some(OptionalEnumOrString::String(s)) => {\n            fn try_parse_enum(s: &str) -> Option<i32> {\n                try_parse_all_enums!(s)\n            }\n            try_parse_enum(&s)\n                .map(Some)\n                .ok_or_else(|| serde::de::Error::custom(format!(\"Unknown enum value: {}\", s)))\n        }\n        Some(OptionalEnumOrString::Int(i)) => Ok(Some(i)),\n        Some(OptionalEnumOrString::None) | None => Ok(None),\n    }\n}\n\n#[allow(dead_code)]\npub fn deserialize_repeated_enum_from_string<'de, D>(deserializer: D) -> Result<Vec<i32>, D::Error>\nwhere\n    D: serde::Deserializer<'de>,\n{\n    use serde::Deserialize;\n    #[derive(Deserialize)]\n    #[serde(untagged)]\n    #[allow(dead_code)]\n    enum EnumOrStringItem {\n        String(String),\n        Int(i32),\n    }\n    let items: Vec<EnumOrStringItem> = Vec::deserialize(deserializer)?;\n    let mut result = Vec::with_capacity(items.len());\n    for item in items {\n        match item {\n            EnumOrStringItem::String(s) => {\n                fn try_parse_enum(s: &str) -> Option<i32> {\n                    try_parse_all_enums!(s)\n                }\n                if let Some(enum_val) = try_parse_enum(&s) {\n                    result.push(enum_val);\n                } else {\n                    return Err(serde::de::Error::custom(format!(\"Unknown enum value: {}\", s)));\n                }\n            }\n            EnumOrStringItem::Int(i) => {\n                result.push(i);\n            }\n        }\n    }\n    Ok(result)\n}\n\n#[allow(dead_code)]\npub fn serialize_enum_as_string<S>(value: &i32, serializer: S) -> Result<S::Ok, S::Error>\nwhere\n    S: serde::Serializer,\n{\n    use serde::Serialize;\n    fn try_enum_to_string(value: i32) -> Option<&'static str> {\n        try_serialize_all_enums!(value)\n    }\n    if let Some(enum_str) = try_enum_to_string(*value) {\n        enum_str.serialize(serializer)\n    } else {\n        value.serialize(serializer)\n    }\n}\n\n#[allow(dead_code)]\npub fn serialize_option_enum_as_string<S>(value: &Option<i32>, serializer: S) -> Result<S::Ok, S::Error>\nwhere\n    S: serde::Serializer,\n{\n    use serde::Serialize;\n    fn try_enum_to_string(value: i32) -> Option<&'static str> {\n        try_serialize_all_enums!(value)\n    }\n    match value {\n        Some(val) => {\n            if let Some(enum_str) = try_enum_to_string(*val) {\n                Some(enum_str).serialize(serializer)\n            } else {\n                Some(*val).serialize(serializer)\n            }\n        }\n        None => None::<&str>.serialize(serializer),\n    }\n}\n\n#[allow(dead_code)]\npub fn serialize_repeated_enum_as_string<S>(values: &[i32], serializer: S) -> Result<S::Ok, S::Error>\nwhere\n    S: serde::Serializer,\n{\n    use serde::Serialize;\n    fn try_enum_to_string(value: i32) -> Option<&'static str> {\n        try_serialize_all_enums!(value)\n    }\n    let string_values: Vec<_> = values.iter().map(|val| {\n        if let Some(enum_str) = try_enum_to_string(*val) {\n            enum_str.to_string()\n        } else {\n            val.to_string()\n        }\n    }).collect();\n    string_values.serialize(serializer)\n}\n";

/// The arm of the try-parse macro for the enum paths `paths[k..]`.
pub open spec fn parse_macro_items_from(paths: Seq<Seq<char>>, k: int) -> Seq<char>
    decreases paths.len() - k,
{
    if k < 0 || k >= paths.len() {
        Seq::empty()
    } else {
        PARSE_ITEM_A@ + paths[k] + PARSE_ITEM_B@ + parse_macro_items_from(paths, k + 1)
    }
}

/// The arm of the try-serialize macro for the enum paths `paths[k..]`.
pub open spec fn ser_macro_items_from(paths: Seq<Seq<char>>, k: int) -> Seq<char>
    decreases paths.len() - k,
{
    if k < 0 || k >= paths.len() {
        Seq::empty()
    } else {
        SER_ITEM_A@ + paths[k] + SER_ITEM_B@ + ser_macro_items_from(paths, k + 1)
    }
}

/// The body of the package-wide listing module: the two macros that try
/// every enum in declaration order, then the shared codecs that use them.
pub open spec fn generic_module_inner(paths: Seq<Seq<char>>) -> Seq<char> {
    PARSE_MACRO_HEAD@ + parse_macro_items_from(paths, 0) + MACRO_TAIL@ + SER_MACRO_HEAD@
        + ser_macro_items_from(paths, 0) + MACRO_TAIL@ + GENERIC_CODECS@
}

/// The full package-wide listing module.
pub open spec fn generic_module_text(paths: Seq<Seq<char>>) -> Seq<char> {
    MODULE_HEAD@ + generic_module_inner(paths) + MODULE_TAIL@
}

/// The first path in `paths[k..]` that does not lex as Rust tokens.
pub open spec fn first_invalid_in(paths: Seq<Seq<char>>, k: int) -> Option<Seq<char>>
    decreases paths.len() - k,
{
    if k < 0 || k >= paths.len() {
        None
    } else if !fragment_well_formed(paths[k]) {
        Some(paths[k])
    } else {
        first_invalid_in(paths, k + 1)
    }
}

/// Emit the package-wide `enum_deserializer` module that lists every enum
/// type of `files` and dispatches by scanning the list.  Fails when an enum
/// type path or the assembled fragment does not lex.
pub fn generate_enum_deserializer_code(files: &Vec<FileDescriptor>) -> (r: Result<
    String,
    GenError,
>)
    ensures
        ({
            let paths = all_enum_paths_from(files@, 0);
            match r {
                Ok(t) => {
                    &&& first_invalid_in(paths, 0) is None
                    &&& fragment_well_formed(generic_module_inner(paths))
                    &&& t@ == generic_module_text(paths)
                },
                Err(e) => match e@ {
                    GenErrorModel::InvalidEnumPath(p) => first_invalid_in(paths, 0) == Some(p),
                    GenErrorModel::InvalidFragment => first_invalid_in(paths, 0) is None
                        && !fragment_well_formed(generic_module_inner(paths)),
                },
            }
        }),
{
    let enum_types = extract_all_enum_types(files);
    let ghost paths = all_enum_paths_from(files@, 0);
    proof {
        assert(paths == string_views(enum_types@));
    }
    let mut parse_items = String::new();
    let mut ser_items = String::new();
    let mut k: usize = 0;
    while k < enum_types.len()
        invariant
            k <= enum_types.len(),
            paths == string_views(enum_types@),
            paths == all_enum_paths_from(files@, 0),
            paths.len() == enum_types.len(),
            first_invalid_in(paths, 0) == first_invalid_in(paths, k as int),
            parse_macro_items_from(paths, 0) == parse_items@ + parse_macro_items_from(
                paths,
                k as int,
            ),
            ser_macro_items_from(paths, 0) == ser_items@ + ser_macro_items_from(paths, k as int),
        decreases enum_types.len() - k,
    {
        let ghost parse0 = parse_items@;
        let ghost ser0 = ser_items@;
        let p = &enum_types[k];
        if !tokenizes(p.as_str()) {
            proof {
                assert(paths[k as int] == enum_types@[k as int]@);
                assert(first_invalid_in(paths, k as int) == Some(paths[k as int]));
            }
            return Err(GenError::InvalidEnumPath(p.clone()));
        }
        parse_items.append(PARSE_ITEM_A);
        parse_items.append(p.as_str());
        parse_items.append(PARSE_ITEM_B);
        ser_items.append(SER_ITEM_A);
        ser_items.append(p.as_str());
        ser_items.append(SER_ITEM_B);
        proof {
            assert(parse0 + parse_macro_items_from(paths, k as int) =~= parse_items@
                + parse_macro_items_from(paths, k as int + 1));
            assert(ser0 + ser_macro_items_from(paths, k as int) =~= ser_items@
                + ser_macro_items_from(paths, k as int + 1));
        }
        k = k + 1;
    }
    let mut inner = String::new();
    inner.append(PARSE_MACRO_HEAD);
    inner.append(parse_items.as_str());
    inner.append(MACRO_TAIL);
    inner.append(SER_MACRO_HEAD);
    inner.append(ser_items.as_str());
    inner.append(MACRO_TAIL);
    inner.append(GENERIC_CODECS);
    proof {
        assert(inner@ =~= generic_module_inner(paths));
    }
    if !tokenizes(inner.as_str()) {
        return Err(GenError::InvalidFragment);
    }
    let mut out = String::new();
    out.append(MODULE_HEAD);
    out.append(inner.as_str());
    out.append(MODULE_TAIL);
    proof {
        assert(out@ =~= generic_module_text(paths));
    }
    Ok(out)
}

} // verus!
