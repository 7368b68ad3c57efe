//! Field attribute assignment: the omission annotator that hides
//! absent/empty values from JSON output, and the serde attributes that hook
//! each enum field to its dedicated codec pair.

use vstd::prelude::*;

use crate::codegen::{deser_fn_name, deserializer_fn_name, ser_fn_name, serializer_fn_name};
use crate::descriptor::{
    Cardinality, FieldDescriptor, FieldLabel, FieldType, FileDescriptor, MessageDescriptor,
    card_of, cardinality_of,
};
use crate::extract::child_path;
use crate::naming::{to_word_case, word_case};

verus! {

/// A field attribute to hand to the code generator configuration: the
/// `Message.field` path it applies to and the attribute text.
#[derive(Clone, Debug, PartialEq, Eq)]
pub struct FieldAttribute {
    pub path: String,
    pub attribute: String,
}

/// The mathematical content of a `FieldAttribute`.
pub ghost struct FieldAttributeModel {
    pub path: Seq<char>,
    pub attribute: Seq<char>,
}

impl View for FieldAttribute {
    type V = FieldAttributeModel;

    open spec fn view(&self) -> FieldAttributeModel {
        FieldAttributeModel { path: self.path@, attribute: self.attribute@ }
    }
}

/// The views of a sequence of field attributes.
pub open spec fn attr_models(v: Seq<FieldAttribute>) -> Seq<FieldAttributeModel> {
    v.map_values(|a: FieldAttribute| a@)
}

/// The `Message.field` path an attribute is keyed by.
pub open spec fn field_path(message_name: Seq<char>, field_name: Seq<char>) -> Seq<char> {
    message_name + "."@ + field_name
}

fn build_field_path(message_name: &str, field_name: &str) -> (r: String)
    ensures
        r@ == field_path(message_name@, field_name@),
{
    let mut out = String::new();
    out.append(message_name);
    out.append(".");
    out.append(field_name);
    proof {
        assert(out@ =~= field_path(message_name@, field_name@));
    }
    out
}

// ---------------------------------------------------------------------------
// Omission annotator.
// ---------------------------------------------------------------------------

pub const SKIP_NONE_ATTR: &'static str = "#[serde(skip_serializing_if = \"Option::is_none\")]";

pub const SKIP_EMPTY_ATTR: &'static str = "#[serde(skip_serializing_if = \"String::is_empty\")]";

/// The omission rule: explicit-optional fields and label-optional message
/// fields are omitted when absent; plain (non-repeated) string fields are
/// omitted when empty; no other field is annotated.
pub open spec fn skip_attr_spec(f: FieldDescriptor) -> Option<Seq<char>> {
    if f.proto3_optional || (f.label is Optional && f.field_type is Message) {
        Some(SKIP_NONE_ATTR@)
    } else if f.field_type is Text && !(f.label is Repeated) {
        Some(SKIP_EMPTY_ATTR@)
    } else {
        None
    }
}

/// Decide whether (and how) a present-but-empty value of `f` is omitted
/// from serialized output.
pub fn skip_attribute_for_field(f: &FieldDescriptor) -> (r: Option<&'static str>)
    ensures
        match r {
            Some(a) => skip_attr_spec(*f) == Some(a@),
            None => skip_attr_spec(*f) is None,
        },
{
    if f.proto3_optional || (matches!(f.label, FieldLabel::Optional) && matches!(
        f.field_type,
        FieldType::Message,
    )) {
        Some(SKIP_NONE_ATTR)
    } else if matches!(f.field_type, FieldType::Text) && !matches!(f.label, FieldLabel::Repeated) {
        Some(SKIP_EMPTY_ATTR)
    } else {
        None
    }
}

/// The skip attributes of the fields `fields[k..]` of message `name`.
pub open spec fn skip_attrs_of_fields(
    name: Seq<char>,
    fields: Seq<FieldDescriptor>,
    k: int,
) -> Seq<FieldAttributeModel>
    decreases fields.len() - k,
{
    if k < 0 || k >= fields.len() {
        Seq::empty()
    } else {
        let here = match skip_attr_spec(fields[k]) {
            Some(a) => seq![
                FieldAttributeModel { path: field_path(name, fields[k].name@), attribute: a },
            ],
            None => Seq::empty(),
        };
        here + skip_attrs_of_fields(name, fields, k + 1)
    }
}

/// The skip attributes of message `m` and of every message nested in it.
pub open spec fn skip_attrs_of_message(m: MessageDescriptor) -> Seq<FieldAttributeModel>
    decreases m, 1int,
{
    skip_attrs_of_fields(m.name@, m.fields@, 0) + skip_attrs_of_list(m.nested, 0)
}

/// The skip attributes of the messages `ms[k..]`.
pub open spec fn skip_attrs_of_list(ms: Vec<MessageDescriptor>, k: int) -> Seq<
    FieldAttributeModel,
>
    decreases ms, ms.len() - k, 0int,
{
    if k < 0 || k >= ms.len() {
        Seq::empty()
    } else {
        skip_attrs_of_message(ms[k as int]) + skip_attrs_of_list(ms, k + 1)
    }
}

/// The skip attributes of every message of the files `files[k..]`.
pub open spec fn skip_attrs_of_files(files: Seq<FileDescriptor>, k: int) -> Seq<
    FieldAttributeModel,
>
    decreases files.len() - k,
{
    if k < 0 || k >= files.len() {
        Seq::empty()
    } else {
        skip_attrs_of_list(files[k].messages, 0) + skip_attrs_of_files(files, k + 1)
    }
}

fn collect_skip_for_message(m: &MessageDescriptor, out: &mut Vec<FieldAttribute>)
    ensures
        attr_models(final(out)@) == attr_models(old(out)@) + skip_attrs_of_message(*m),
    decreases *m,
{
    let ghost orig = attr_models(out@);
    let mut k: usize = 0;
    while k < m.fields.len()
        invariant
            k <= m.fields.len(),
            attr_models(out@) + skip_attrs_of_fields(m.name@, m.fields@, k as int) == orig
                + skip_attrs_of_fields(m.name@, m.fields@, 0),
        decreases m.fields.len() - k,
    {
        let ghost before = attr_models(out@);
        let f = &m.fields[k];
        match skip_attribute_for_field(f) {
            Some(a) => {
                let mut attribute = String::new();
                attribute.append(a);
                out.push(
                    FieldAttribute {
                        path: build_field_path(m.name.as_str(), f.name.as_str()),
                        attribute,
                    },
                );
                proof {
                    assert(attr_models(out@) =~= before + seq![
                        FieldAttributeModel {
                            path: field_path(m.name@, m.fields@[k as int].name@),
                            attribute: skip_attr_spec(m.fields@[k as int])->Some_0,
                        },
                    ]);
                }
            },
            None => {},
        }
        proof {
            assert(attr_models(out@) + skip_attrs_of_fields(m.name@, m.fields@, k as int + 1) =~=
                before + skip_attrs_of_fields(m.name@, m.fields@, k as int));
        }
        k = k + 1;
    }
    let ghost mid = attr_models(out@);
    let mut j: usize = 0;
    while j < m.nested.len()
        invariant
            j <= m.nested.len(),
            attr_models(out@) + skip_attrs_of_list(m.nested, j as int) == mid + skip_attrs_of_list(
                m.nested,
                0,
            ),
        decreases m.nested.len() - j,
    {
        let ghost before = attr_models(out@);
        collect_skip_for_message(&m.nested[j], out);
        proof {
            assert(attr_models(out@) + skip_attrs_of_list(m.nested, j as int + 1) =~= before
                + skip_attrs_of_list(m.nested, j as int));
        }
        j = j + 1;
    }
    proof {
        assert(attr_models(out@) =~= orig + skip_attrs_of_message(*m));
    }
}

/// Collect the skip attribute of every field of every message in `files`.
pub fn collect_skip_attributes(files: &Vec<FileDescriptor>) -> (r: Vec<FieldAttribute>)
    ensures
        attr_models(r@) == skip_attrs_of_files(files@, 0),
{
    let mut out: Vec<FieldAttribute> = Vec::new();
    let mut k: usize = 0;
    while k < files.len()
        invariant
            k <= files.len(),
            attr_models(out@) + skip_attrs_of_files(files@, k as int) == skip_attrs_of_files(
                files@,
                0,
            ),
        decreases files.len() - k,
    {
        let ghost before = attr_models(out@);
        let file = &files[k];
        let mut j: usize = 0;
        while j < file.messages.len()
            invariant
                j <= file.messages.len(),
                attr_models(out@) + skip_attrs_of_list(file.messages, j as int) == before
                    + skip_attrs_of_list(file.messages, 0),
            decreases file.messages.len() - j,
        {
            let ghost inner = attr_models(out@);
            collect_skip_for_message(&file.messages[j], &mut out);
            proof {
                assert(attr_models(out@) + skip_attrs_of_list(file.messages, j as int + 1) =~=
                    inner + skip_attrs_of_list(file.messages, j as int));
            }
            j = j + 1;
        }
        proof {
            assert(attr_models(out@) + skip_attrs_of_files(files@, k as int + 1) =~= before
                + skip_attrs_of_files(files@, k as int));
        }
        k = k + 1;
    }
    proof {
        assert(attr_models(out@) =~= skip_attrs_of_files(files@, 0));
    }
    out
}

// ---------------------------------------------------------------------------
// Enum-field codec attributes.
// ---------------------------------------------------------------------------

pub const ENUM_ATTR_SER: &'static str = "#[serde(serialize_with = \"";

pub const ENUM_ATTR_DESER: &'static str = "\", deserialize_with = \"";

pub const ENUM_ATTR_TAIL_DEFAULT: &'static str = "\", default)]";

pub const ENUM_ATTR_TAIL: &'static str = "\")]";

pub const DESER_PATH_NESTED: &'static str = "super::enum_deserializer";

pub const DESER_PATH_TOP: &'static str = "enum_deserializer";

/// The module path under which a message reaches the package's
/// `enum_deserializer` module: nested messages live one module down.
pub open spec fn deser_module_path(is_nested: bool) -> Seq<char> {
    if is_nested {
        DESER_PATH_NESTED@
    } else {
        DESER_PATH_TOP@
    }
}

/// Whether the serde attribute carries `default`: every label but
/// `required` does.
pub open spec fn enum_attr_default(f: FieldDescriptor) -> bool {
    !(f.label is Required)
}

/// The serde attribute text hooking field `f` (with identifier `field_id`)
/// to its codec pair.
pub open spec fn enum_attr_text(f: FieldDescriptor, field_id: Seq<char>, is_nested: bool) -> Seq<
    char,
> {
    let pfx = deser_module_path(is_nested);
    let tail = if enum_attr_default(f) {
        ENUM_ATTR_TAIL_DEFAULT@
    } else {
        ENUM_ATTR_TAIL@
    };
    ENUM_ATTR_SER@ + pfx + "::"@ + ser_fn_name(card_of(f), field_id) + ENUM_ATTR_DESER@ + pfx
        + "::"@ + deser_fn_name(card_of(f), field_id) + tail
}

/// Build the serde attribute for one enum field.
pub fn enum_field_attribute(
    message_path: &str,
    message_name: &str,
    f: &FieldDescriptor,
    is_nested: bool,
) -> (r: FieldAttribute)
    ensures
        r@.path == field_path(message_name@, f.name@),
        r@.attribute == enum_attr_text(*f, message_path@ + "_"@ + word_case(f.name@), is_nested),
{
    let mut field_id = String::new();
    field_id.append(message_path);
    field_id.append("_");
    let fwc = to_word_case(f.name.as_str());
    field_id.append(fwc.as_str());
    proof {
        assert(field_id@ =~= message_path@ + "_"@ + word_case(f.name@));
    }
    let pfx = if is_nested {
        DESER_PATH_NESTED
    } else {
        DESER_PATH_TOP
    };
    let card = cardinality_of(f);
    let ser_name = serializer_fn_name(card, field_id.as_str());
    let deser_name = deserializer_fn_name(card, field_id.as_str());
    let mut attribute = String::new();
    attribute.append(ENUM_ATTR_SER);
    attribute.append(pfx);
    attribute.append("::");
    attribute.append(ser_name.as_str());
    attribute.append(ENUM_ATTR_DESER);
    attribute.append(pfx);
    attribute.append("::");
    attribute.append(deser_name.as_str());
    if !matches!(f.label, FieldLabel::Required) {
        attribute.append(ENUM_ATTR_TAIL_DEFAULT);
    } else {
        attribute.append(ENUM_ATTR_TAIL);
    }
    proof {
        assert(attribute@ =~= enum_attr_text(
            *f,
            message_path@ + "_"@ + word_case(f.name@),
            is_nested,
        ));
    }
    FieldAttribute { path: build_field_path(message_name, f.name.as_str()), attribute }
}

/// The codec attributes of the enum fields among `fields[k..]`.
pub open spec fn enum_attrs_of_fields(
    name: Seq<char>,
    cur: Seq<char>,
    is_nested: bool,
    fields: Seq<FieldDescriptor>,
    k: int,
) -> Seq<FieldAttributeModel>
    decreases fields.len() - k,
{
    if k < 0 || k >= fields.len() {
        Seq::empty()
    } else {
        let here = if fields[k].field_type is Enum {
            seq![
                FieldAttributeModel {
                    path: field_path(name, fields[k].name@),
                    attribute: enum_attr_text(
                        fields[k],
                        cur + "_"@ + word_case(fields[k].name@),
                        is_nested,
                    ),
                },
            ]
        } else {
            Seq::empty()
        };
        here + enum_attrs_of_fields(name, cur, is_nested, fields, k + 1)
    }
}

/// The codec attributes of every enum field of `m` and of the messages
/// nested in it, with `parent` as the accumulated path.
pub open spec fn enum_attrs_of_message(m: MessageDescriptor, parent: Seq<char>) -> Seq<
    FieldAttributeModel,
>
    decreases m, 1int,
{
    let cur = child_path(parent, m.name@);
    enum_attrs_of_fields(m.name@, cur, parent.len() > 0, m.fields@, 0) + enum_attrs_of_list(
        m.nested,
        cur,
        0,
    )
}

/// The codec attributes of the messages `ms[k..]` under path `cur`.
pub open spec fn enum_attrs_of_list(ms: Vec<MessageDescriptor>, cur: Seq<char>, k: int) -> Seq<
    FieldAttributeModel,
>
    decreases ms, ms.len() - k, 0int,
{
    if k < 0 || k >= ms.len() {
        Seq::empty()
    } else {
        enum_attrs_of_message(ms[k as int], cur) + enum_attrs_of_list(ms, cur, k + 1)
    }
}

/// The codec attributes of every enum field of the files `files[k..]`.
pub open spec fn enum_attrs_of_files(files: Seq<FileDescriptor>, k: int) -> Seq<
    FieldAttributeModel,
>
    decreases files.len() - k,
{
    if k < 0 || k >= files.len() {
        Seq::empty()
    } else {
        enum_attrs_of_list(files[k].messages, Seq::empty(), 0) + enum_attrs_of_files(files, k + 1)
    }
}

fn collect_enum_attrs_for_message(
    m: &MessageDescriptor,
    parent: &str,
    out: &mut Vec<FieldAttribute>,
)
    ensures
        attr_models(final(out)@) == attr_models(old(out)@) + enum_attrs_of_message(*m, parent@),
    decreases *m,
{
    let ghost orig = attr_models(out@);
    let wc = to_word_case(m.name.as_str());
    let cur: String = if parent.unicode_len() == 0 {
        wc
    } else {
        let mut t = String::new();
        t.append(parent);
        t.append("_");
        t.append(wc.as_str());
        t
    };
    proof {
        assert(cur@ == child_path(parent@, m.name@));
    }
    let is_nested = parent.unicode_len() > 0;
    let ghost curv = cur@;
    let mut k: usize = 0;
    while k < m.fields.len()
        invariant
            k <= m.fields.len(),
            cur@ == curv,
            is_nested == (parent@.len() > 0),
            attr_models(out@) + enum_attrs_of_fields(m.name@, curv, is_nested, m.fields@, k as int)
                == orig + enum_attrs_of_fields(m.name@, curv, is_nested, m.fields@, 0),
        decreases m.fields.len() - k,
    {
        let ghost before = attr_models(out@);
        let f = &m.fields[k];
        if matches!(f.field_type, FieldType::Enum) {
            let attr = enum_field_attribute(cur.as_str(), m.name.as_str(), f, is_nested);
            out.push(attr);
            proof {
                assert(attr_models(out@) =~= before + seq![
                    FieldAttributeModel {
                        path: field_path(m.name@, m.fields@[k as int].name@),
                        attribute: enum_attr_text(
                            m.fields@[k as int],
                            curv + "_"@ + word_case(m.fields@[k as int].name@),
                            is_nested,
                        ),
                    },
                ]);
            }
        }
        proof {
            assert(attr_models(out@) + enum_attrs_of_fields(
                m.name@,
                curv,
                is_nested,
                m.fields@,
                k as int + 1,
            ) =~= before + enum_attrs_of_fields(m.name@, curv, is_nested, m.fields@, k as int));
        }
        k = k + 1;
    }
    let ghost mid = attr_models(out@);
    let mut j: usize = 0;
    while j < m.nested.len()
        invariant
            j <= m.nested.len(),
            cur@ == curv,
            attr_models(out@) + enum_attrs_of_list(m.nested, curv, j as int) == mid
                + enum_attrs_of_list(m.nested, curv, 0),
        decreases m.nested.len() - j,
    {
        let ghost before = attr_models(out@);
        collect_enum_attrs_for_message(&m.nested[j], cur.as_str(), out);
        proof {
            assert(attr_models(out@) + enum_attrs_of_list(m.nested, curv, j as int + 1) =~= before
                + enum_attrs_of_list(m.nested, curv, j as int));
        }
        j = j + 1;
    }
    proof {
        assert(attr_models(out@) =~= orig + enum_attrs_of_message(*m, parent@));
    }
}

/// Collect the serde codec attribute of every enum field in `files`,
/// hooking each field to its dedicated serializer/deserializer pair.
pub fn collect_enum_field_attributes(files: &Vec<FileDescriptor>) -> (r: Vec<FieldAttribute>)
    ensures
        attr_models(r@) == enum_attrs_of_files(files@, 0),
{
    let mut out: Vec<FieldAttribute> = Vec::new();
    let mut k: usize = 0;
    while k < files.len()
        invariant
            k <= files.len(),
            attr_models(out@) + enum_attrs_of_files(files@, k as int) == enum_attrs_of_files(
                files@,
                0,
            ),
        decreases files.len() - k,
    {
        let ghost before = attr_models(out@);
        let file = &files[k];
        let mut j: usize = 0;
        while j < file.messages.len()
            invariant
                j <= file.messages.len(),
                attr_models(out@) + enum_attrs_of_list(file.messages, Seq::empty(), j as int)
                    == before + enum_attrs_of_list(file.messages, Seq::empty(), 0),
            decreases file.messages.len() - j,
        {
            let ghost inner = attr_models(out@);
            proof {
                reveal_strlit("");
                assert(""@ =~= Seq::<char>::empty());
            }
            collect_enum_attrs_for_message(&file.messages[j], "", &mut out);
            proof {
                assert(attr_models(out@) + enum_attrs_of_list(
                    file.messages,
                    Seq::empty(),
                    j as int + 1,
                ) =~= inner + enum_attrs_of_list(file.messages, Seq::empty(), j as int));
            }
            j = j + 1;
        }
        proof {
            assert(attr_models(out@) + enum_attrs_of_files(files@, k as int + 1) =~= before
                + enum_attrs_of_files(files@, k as int));
        }
        k = k + 1;
    }
    proof {
        assert(attr_models(out@) =~= enum_attrs_of_files(files@, 0));
    }
    out
}

} // verus!
