//! Enum field discovery: walk a message tree and derive one `FieldBinding`
//! per enum-typed field, however deeply nested, in traversal order (the
//! fields of a message first, then its nested messages, siblings in
//! declaration order).

use vstd::prelude::*;

use crate::descriptor::{
    EnumDescriptor, FieldBinding, FieldBindingModel, FieldDescriptor, FieldType, FileDescriptor,
    MessageDescriptor, card_of, cardinality_of,
};
use crate::naming::{resolve_enum_type_path, resolve_path, to_word_case, word_case};
use crate::strutil::{str_eq, strip_dots, trim_leading_dots};

verus! {

/// The views of a sequence of bindings.
pub open spec fn models(v: Seq<FieldBinding>) -> Seq<FieldBindingModel> {
    v.map_values(|b: FieldBinding| b@)
}

/// The path accumulated for a message: the parent path, `_`-joined with the
/// word-cased message name; just the word-cased name at the root.
pub open spec fn child_path(parent: Seq<char>, name: Seq<char>) -> Seq<char> {
    if parent.len() == 0 {
        word_case(name)
    } else {
        parent + "_"@ + word_case(name)
    }
}

/// The binding derived from field `f` under message path `path`: one
/// binding when `f` is enum-typed, nothing otherwise.  The binding's
/// identifier joins the path with the word-cased field name; its enum type
/// path resolves the field's dotted type reference.
pub open spec fn binding_opt(f: FieldDescriptor, path: Seq<char>) -> Seq<FieldBindingModel> {
    if f.field_type is Enum {
        seq![
            FieldBindingModel {
                field_id: path + "_"@ + word_case(f.name@),
                enum_type_path: resolve_path(strip_dots(f.type_ref@)),
                cardinality: card_of(f),
            },
        ]
    } else {
        Seq::empty()
    }
}

/// Bindings of the fields `fields[k..]` under message path `path`.
pub open spec fn fields_bindings_from(
    fields: Seq<FieldDescriptor>,
    path: Seq<char>,
    k: int,
) -> Seq<FieldBindingModel>
    decreases fields.len() - k,
{
    if k < 0 || k >= fields.len() {
        Seq::empty()
    } else {
        binding_opt(fields[k], path) + fields_bindings_from(fields, path, k + 1)
    }
}

/// All bindings of message `m` under parent path `parent`: the bindings of
/// its own fields, then those of its nested messages, in order.
pub open spec fn message_bindings(m: MessageDescriptor, parent: Seq<char>) -> Seq<
    FieldBindingModel,
>
    decreases m, 1int,
{
    let cur = child_path(parent, m.name@);
    fields_bindings_from(m.fields@, cur, 0) + nested_bindings_from(m.nested, cur, 0)
}

/// Bindings of the nested messages `ms[k..]` under path `cur`.
pub open spec fn nested_bindings_from(
    ms: Vec<MessageDescriptor>,
    cur: Seq<char>,
    k: int,
) -> Seq<FieldBindingModel>
    decreases ms, ms.len() - k, 0int,
{
    if k < 0 || k >= ms.len() {
        Seq::empty()
    } else {
        message_bindings(ms[k as int], cur) + nested_bindings_from(ms, cur, k + 1)
    }
}

/// Bindings of every top-level message of the files `files[k..]` whose
/// package equals `package`.
pub open spec fn package_bindings_from(
    files: Seq<FileDescriptor>,
    package: Seq<char>,
    k: int,
) -> Seq<FieldBindingModel>
    decreases files.len() - k,
{
    if k < 0 || k >= files.len() {
        Seq::empty()
    } else {
        let here = if files[k].package@ == package {
            file_messages_bindings_from(files[k].messages, 0)
        } else {
            Seq::empty()
        };
        here + package_bindings_from(files, package, k + 1)
    }
}

/// Bindings of the top-level messages `ms[k..]`, each rooted at its own
/// word-cased name.
pub open spec fn file_messages_bindings_from(ms: Vec<MessageDescriptor>, k: int) -> Seq<
    FieldBindingModel,
>
    decreases ms.len() - k,
{
    if k < 0 || k >= ms.len() {
        Seq::empty()
    } else {
        message_bindings(ms[k as int], Seq::empty()) + file_messages_bindings_from(ms, k + 1)
    }
}

/// Append to `enum_fields` one binding per enum-typed field of `m` and its
/// nested messages, with `message_path` as the accumulated parent path.
pub fn extract_enum_fields_from_message_with_path(
    m: &MessageDescriptor,
    enum_fields: &mut Vec<FieldBinding>,
    message_path: &str,
)
    ensures
        models(final(enum_fields)@) == models(old(enum_fields)@) + message_bindings(
            *m,
            message_path@,
        ),
    decreases *m,
{
    let ghost orig = models(enum_fields@);
    let wc = to_word_case(m.name.as_str());
    let cur: String = if message_path.unicode_len() == 0 {
        wc
    } else {
        let mut t = String::new();
        t.append(message_path);
        t.append("_");
        t.append(wc.as_str());
        t
    };
    proof {
        assert(cur@ == child_path(message_path@, m.name@));
    }
    let ghost curv = cur@;
    let mut k: usize = 0;
    while k < m.fields.len()
        invariant
            k <= m.fields.len(),
            cur@ == curv,
            models(enum_fields@) + fields_bindings_from(m.fields@, curv, k as int) == orig
                + fields_bindings_from(m.fields@, curv, 0),
        decreases m.fields.len() - k,
    {
        let ghost before = models(enum_fields@);
        let f = &m.fields[k];
        if matches!(f.field_type, FieldType::Enum) {
            let mut field_id = cur.clone();
            field_id.append("_");
            let fwc = to_word_case(f.name.as_str());
            field_id.append(fwc.as_str());
            let enum_type_path = resolve_enum_type_path(trim_leading_dots(f.type_ref.as_str()));
            let cardinality = cardinality_of(f);
            enum_fields.push(
                FieldBinding { field_id, enum_type_path, cardinality },
            );
            proof {
                assert(models(enum_fields@) =~= before + binding_opt(m.fields@[k as int], curv));
            }
        }
        proof {
            assert(models(enum_fields@) + fields_bindings_from(m.fields@, curv, k as int + 1) =~=
                before + fields_bindings_from(m.fields@, curv, k as int));
        }
        k = k + 1;
    }
    proof {
        assert(models(enum_fields@) =~= orig + fields_bindings_from(m.fields@, curv, 0));
    }
    let ghost mid = models(enum_fields@);
    let mut j: usize = 0;
    while j < m.nested.len()
        invariant
            j <= m.nested.len(),
            cur@ == curv,
            models(enum_fields@) + nested_bindings_from(m.nested, curv, j as int) == mid
                + nested_bindings_from(m.nested, curv, 0),
        decreases m.nested.len() - j,
    {
        let ghost before = models(enum_fields@);
        extract_enum_fields_from_message_with_path(&m.nested[j], enum_fields, cur.as_str());
        proof {
            assert(models(enum_fields@) + nested_bindings_from(m.nested, curv, j as int + 1) =~=
                before + nested_bindings_from(m.nested, curv, j as int));
        }
        j = j + 1;
    }
    proof {
        assert(models(enum_fields@) =~= orig + message_bindings(*m, message_path@));
    }
}

/// Append the bindings of a top-level message (empty parent path).
pub fn extract_enum_fields_from_message(
    m: &MessageDescriptor,
    enum_fields: &mut Vec<FieldBinding>,
)
    ensures
        models(final(enum_fields)@) == models(old(enum_fields)@) + message_bindings(
            *m,
            Seq::empty(),
        ),
{
    proof {
        reveal_strlit("");
        assert(""@ =~= Seq::<char>::empty());
    }
    extract_enum_fields_from_message_with_path(m, enum_fields, "");
}

/// All enum-field bindings of the files that belong to `target_package`.
pub fn extract_package_enum_fields(
    files: &Vec<FileDescriptor>,
    target_package: &str,
) -> (r: Vec<FieldBinding>)
    ensures
        models(r@) == package_bindings_from(files@, target_package@, 0),
{
    let mut enum_fields: Vec<FieldBinding> = Vec::new();
    let mut k: usize = 0;
    while k < files.len()
        invariant
            k <= files.len(),
            models(enum_fields@) + package_bindings_from(files@, target_package@, k as int)
                == package_bindings_from(files@, target_package@, 0),
        decreases files.len() - k,
    {
        let ghost before = models(enum_fields@);
        let file = &files[k];
        if str_eq(file.package.as_str(), target_package) {
            let mut j: usize = 0;
            while j < file.messages.len()
                invariant
                    j <= file.messages.len(),
                    models(enum_fields@) + file_messages_bindings_from(file.messages, j as int)
                        == before + file_messages_bindings_from(file.messages, 0),
                decreases file.messages.len() - j,
            {
                let ghost inner = models(enum_fields@);
                extract_enum_fields_from_message(&file.messages[j], &mut enum_fields);
                proof {
                    assert(models(enum_fields@) + file_messages_bindings_from(
                        file.messages,
                        j as int + 1,
                    ) =~= inner + file_messages_bindings_from(file.messages, j as int));
                }
                j = j + 1;
            }
            proof {
                assert(models(enum_fields@) =~= before + file_messages_bindings_from(
                    file.messages,
                    0,
                ));
            }
        }
        proof {
            assert(models(enum_fields@) + package_bindings_from(
                files@,
                target_package@,
                k as int + 1,
            ) =~= before + package_bindings_from(files@, target_package@, k as int));
        }
        k = k + 1;
    }
    proof {
        assert(models(enum_fields@) =~= package_bindings_from(files@, target_package@, 0));
    }
    enum_fields
}

// ---------------------------------------------------------------------------
// Listing every enum type path (used by the package-wide listing).
// ---------------------------------------------------------------------------

/// The module path prefix of a message: `mod_path` followed by the
/// word-cased message name and `::`.
pub open spec fn module_prefix(mod_path: Seq<char>, name: Seq<char>) -> Seq<char> {
    mod_path + word_case(name) + "::"@
}

/// The enum type paths declared directly in `es[k..]` under `prefix`.
pub open spec fn enum_names_from(es: Seq<EnumDescriptor>, prefix: Seq<char>, k: int) -> Seq<
    Seq<char>,
>
    decreases es.len() - k,
{
    if k < 0 || k >= es.len() {
        Seq::empty()
    } else {
        seq![prefix + es[k].name@] + enum_names_from(es, prefix, k + 1)
    }
}

/// The enum type paths of every enum declared in message `m` or any message
/// nested in it, each qualified by its enclosing modules under
/// `mod_path`.
pub open spec fn nested_enum_paths(m: MessageDescriptor, mod_path: Seq<char>) -> Seq<Seq<char>>
    decreases m, 1int,
{
    let prefix = module_prefix(mod_path, m.name@);
    enum_names_from(m.enums@, prefix, 0) + nested_enum_paths_list(m.nested, prefix, 0)
}

/// The enum type paths of the messages `ms[k..]` under `prefix`.
pub open spec fn nested_enum_paths_list(
    ms: Vec<MessageDescriptor>,
    prefix: Seq<char>,
    k: int,
) -> Seq<Seq<char>>
    decreases ms, ms.len() - k, 0int,
{
    if k < 0 || k >= ms.len() {
        Seq::empty()
    } else {
        nested_enum_paths(ms[k as int], prefix) + nested_enum_paths_list(ms, prefix, k + 1)
    }
}

/// The views of a sequence of strings.
pub open spec fn string_views(v: Seq<String>) -> Seq<Seq<char>> {
    v.map_values(|t: String| t@)
}

/// Append the enum type paths of `m` (and its nested messages) under
/// `mod_path` to `out`.
pub fn extract_nested_enums(
    m: &MessageDescriptor,
    mod_path: &str,
    out: &mut Vec<String>,
)
    ensures
        string_views(final(out)@) == string_views(old(out)@) + nested_enum_paths(*m, mod_path@),
    decreases *m,
{
    let ghost orig = string_views(out@);
    let wc = to_word_case(m.name.as_str());
    let mut prefix = String::new();
    prefix.append(mod_path);
    prefix.append(wc.as_str());
    prefix.append("::");
    proof {
        assert(prefix@ == module_prefix(mod_path@, m.name@));
    }
    let ghost pv = prefix@;
    let mut k: usize = 0;
    while k < m.enums.len()
        invariant
            k <= m.enums.len(),
            prefix@ == pv,
            string_views(out@) + enum_names_from(m.enums@, pv, k as int) == orig + enum_names_from(
                m.enums@,
                pv,
                0,
            ),
        decreases m.enums.len() - k,
    {
        let ghost before = string_views(out@);
        let mut path = prefix.clone();
        path.append(m.enums[k].name.as_str());
        out.push(path);
        proof {
            assert(string_views(out@) + enum_names_from(m.enums@, pv, k as int + 1) =~= before
                + enum_names_from(m.enums@, pv, k as int));
        }
        k = k + 1;
    }
    proof {
        assert(string_views(out@) =~= orig + enum_names_from(m.enums@, pv, 0));
    }
    let ghost mid = string_views(out@);
    let mut j: usize = 0;
    while j < m.nested.len()
        invariant
            j <= m.nested.len(),
            prefix@ == pv,
            string_views(out@) + nested_enum_paths_list(m.nested, pv, j as int) == mid
                + nested_enum_paths_list(m.nested, pv, 0),
        decreases m.nested.len() - j,
    {
        let ghost before = string_views(out@);
        extract_nested_enums(&m.nested[j], prefix.as_str(), out);
        proof {
            assert(string_views(out@) + nested_enum_paths_list(m.nested, pv, j as int + 1) =~=
                before + nested_enum_paths_list(m.nested, pv, j as int));
        }
        j = j + 1;
    }
    proof {
        assert(string_views(out@) =~= orig + nested_enum_paths(*m, mod_path@));
    }
}

/// The enum type paths of every file: top-level enums under their bare
/// names, message-nested enums under their module paths.
pub open spec fn all_enum_paths_from(files: Seq<FileDescriptor>, k: int) -> Seq<Seq<char>>
    decreases files.len() - k,
{
    if k < 0 || k >= files.len() {
        Seq::empty()
    } else {
        enum_names_from(files[k].enums@, Seq::empty(), 0) + file_nested_enum_paths(
            files[k].messages,
            0,
        ) + all_enum_paths_from(files, k + 1)
    }
}

/// The nested enum paths of the top-level messages `ms[k..]`.
pub open spec fn file_nested_enum_paths(ms: Vec<MessageDescriptor>, k: int) -> Seq<Seq<char>>
    decreases ms.len() - k,
{
    if k < 0 || k >= ms.len() {
        Seq::empty()
    } else {
        nested_enum_paths(ms[k as int], Seq::empty()) + file_nested_enum_paths(ms, k + 1)
    }
}

/// List every enum type path declared anywhere in `files`.
pub fn extract_all_enum_types(files: &Vec<FileDescriptor>) -> (r: Vec<String>)
    ensures
        string_views(r@) == all_enum_paths_from(files@, 0),
{
    let mut out: Vec<String> = Vec::new();
    let mut k: usize = 0;
    while k < files.len()
        invariant
            k <= files.len(),
            string_views(out@) + all_enum_paths_from(files@, k as int) == all_enum_paths_from(
                files@,
                0,
            ),
        decreases files.len() - k,
    {
        let ghost before = string_views(out@);
        let file = &files[k];
        let mut e: usize = 0;
        while e < file.enums.len()
            invariant
                e <= file.enums.len(),
                string_views(out@) + enum_names_from(file.enums@, Seq::empty(), e as int) == before
                    + enum_names_from(file.enums@, Seq::empty(), 0),
            decreases file.enums.len() - e,
        {
            let ghost inner = string_views(out@);
            let mut path = String::new();
            path.append(file.enums[e].name.as_str());
            out.push(path);
            proof {
                assert(string_views(out@) + enum_names_from(
                    file.enums@,
                    Seq::empty(),
                    e as int + 1,
                ) =~= inner + enum_names_from(file.enums@, Seq::empty(), e as int));
            }
            e = e + 1;
        }
        proof {
            assert(string_views(out@) =~= before + enum_names_from(file.enums@, Seq::empty(), 0));
        }
        let ghost mid = string_views(out@);
        let mut j: usize = 0;
        while j < file.messages.len()
            invariant
                j <= file.messages.len(),
                string_views(out@) + file_nested_enum_paths(file.messages, j as int) == mid
                    + file_nested_enum_paths(file.messages, 0),
            decreases file.messages.len() - j,
        {
            let ghost inner = string_views(out@);
            proof {
                reveal_strlit("");
                assert(""@ =~= Seq::<char>::empty());
            }
            extract_nested_enums(&file.messages[j], "", &mut out);
            proof {
                assert(string_views(out@) + file_nested_enum_paths(file.messages, j as int + 1)
                    =~= inner + file_nested_enum_paths(file.messages, j as int));
            }
            j = j + 1;
        }
        proof {
            assert(string_views(out@) + all_enum_paths_from(files@, k as int + 1) =~= before
                + all_enum_paths_from(files@, k as int));
        }
        k = k + 1;
    }
    proof {
        assert(string_views(out@) =~= all_enum_paths_from(files@, 0));
    }
    out
}

} // verus!
