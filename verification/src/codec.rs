//! The string⇄integer enum codec, bound to one specific enum type.
//!
//! Wire enum values are small integers that are *not* unique across
//! distinct enum types, so every codec here takes the one enum descriptor
//! the field was declared with and consults only that enum's symbol table.
//! Serialization emits the symbolic name of a declared value and falls back
//! to the raw integer for values unknown at generation time; deserialization
//! accepts a symbolic name (an undeclared name is a request-time error that
//! carries the enum type and the offending string) or an integer, which
//! passes through unchecked.

use vstd::prelude::*;

use crate::descriptor::{EnumDescriptor, EnumValue, enum_wf};

verus! {

/// The JSON representation of one enum slot: a symbolic name or a raw
/// integer.
#[derive(Clone, Debug, PartialEq, Eq)]
pub enum EnumJson {
    Symbol(String),
    Number(i32),
}

/// The mathematical content of an `EnumJson`.
pub ghost enum EnumJsonModel {
    Symbol(Seq<char>),
    Number(i32),
}

impl View for EnumJson {
    type V = EnumJsonModel;

    open spec fn view(&self) -> EnumJsonModel {
        match self {
            EnumJson::Symbol(s) => EnumJsonModel::Symbol(s@),
            EnumJson::Number(n) => EnumJsonModel::Number(*n),
        }
    }
}

impl DeepView for EnumJson {
    type V = EnumJsonModel;

    open spec fn deep_view(&self) -> EnumJsonModel {
        self.view()
    }
}

/// A request-time decode failure: `symbol` was not declared by the enum
/// type `enum_type`.
#[derive(Clone, Debug, PartialEq, Eq)]
pub struct EnumDecodeError {
    pub enum_type: String,
    pub symbol: String,
}

/// The mathematical content of an `EnumDecodeError`.
pub ghost struct DecodeErrorModel {
    pub enum_type: Seq<char>,
    pub symbol: Seq<char>,
}

impl View for EnumDecodeError {
    type V = DecodeErrorModel;

    open spec fn view(&self) -> DecodeErrorModel {
        DecodeErrorModel { enum_type: self.enum_type@, symbol: self.symbol@ }
    }
}

impl EnumDecodeError {
    /// The error text reported to clients.
    pub fn message(&self) -> (r: String)
        ensures
            r@ == "Unknown enum value for "@ + self.enum_type@ + ": "@ + self.symbol@,
    {
        let mut out = String::new();
        out.append("Unknown enum value for ");
        out.append(self.enum_type.as_str());
        out.append(": ");
        out.append(self.symbol.as_str());
        proof {
            assert(out@ =~= "Unknown enum value for "@ + self.enum_type@ + ": "@ + self.symbol@);
        }
        out
    }
}

// ---------------------------------------------------------------------------
// Symbol table lookups (first match wins).
// ---------------------------------------------------------------------------

/// The symbolic name of the first pair in `vals[k..]` whose value is `n`.
pub open spec fn symbol_for_from(vals: Seq<EnumValue>, n: i32, k: int) -> Option<Seq<char>>
    decreases vals.len() - k,
{
    if k < 0 || k >= vals.len() {
        None
    } else if vals[k].number == n {
        Some(vals[k].name@)
    } else {
        symbol_for_from(vals, n, k + 1)
    }
}

/// The symbolic name declared for value `n`, if any.
pub open spec fn symbol_for(vals: Seq<EnumValue>, n: i32) -> Option<Seq<char>> {
    symbol_for_from(vals, n, 0)
}

/// The value of the first pair in `vals[k..]` whose name is `s`.
pub open spec fn value_for_from(vals: Seq<EnumValue>, s: Seq<char>, k: int) -> Option<i32>
    decreases vals.len() - k,
{
    if k < 0 || k >= vals.len() {
        None
    } else if vals[k].name@ == s {
        Some(vals[k].number)
    } else {
        value_for_from(vals, s, k + 1)
    }
}

/// The value declared under the symbolic name `s`, if any.
pub open spec fn value_for(vals: Seq<EnumValue>, s: Seq<char>) -> Option<i32> {
    value_for_from(vals, s, 0)
}

// ---------------------------------------------------------------------------
// The codec, specified.
// ---------------------------------------------------------------------------

/// What serialization produces: the declared symbolic name of `n`, or the
/// raw integer when `n` is unknown to this enum.
pub open spec fn ser_spec(e: EnumDescriptor, n: i32) -> EnumJsonModel {
    match symbol_for(e.values@, n) {
        Some(s) => EnumJsonModel::Symbol(s),
        None => EnumJsonModel::Number(n),
    }
}

/// What deserialization produces: integers pass through unchecked, declared
/// names resolve to their value, undeclared names fail with the enum type
/// and the offending string.
pub open spec fn deser_spec(e: EnumDescriptor, m: EnumJsonModel) -> Result<i32, DecodeErrorModel> {
    match m {
        EnumJsonModel::Number(i) => Ok(i),
        EnumJsonModel::Symbol(s) => match value_for(e.values@, s) {
            Some(n) => Ok(n),
            None => Err(DecodeErrorModel { enum_type: e.name@, symbol: s }),
        },
    }
}

// ---------------------------------------------------------------------------
// The codec, executed.
// ---------------------------------------------------------------------------

/// Serialize one enum slot against the symbol table of `e`.
pub fn serialize_enum_value(e: &EnumDescriptor, value: i32) -> (r: EnumJson)
    ensures
        r@ == ser_spec(*e, value),
{
    let mut k: usize = 0;
    while k < e.values.len()
        invariant
            k <= e.values.len(),
            symbol_for(e.values@, value) == symbol_for_from(e.values@, value, k as int),
        decreases e.values.len() - k,
    {
        if e.values[k].number == value {
            return EnumJson::Symbol(e.values[k].name.clone());
        }
        k = k + 1;
    }
    EnumJson::Number(value)
}

/// Deserialize one enum slot against the symbol table of `e`.
pub fn deserialize_enum_value(e: &EnumDescriptor, input: &EnumJson) -> (r: Result<
    i32,
    EnumDecodeError,
>)
    ensures
        match r {
            Ok(n) => deser_spec(*e, input@) == Ok::<i32, DecodeErrorModel>(n),
            Err(er) => deser_spec(*e, input@) == Err::<i32, DecodeErrorModel>(er@),
        },
{
    match input {
        EnumJson::Number(i) => Ok(*i),
        EnumJson::Symbol(s) => {
            let mut k: usize = 0;
            while k < e.values.len()
                invariant
                    k <= e.values.len(),
                    input@ == EnumJsonModel::Symbol(s@),
                    value_for(e.values@, s@) == value_for_from(e.values@, s@, k as int),
                decreases e.values.len() - k,
            {
                if crate::strutil::str_eq(e.values[k].name.as_str(), s.as_str()) {
                    return Ok(e.values[k].number);
                }
                k = k + 1;
            }
            Err(EnumDecodeError { enum_type: e.name.clone(), symbol: s.clone() })
        },
    }
}

// ---------------------------------------------------------------------------
// Optional cardinality.
// ---------------------------------------------------------------------------

/// What optional serialization produces: absent stays absent.
pub open spec fn ser_opt_spec(e: EnumDescriptor, v: Option<i32>) -> Option<EnumJsonModel> {
    match v {
        None => None,
        Some(n) => Some(ser_spec(e, n)),
    }
}

/// What optional deserialization produces: absent decodes to absent without
/// error.
pub open spec fn deser_opt_spec(e: EnumDescriptor, m: Option<EnumJsonModel>) -> Result<
    Option<i32>,
    DecodeErrorModel,
> {
    match m {
        None => Ok(None),
        Some(j) => match deser_spec(e, j) {
            Ok(n) => Ok(Some(n)),
            Err(er) => Err(er),
        },
    }
}

/// Serialize an optional enum slot.
pub fn serialize_option_enum_value(e: &EnumDescriptor, value: &Option<i32>) -> (r: Option<
    EnumJson,
>)
    ensures
        r.deep_view() == ser_opt_spec(*e, *value),
{
    match value {
        None => None,
        Some(v) => Some(serialize_enum_value(e, *v)),
    }
}

/// Deserialize an optional enum slot.
pub fn deserialize_option_enum_value(e: &EnumDescriptor, input: &Option<EnumJson>) -> (r: Result<
    Option<i32>,
    EnumDecodeError,
>)
    ensures
        match r {
            Ok(v) => deser_opt_spec(*e, input.deep_view()) == Ok::<Option<i32>, DecodeErrorModel>(
                v,
            ),
            Err(er) => deser_opt_spec(*e, input.deep_view()) == Err::<
                Option<i32>,
                DecodeErrorModel,
            >(er@),
        },
{
    match input {
        None => Ok(None),
        Some(j) => match deserialize_enum_value(e, j) {
            Ok(n) => Ok(Some(n)),
            Err(er) => Err(er),
        },
    }
}

// ---------------------------------------------------------------------------
// Repeated cardinality.
// ---------------------------------------------------------------------------

/// The views of a sequence of JSON slots.
pub open spec fn json_views(v: Seq<EnumJson>) -> Seq<EnumJsonModel> {
    v.map_values(|j: EnumJson| j@)
}

/// What repeated serialization produces: the single-slot serialization,
/// element-wise, order preserved.
pub open spec fn ser_seq_spec(e: EnumDescriptor, vs: Seq<i32>) -> Seq<EnumJsonModel> {
    vs.map_values(|n: i32| ser_spec(e, n))
}

/// What repeated deserialization produces from `ms[k..]`: every element
/// must decode; the first failing element fails the whole sequence.
pub open spec fn deser_seq_spec_from(e: EnumDescriptor, ms: Seq<EnumJsonModel>, k: int) -> Result<
    Seq<i32>,
    DecodeErrorModel,
>
    decreases ms.len() - k,
{
    if k < 0 || k >= ms.len() {
        Ok(Seq::empty())
    } else {
        match deser_spec(e, ms[k]) {
            Err(er) => Err(er),
            Ok(n) => match deser_seq_spec_from(e, ms, k + 1) {
                Ok(rest) => Ok(seq![n] + rest),
                Err(er) => Err(er),
            },
        }
    }
}

/// What repeated deserialization produces.
pub open spec fn deser_seq_spec(e: EnumDescriptor, ms: Seq<EnumJsonModel>) -> Result<
    Seq<i32>,
    DecodeErrorModel,
> {
    deser_seq_spec_from(e, ms, 0)
}

/// Serialize a repeated enum slot element-wise, preserving order.
pub fn serialize_repeated_enum_value(e: &EnumDescriptor, values: &Vec<i32>) -> (r: Vec<EnumJson>)
    ensures
        json_views(r@) == ser_seq_spec(*e, values@),
{
    let mut out: Vec<EnumJson> = Vec::new();
    let mut k: usize = 0;
    while k < values.len()
        invariant
            k <= values.len(),
            json_views(out@) == ser_seq_spec(*e, values@.subrange(0, k as int)),
        decreases values.len() - k,
    {
        let ghost before = json_views(out@);
        out.push(serialize_enum_value(e, values[k]));
        proof {
            assert(json_views(out@) =~= before.push(ser_spec(*e, values@[k as int])));
            assert(ser_seq_spec(*e, values@.subrange(0, k as int + 1)) =~= ser_seq_spec(
                *e,
                values@.subrange(0, k as int),
            ).push(ser_spec(*e, values@[k as int])));
        }
        k = k + 1;
    }
    proof {
        assert(values@.subrange(0, values@.len() as int) =~= values@);
    }
    out
}

/// Deserialize a repeated enum slot, failing fast on the first undeclared
/// symbolic name.
pub fn deserialize_repeated_enum_value(e: &EnumDescriptor, inputs: &Vec<EnumJson>) -> (r: Result<
    Vec<i32>,
    EnumDecodeError,
>)
    ensures
        match r {
            Ok(v) => deser_seq_spec(*e, json_views(inputs@)) == Ok::<Seq<i32>, DecodeErrorModel>(
                v@,
            ),
            Err(er) => deser_seq_spec(*e, json_views(inputs@)) == Err::<
                Seq<i32>,
                DecodeErrorModel,
            >(er@),
        },
{
    let ghost ms = json_views(inputs@);
    let mut acc: Vec<i32> = Vec::new();
    let mut k: usize = 0;
    while k < inputs.len()
        invariant
            k <= inputs.len(),
            ms == json_views(inputs@),
            inputs@.len() == ms.len(),
            deser_seq_spec(*e, ms) == match deser_seq_spec_from(*e, ms, k as int) {
                Ok(rest) => Ok::<Seq<i32>, DecodeErrorModel>(acc@ + rest),
                Err(er) => Err::<Seq<i32>, DecodeErrorModel>(er),
            },
        decreases inputs.len() - k,
    {
        let ghost acc0 = acc@;
        match deserialize_enum_value(e, &inputs[k]) {
            Ok(n) => {
                acc.push(n);
                proof {
                    assert(ms[k as int] == inputs@[k as int]@);
                    if deser_seq_spec_from(*e, ms, k as int + 1) is Ok {
                        let rest = deser_seq_spec_from(*e, ms, k as int + 1)->Ok_0;
                        assert(acc0 + (seq![n] + rest) =~= acc@ + rest);
                    }
                }
            },
            Err(er) => {
                proof {
                    assert(ms[k as int] == inputs@[k as int]@);
                }
                return Err(er);
            },
        }
        k = k + 1;
    }
    proof {
        assert(acc@ + Seq::<i32>::empty() =~= acc@);
    }
    Ok(acc)
}

// ---------------------------------------------------------------------------
// Laws.
// ---------------------------------------------------------------------------

proof fn lemma_symbol_for_witness(vals: Seq<EnumValue>, n: i32, k: int, s: Seq<char>)
    requires
        0 <= k <= vals.len(),
        symbol_for_from(vals, n, k) == Some(s),
    ensures
        exists|i: int| k <= i < vals.len() && vals[i].number == n && vals[i].name@ == s,
    decreases vals.len() - k,
{
    if k < vals.len() && vals[k].number != n {
        lemma_symbol_for_witness(vals, n, k + 1, s);
    }
}

proof fn lemma_value_for_unique(vals: Seq<EnumValue>, s: Seq<char>, k: int, i: int)
    requires
        0 <= k <= i < vals.len(),
        vals[i].name@ == s,
        forall|a: int, b: int| 0 <= a < b < vals.len() ==> vals[a].name@ != vals[b].name@,
    ensures
        value_for_from(vals, s, k) == Some(vals[i].number),
    decreases vals.len() - k,
{
    if vals[k].name@ == s {
        assert(k == i);
    } else {
        lemma_value_for_unique(vals, s, k + 1, i);
    }
}

/// Round-trip law: against a well-formed enum (pairwise distinct symbolic
/// names), deserializing what serialization produced restores the original
/// integer — for declared values via their symbolic name, for every other
/// integer via the raw-integer passthrough.
pub proof fn lemma_enum_roundtrip(e: EnumDescriptor, value: i32)
    requires
        enum_wf(e),
    ensures
        deser_spec(e, ser_spec(e, value)) == Ok::<i32, DecodeErrorModel>(value),
{
    match symbol_for(e.values@, value) {
        Some(s) => {
            lemma_symbol_for_witness(e.values@, value, 0, s);
            let i = choose|i: int|
                0 <= i < e.values@.len() && e.values@[i].number == value && e.values@[i].name@
                    == s;
            lemma_value_for_unique(e.values@, s, 0, i);
        },
        None => {},
    }
}

/// Integer passthrough law: a raw integer always deserializes to itself,
/// declared or not.
pub proof fn lemma_integer_passthrough(e: EnumDescriptor, value: i32)
    ensures
        deser_spec(e, EnumJsonModel::Number(value)) == Ok::<i32, DecodeErrorModel>(value),
{
}

/// Conflict-freedom law: a serializer bound to enum `e` only ever emits a
/// symbolic name that `e` itself declares for the given value; when it
/// emits an integer instead, the integer is the value and `e` declares no
/// name for it.  Two fields bound to distinct enum types therefore never
/// borrow each other's names, however their integer values overlap.
pub proof fn lemma_serializer_own_symbols(e: EnumDescriptor, value: i32)
    ensures
        ser_spec(e, value) matches EnumJsonModel::Symbol(s) ==> exists|i: int|
            0 <= i < e.values@.len() && e.values@[i].number == value && e.values@[i].name@ == s,
        ser_spec(e, value) matches EnumJsonModel::Number(n) ==> n == value && symbol_for(
            e.values@,
            value,
        ) is None,
{
    if let Some(s) = symbol_for(e.values@, value) {
        lemma_symbol_for_witness(e.values@, value, 0, s);
    }
}

/// Cross-contamination law, stated over a pair: when the serializers of two
/// distinct enum types are given the same integer value, a symbolic name
/// emitted under enum `a` that enum `b` does not declare can never come out
/// of `b`'s serializer — each field's codec speaks only its own enum's
/// names.
pub proof fn lemma_no_cross_contamination(a: EnumDescriptor, b: EnumDescriptor, v: i32)
    requires
        ser_spec(a, v) is Symbol,
        forall|i: int|
            0 <= i < b.values.len() ==> b.values[i].name@ != ser_spec(a, v)->Symbol_0,
    ensures
        ser_spec(b, v) != ser_spec(a, v),
{
    if ser_spec(b, v) == ser_spec(a, v) {
        let s = ser_spec(a, v)->Symbol_0;
        lemma_symbol_for_witness(b.values@, v, 0, s);
    }
}

/// Unknown-input law: an undeclared symbolic name is rejected with exactly
/// the enum's type name and the offending string; an unknown integer is
/// accepted unchanged.
pub proof fn lemma_unknown_inputs(e: EnumDescriptor, s: Seq<char>, n: i32)
    ensures
        value_for(e.values@, s) is None ==> deser_spec(e, EnumJsonModel::Symbol(s)) == Err::<
            i32,
            DecodeErrorModel,
        >(DecodeErrorModel { enum_type: e.name@, symbol: s }),
        deser_spec(e, EnumJsonModel::Number(n)) == Ok::<i32, DecodeErrorModel>(n),
{
}

/// Round-trip law at optional cardinality: absent stays absent, present
/// values round-trip as at single cardinality.
pub proof fn lemma_option_roundtrip(e: EnumDescriptor, value: Option<i32>)
    requires
        enum_wf(e),
    ensures
        deser_opt_spec(e, ser_opt_spec(e, value)) == Ok::<Option<i32>, DecodeErrorModel>(value),
{
    if let Some(v) = value {
        lemma_enum_roundtrip(e, v);
    }
}

/// Round-trip law at repeated cardinality: serializing a sequence and
/// deserializing the result restores the sequence, order preserved.
pub proof fn lemma_repeated_roundtrip(e: EnumDescriptor, values: Seq<i32>)
    requires
        enum_wf(e),
    ensures
        deser_seq_spec(e, ser_seq_spec(e, values)) == Ok::<Seq<i32>, DecodeErrorModel>(values),
{
    lemma_repeated_roundtrip_from(e, values, 0);
    assert(ser_seq_spec(e, values).subrange(0, ser_seq_spec(e, values).len() as int) =~= ser_seq_spec(
        e,
        values,
    ));
    assert(values.subrange(0, values.len() as int) =~= values);
}

proof fn lemma_repeated_roundtrip_from(e: EnumDescriptor, values: Seq<i32>, k: int)
    requires
        enum_wf(e),
        0 <= k <= values.len(),
    ensures
        deser_seq_spec_from(e, ser_seq_spec(e, values), k) == Ok::<Seq<i32>, DecodeErrorModel>(
            values.subrange(k, values.len() as int),
        ),
    decreases values.len() - k,
{
    let ms = ser_seq_spec(e, values);
    if k < values.len() {
        lemma_enum_roundtrip(e, values[k]);
        lemma_repeated_roundtrip_from(e, values, k + 1);
        assert(seq![values[k]] + values.subrange(k + 1, values.len() as int) =~= values.subrange(
            k,
            values.len() as int,
        ));
    } else {
        assert(values.subrange(k, values.len() as int) =~= Seq::<i32>::empty());
    }
}

} // verus!
