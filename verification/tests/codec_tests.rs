//! Behaviour of the per-field enum codecs: round trips, integer
//! passthrough, unknown-symbol errors, and the optional and repeated
//! cardinalities.

use g2h::codec::{
    deserialize_enum_value, deserialize_option_enum_value, deserialize_repeated_enum_value,
    serialize_enum_value, serialize_option_enum_value, serialize_repeated_enum_value, EnumJson,
};
use g2h::descriptor::{EnumDescriptor, EnumValue};

fn payment_status() -> EnumDescriptor {
    EnumDescriptor {
        name: "PaymentStatus".to_string(),
        values: vec![
            EnumValue { name: "SUCCESS".to_string(), number: 0 },
            EnumValue { name: "PENDING".to_string(), number: 1 },
            EnumValue { name: "FAILED".to_string(), number: 2 },
        ],
    }
}

#[test]
fn test_single_round_trip_declared_values() {
    let e = payment_status();
    for v in 0..3 {
        let json = serialize_enum_value(&e, v);
        assert_eq!(deserialize_enum_value(&e, &json), Ok(v));
    }
    assert_eq!(
        serialize_enum_value(&e, 1),
        EnumJson::Symbol("PENDING".to_string())
    );
}

#[test]
fn test_single_round_trip_unknown_value() {
    let e = payment_status();
    // A wire value unknown at generation time falls back to the integer
    // and passes back through.
    let json = serialize_enum_value(&e, 42);
    assert_eq!(json, EnumJson::Number(42));
    assert_eq!(deserialize_enum_value(&e, &json), Ok(42));
}

#[test]
fn test_integer_passthrough_unchecked() {
    let e = payment_status();
    assert_eq!(deserialize_enum_value(&e, &EnumJson::Number(1)), Ok(1));
    assert_eq!(deserialize_enum_value(&e, &EnumJson::Number(99)), Ok(99));
}

#[test]
fn test_unknown_symbol_error_names_enum_and_symbol() {
    let e = payment_status();
    let err = deserialize_enum_value(&e, &EnumJson::Symbol("DISCOVER".to_string()))
        .expect_err("unknown symbol must be rejected");
    assert_eq!(err.enum_type, "PaymentStatus");
    assert_eq!(err.symbol, "DISCOVER");
    assert_eq!(err.message(), "Unknown enum value for PaymentStatus: DISCOVER");
}

#[test]
fn test_option_codec() {
    let e = payment_status();
    assert_eq!(serialize_option_enum_value(&e, &None), None);
    assert_eq!(
        serialize_option_enum_value(&e, &Some(2)),
        Some(EnumJson::Symbol("FAILED".to_string()))
    );
    assert_eq!(deserialize_option_enum_value(&e, &None), Ok(None));
    assert_eq!(
        deserialize_option_enum_value(&e, &Some(EnumJson::Symbol("FAILED".to_string()))),
        Ok(Some(2))
    );
    let err = deserialize_option_enum_value(&e, &Some(EnumJson::Symbol("NOPE".to_string())))
        .expect_err("unknown symbol must be rejected");
    assert_eq!(err.enum_type, "PaymentStatus");
    assert_eq!(err.symbol, "NOPE");
}

#[test]
fn test_repeated_codec_order_preserved() {
    let e = payment_status();
    let values = vec![2, 0, 7, 1];
    let jsons = serialize_repeated_enum_value(&e, &values);
    assert_eq!(
        jsons,
        vec![
            EnumJson::Symbol("FAILED".to_string()),
            EnumJson::Symbol("SUCCESS".to_string()),
            EnumJson::Number(7),
            EnumJson::Symbol("PENDING".to_string()),
        ]
    );
    assert_eq!(deserialize_repeated_enum_value(&e, &jsons), Ok(values));
}

#[test]
fn test_repeated_codec_fails_fast() {
    let e = payment_status();
    let inputs = vec![
        EnumJson::Symbol("PENDING".to_string()),
        EnumJson::Symbol("FIRST_BAD".to_string()),
        EnumJson::Symbol("SECOND_BAD".to_string()),
    ];
    let err = deserialize_repeated_enum_value(&e, &inputs)
        .expect_err("any unresolvable element fails the whole sequence");
    assert_eq!(err.symbol, "FIRST_BAD");
    assert_eq!(err.enum_type, "PaymentStatus");
}

#[test]
fn test_empty_enum_serializes_numbers_only() {
    let e = EnumDescriptor { name: "Empty".to_string(), values: vec![] };
    assert_eq!(serialize_enum_value(&e, 0), EnumJson::Number(0));
    let err = deserialize_enum_value(&e, &EnumJson::Symbol("ANY".to_string()))
        .expect_err("no symbol is declared");
    assert_eq!(err.enum_type, "Empty");
}
