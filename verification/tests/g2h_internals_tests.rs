//! Internal enum processing logic: path resolution, message-name
//! detection, casing, field extraction and generated function names.

use g2h::descriptor::{
    cardinality_label, Cardinality, FieldBinding, FieldDescriptor, FieldLabel, FieldType,
    MessageDescriptor,
};
use g2h::extract::extract_enum_fields_from_message;
use g2h::naming::{is_message_name, resolve_enum_type_path, to_word_case};

fn enum_field(name: &str, type_ref: &str, label: FieldLabel, proto3_optional: bool) -> FieldDescriptor {
    FieldDescriptor {
        name: name.to_string(),
        field_type: FieldType::Enum,
        label,
        proto3_optional,
        type_ref: type_ref.to_string(),
    }
}

#[test]
fn test_enum_path_resolution() {
    let test_cases = vec![
        // Simple enum name
        ("PaymentStatus", "PaymentStatus"),
        // Package-level enum
        ("hello_world.PaymentStatus", "PaymentStatus"),
        ("ucs.v2.Currency", "Currency"),
        ("package.EnumName", "EnumName"),
        // Message-nested enum (TypeCase parent)
        ("hello_world.HelloReply.ResponseStatus", "hello_reply::ResponseStatus"),
        ("package.UserProfile.AccountStatus", "user_profile::AccountStatus"),
        ("test.PaymentRequest.PaymentType", "payment_request::PaymentType"),
        // Edge cases
        ("", ""),
        ("single", "single"),
        ("a.b", "b"),
        ("namespace.v1.service.MessageName.EnumName", "message_name::EnumName"),
    ];

    for (input, expected) in test_cases {
        let result = resolve_enum_type_path(input);
        assert_eq!(result, expected, "Failed for input: '{}'", input);
    }

    println!("Enum path resolution tests passed!");
}

#[test]
fn test_message_name_detection() {
    let test_cases = vec![
        ("HelloReply", true),
        ("PaymentRequest", true),
        ("UserProfile", true),
        ("v2", false),
        ("ucs", false),
        ("hello_world", false),
        ("", false),
        ("lowercase", false),
        ("UPPERCASE", true),
        ("mixedCase", false),
    ];

    for (input, expected) in test_cases {
        let result = is_message_name(input);
        assert_eq!(result, expected, "Failed for input: '{}'", input);
    }

    println!("Message name detection tests passed!");
}

#[test]
fn test_snake_case_conversion() {
    let test_cases = vec![
        ("HelloReply", "hello_reply"),
        ("PaymentRequest", "payment_request"),
        ("UserProfile", "user_profile"),
        ("ResponseStatus", "response_status"),
        ("XMLHttpRequest", "xml_http_request"),
        ("APIKey", "api_key"),
        ("lowercase", "lowercase"),
        ("", ""),
        ("A", "a"),
        ("AB", "ab"),
    ];

    for (input, expected) in test_cases {
        let result = to_word_case(input);
        assert_eq!(result, expected, "Failed for input: '{}'", input);
    }

    println!("Snake case conversion tests passed!");
}

/// Run the extractor over the conflict-test message shapes and compare the
/// derived bindings with the expected identifier, type path and label.
#[test]
fn test_enum_field_extraction_simulation() {
    let conflict_test_request = MessageDescriptor {
        name: "ConflictTestRequest".to_string(),
        fields: vec![
            enum_field("payment_status", ".hello_world.PaymentStatus", FieldLabel::Optional, false),
            enum_field(
                "auth_status",
                ".hello_world.AuthenticationStatus",
                FieldLabel::Optional,
                false,
            ),
            enum_field(
                "processing_status",
                ".hello_world.ProcessingStatus",
                FieldLabel::Optional,
                false,
            ),
            enum_field("optional_payment", ".hello_world.PaymentStatus", FieldLabel::Optional, true),
            enum_field(
                "auth_history",
                ".hello_world.AuthenticationStatus",
                FieldLabel::Repeated,
                false,
            ),
            enum_field(
                "processing_steps",
                ".hello_world.ProcessingStatus",
                FieldLabel::Repeated,
                false,
            ),
        ],
        nested: vec![],
        enums: vec![],
    };
    let hello_reply = MessageDescriptor {
        name: "HelloReply".to_string(),
        fields: vec![
            enum_field(
                "status",
                ".hello_world.HelloReply.ResponseStatus",
                FieldLabel::Optional,
                false,
            ),
        ],
        nested: vec![],
        enums: vec![],
    };

    let mut bindings: Vec<FieldBinding> = Vec::new();
    extract_enum_fields_from_message(&conflict_test_request, &mut bindings);
    extract_enum_fields_from_message(&hello_reply, &mut bindings);

    let extracted_fields: Vec<(String, String, String)> = bindings
        .iter()
        .map(|b| {
            (
                b.field_id.clone(),
                b.enum_type_path.clone(),
                cardinality_label(b.cardinality).to_string(),
            )
        })
        .collect();

    let expected = vec![
        (
            "conflict_test_request_payment_status".to_string(),
            "PaymentStatus".to_string(),
            "Single".to_string(),
        ),
        (
            "conflict_test_request_auth_status".to_string(),
            "AuthenticationStatus".to_string(),
            "Single".to_string(),
        ),
        (
            "conflict_test_request_processing_status".to_string(),
            "ProcessingStatus".to_string(),
            "Single".to_string(),
        ),
        (
            "conflict_test_request_optional_payment".to_string(),
            "PaymentStatus".to_string(),
            "Option".to_string(),
        ),
        (
            "conflict_test_request_auth_history".to_string(),
            "AuthenticationStatus".to_string(),
            "Repeated".to_string(),
        ),
        (
            "conflict_test_request_processing_steps".to_string(),
            "ProcessingStatus".to_string(),
            "Repeated".to_string(),
        ),
        (
            "hello_reply_status".to_string(),
            "hello_reply::ResponseStatus".to_string(),
            "Single".to_string(),
        ),
    ];
    assert_eq!(extracted_fields, expected);

    assert!(extracted_fields
        .iter()
        .any(|(field_id, _, _)| field_id == "conflict_test_request_payment_status"));
    assert!(extracted_fields
        .iter()
        .any(|(field_id, _, _)| field_id == "conflict_test_request_auth_status"));

    let payment_enum = extracted_fields
        .iter()
        .find(|(field_id, _, _)| field_id == "conflict_test_request_payment_status");
    assert_eq!(payment_enum.unwrap().1, "PaymentStatus");

    let auth_enum = extracted_fields
        .iter()
        .find(|(field_id, _, _)| field_id == "conflict_test_request_auth_status");
    assert_eq!(auth_enum.unwrap().1, "AuthenticationStatus");

    let nested_enum = extracted_fields
        .iter()
        .find(|(field_id, _, _)| field_id == "hello_reply_status");
    assert_eq!(nested_enum.unwrap().1, "hello_reply::ResponseStatus");

    let optional_field = extracted_fields
        .iter()
        .find(|(field_id, _, _)| field_id == "conflict_test_request_optional_payment");
    assert_eq!(optional_field.unwrap().2, "Option");

    let repeated_field = extracted_fields
        .iter()
        .find(|(field_id, _, _)| field_id == "conflict_test_request_auth_history");
    assert_eq!(repeated_field.unwrap().2, "Repeated");

    println!("Enum field extraction simulation test passed!");
    println!("Extracted {} enum fields:", extracted_fields.len());
    for (field_id, enum_type, field_label) in &extracted_fields {
        println!("  - {}: {} ({})", field_id, enum_type, field_label);
    }
}

/// The generated function names follow the expected pattern for each
/// cardinality.
#[test]
fn test_generated_function_names() {
    let test_cases = vec![
        (
            "conflict_test_request_payment_status",
            "Single",
            vec![
                "serialize_conflict_test_request_payment_status_as_string",
                "deserialize_conflict_test_request_payment_status_from_string",
            ],
        ),
        (
            "conflict_test_request_optional_payment",
            "Option",
            vec![
                "serialize_option_conflict_test_request_optional_payment_as_string",
                "deserialize_option_conflict_test_request_optional_payment_from_string",
            ],
        ),
        (
            "conflict_test_request_auth_history",
            "Repeated",
            vec![
                "serialize_repeated_conflict_test_request_auth_history_as_string",
                "deserialize_repeated_conflict_test_request_auth_history_from_string",
            ],
        ),
    ];

    for (field_id, field_label, expected_functions) in test_cases {
        let card = match field_label {
            "Single" => Cardinality::Single,
            "Option" => Cardinality::Optional,
            "Repeated" => Cardinality::Repeated,
            other => panic!("Unexpected field label: {}", other),
        };
        let serialize_fn = g2h::codegen::serializer_fn_name(card, field_id);
        let deserialize_fn = g2h::codegen::deserializer_fn_name(card, field_id);
        assert_eq!(serialize_fn, expected_functions[0]);
        assert_eq!(deserialize_fn, expected_functions[1]);
    }

    println!("Generated function names test passed!");
}
