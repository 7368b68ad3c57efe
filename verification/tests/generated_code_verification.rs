//! End-to-end checks on the emitted package text: the field-specific codec
//! pair of every enum field is present and dispatches through its own enum
//! type; the discarded package-wide scanning codecs are absent.

use g2h::codegen::generate_package_specific_enum_deserializer_code;
use g2h::descriptor::{
    EnumDescriptor, EnumValue, FieldDescriptor, FieldLabel, FieldType, FileDescriptor,
    MessageDescriptor,
};

fn enum_field(
    name: &str,
    type_ref: &str,
    label: FieldLabel,
    proto3_optional: bool,
) -> FieldDescriptor {
    FieldDescriptor {
        name: name.to_string(),
        field_type: FieldType::Enum,
        label,
        proto3_optional,
        type_ref: type_ref.to_string(),
    }
}

fn string_field(name: &str) -> FieldDescriptor {
    FieldDescriptor {
        name: name.to_string(),
        field_type: FieldType::Text,
        label: FieldLabel::Optional,
        proto3_optional: false,
        type_ref: String::new(),
    }
}

fn simple_enum(name: &str, values: &[(&str, i32)]) -> EnumDescriptor {
    EnumDescriptor {
        name: name.to_string(),
        values: values
            .iter()
            .map(|(n, v)| EnumValue { name: n.to_string(), number: *v })
            .collect(),
    }
}

/// The hello-world descriptor set used by the example server.
fn hello_world_files() -> Vec<FileDescriptor> {
    let conflict_test_request = MessageDescriptor {
        name: "ConflictTestRequest".to_string(),
        fields: vec![
            enum_field("payment_status", ".hello_world.PaymentStatus", FieldLabel::Optional, false),
            enum_field(
                "auth_status",
                ".hello_world.AuthenticationStatus",
                FieldLabel::Optional,
                false,
            ),
            enum_field(
                "processing_status",
                ".hello_world.ProcessingStatus",
                FieldLabel::Optional,
                false,
            ),
            enum_field(
                "optional_payment",
                ".hello_world.PaymentStatus",
                FieldLabel::Optional,
                true,
            ),
            enum_field(
                "auth_history",
                ".hello_world.AuthenticationStatus",
                FieldLabel::Repeated,
                false,
            ),
            enum_field(
                "processing_steps",
                ".hello_world.ProcessingStatus",
                FieldLabel::Repeated,
                false,
            ),
        ],
        nested: vec![],
        enums: vec![],
    };
    let hello_request = MessageDescriptor {
        name: "HelloRequest".to_string(),
        fields: vec![
            string_field("name"),
            enum_field("greeting_type", ".hello_world.GreetingType", FieldLabel::Optional, false),
        ],
        nested: vec![],
        enums: vec![],
    };
    let hello_reply = MessageDescriptor {
        name: "HelloReply".to_string(),
        fields: vec![
            string_field("message"),
            enum_field(
                "status",
                ".hello_world.HelloReply.ResponseStatus",
                FieldLabel::Optional,
                false,
            ),
        ],
        nested: vec![],
        enums: vec![simple_enum("ResponseStatus", &[("SUCCESS", 0), ("FAILURE", 1)])],
    };
    let payment_response = MessageDescriptor {
        name: "PaymentResponse".to_string(),
        fields: vec![
            string_field("transaction_id"),
            enum_field("status", ".hello_world.PaymentStatus", FieldLabel::Optional, false),
        ],
        nested: vec![],
        enums: vec![],
    };
    vec![FileDescriptor {
        package: "hello_world".to_string(),
        messages: vec![conflict_test_request, hello_request, hello_reply, payment_response],
        enums: vec![
            simple_enum("GreetingType", &[("FORMAL", 0), ("CASUAL", 1), ("FRIENDLY", 2)]),
            simple_enum("PaymentStatus", &[("SUCCESS", 0), ("PENDING", 1), ("FAILED", 2)]),
            simple_enum(
                "AuthenticationStatus",
                &[
                    ("AUTHENTICATION_SUCCESS", 0),
                    ("AUTHENTICATION_PENDING", 1),
                    ("AUTHENTICATION_FAILED", 2),
                ],
            ),
            simple_enum("ProcessingStatus", &[("COMPLETED", 0), ("PROCESSING", 1), ("ERROR", 2)]),
        ],
        services: vec![],
    }]
}

#[test]
fn test_generated_code_contains_field_specific_serializers() {
    let files = hello_world_files();
    let content = generate_package_specific_enum_deserializer_code(&files, "hello_world")
        .expect("generation should succeed");

    let expected_functions = vec![
        "serialize_conflict_test_request_payment_status_as_string",
        "deserialize_conflict_test_request_payment_status_from_string",
        "serialize_conflict_test_request_auth_status_as_string",
        "deserialize_conflict_test_request_auth_status_from_string",
        "serialize_conflict_test_request_processing_status_as_string",
        "deserialize_conflict_test_request_processing_status_from_string",
        "serialize_option_conflict_test_request_optional_payment_as_string",
        "deserialize_option_conflict_test_request_optional_payment_from_string",
        "serialize_repeated_conflict_test_request_auth_history_as_string",
        "deserialize_repeated_conflict_test_request_auth_history_from_string",
        "serialize_repeated_conflict_test_request_processing_steps_as_string",
        "deserialize_repeated_conflict_test_request_processing_steps_from_string",
        "serialize_hello_request_greeting_type_as_string",
        "serialize_hello_reply_status_as_string",
        "serialize_payment_response_status_as_string",
    ];

    for func_name in &expected_functions {
        assert!(
            content.contains(func_name),
            "Generated code should contain function: {}",
            func_name
        );
        println!("Found expected function: {}", func_name);
    }

    // Each codec dispatches through its own bound enum type.
    let type_usages = vec![
        ("serialize_conflict_test_request_payment_status_as_string", "PaymentStatus::try_from"),
        (
            "serialize_conflict_test_request_auth_status_as_string",
            "AuthenticationStatus::try_from",
        ),
        (
            "serialize_conflict_test_request_processing_status_as_string",
            "ProcessingStatus::try_from",
        ),
        (
            "deserialize_conflict_test_request_payment_status_from_string",
            "PaymentStatus::from_str_name",
        ),
        (
            "deserialize_conflict_test_request_auth_status_from_string",
            "AuthenticationStatus::from_str_name",
        ),
        (
            "deserialize_conflict_test_request_processing_status_from_string",
            "ProcessingStatus::from_str_name",
        ),
        ("serialize_hello_reply_status_as_string", "hello_reply::ResponseStatus::try_from"),
    ];

    for (func_name, expected_usage) in type_usages {
        let start = content
            .find(&format!("pub fn {}", func_name))
            .unwrap_or_else(|| panic!("Could not find function definition for {}", func_name));
        let rest = &content[start..];
        let end = rest.find("\n}\n").map(|e| e + 3).unwrap_or(rest.len());
        let body = &rest[..end];
        assert!(
            body.contains(expected_usage),
            "Function {} should use {}, but doesn't in its implementation",
            func_name,
            expected_usage
        );
        println!("Function {} correctly uses {}", func_name, expected_usage);
    }

    assert!(
        content.contains("pub mod enum_deserializer"),
        "Generated code should contain enum_deserializer module"
    );
}

#[test]
fn test_no_generic_enum_serializers() {
    let files = hello_world_files();
    let content = generate_package_specific_enum_deserializer_code(&files, "hello_world")
        .expect("generation should succeed");

    let deprecated_functions = vec![
        "serialize_repeated_enum_as_string",
        "deserialize_repeated_enum_from_string",
        "serialize_enum_as_string",
        "deserialize_enum_from_string",
        "serialize_option_enum_as_string",
        "deserialize_option_enum_from_string",
        "try_serialize_all_enums!",
        "try_parse_all_enums!",
    ];

    for func_name in deprecated_functions {
        assert!(
            !content.contains(func_name),
            "Generated code should NOT contain deprecated generic function: {}",
            func_name
        );
        println!("Correctly does not contain deprecated function: {}", func_name);
    }

    println!("No generic enum serializers test passed!");
}
