//! Route synthesis: paths, the status table, the emitted router function
//! and the per-package footer.

use g2h::codec::{deserialize_enum_value, EnumJson};
use g2h::codegen::{emit_field_specific_enum_functions, GenError};
use g2h::config::BridgeGenerator;
use g2h::descriptor::{
    Cardinality, EnumDescriptor, EnumValue, FieldBinding, FieldDescriptor, FieldLabel, FieldType,
    FileDescriptor, MessageDescriptor, MethodDescriptor, ServiceDescriptor,
};
use g2h::router::{generate_service_router, http_status_for, route_path, RpcCode};

fn greeter_service() -> ServiceDescriptor {
    ServiceDescriptor {
        name: "Greeter".to_string(),
        proto_name: "Greeter".to_string(),
        package: "pkg".to_string(),
        methods: vec![MethodDescriptor {
            name: "say_hello".to_string(),
            proto_name: "SayHello".to_string(),
            input_type: "HelloRequest".to_string(),
            output_type: "HelloReply".to_string(),
        }],
    }
}

#[test]
fn test_route_path_format() {
    assert_eq!(route_path("pkg", "Greeter", "SayHello"), "/pkg.Greeter/SayHello");
    assert_eq!(
        route_path("hello_world", "PaymentConnector", "ProcessPayment"),
        "/hello_world.PaymentConnector/ProcessPayment"
    );
}

#[test]
fn test_status_table() {
    assert_eq!(http_status_for(RpcCode::Okay), 200);
    assert_eq!(http_status_for(RpcCode::InvalidArgument), 400);
    assert_eq!(http_status_for(RpcCode::NotFound), 404);
    assert_eq!(http_status_for(RpcCode::AlreadyExists), 409);
    assert_eq!(http_status_for(RpcCode::Aborted), 409);
    assert_eq!(http_status_for(RpcCode::PermissionDenied), 403);
    assert_eq!(http_status_for(RpcCode::Unauthenticated), 401);
    assert_eq!(http_status_for(RpcCode::ResourceExhausted), 429);
    assert_eq!(http_status_for(RpcCode::FailedPrecondition), 412);
    assert_eq!(http_status_for(RpcCode::Unimplemented), 501);
    assert_eq!(http_status_for(RpcCode::Unavailable), 503);
    assert_eq!(http_status_for(RpcCode::DeadlineExceeded), 408);
    assert_eq!(http_status_for(RpcCode::Cancelled), 408);
    assert_eq!(http_status_for(RpcCode::OutOfRange), 416);
    // The default bucket.
    assert_eq!(http_status_for(RpcCode::Unknown), 500);
    assert_eq!(http_status_for(RpcCode::Internal), 500);
    assert_eq!(http_status_for(RpcCode::DataLoss), 500);
}

/// End-to-end: the Greeter service generates a POST route at
/// `/pkg.Greeter/SayHello`, and the greeting enum accepts both the symbolic
/// name and the integer, producing the same internal value.
#[test]
fn test_end_to_end_route_and_codec_equivalence() {
    let svc = greeter_service();
    let code = generate_service_router(&svc);
    assert!(code.contains("pub fn greeter_handler"));
    assert!(code.contains("greeter_server::Greeter"));
    assert!(code.contains("router.route(\"/pkg.Greeter/SayHello\", ::axum::routing::post("));
    assert!(code.contains("::axum::Json(body): ::axum::Json<HelloRequest>"));
    assert!(code.contains("<T as greeter_server::Greeter>::say_hello(&state, request).await"));
    assert!(code.contains("router.with_state(Arc::new(server))"));

    let greeting_type = EnumDescriptor {
        name: "GreetingType".to_string(),
        values: vec![
            EnumValue { name: "FORMAL".to_string(), number: 0 },
            EnumValue { name: "CASUAL".to_string(), number: 1 },
            EnumValue { name: "FRIENDLY".to_string(), number: 2 },
        ],
    };
    let by_name = deserialize_enum_value(
        &greeting_type,
        &EnumJson::Symbol("CASUAL".to_string()),
    );
    let by_number = deserialize_enum_value(&greeting_type, &EnumJson::Number(1));
    assert_eq!(by_name, Ok(1));
    assert_eq!(by_name, by_number);
}

#[test]
fn test_router_quotes_trimmed_from_input_type() {
    let mut svc = greeter_service();
    svc.methods[0].input_type = "\"HelloRequest\"".to_string();
    let code = generate_service_router(&svc);
    assert!(code.contains("::axum::Json(body): ::axum::Json<HelloRequest>"));
    assert!(!code.contains("::axum::Json<\"HelloRequest\">"));
}

#[test]
fn test_router_status_table_text() {
    let code = generate_service_router(&greeter_service());
    assert!(code.contains("::tonic::Code::InvalidArgument => ::http::StatusCode::BAD_REQUEST"));
    assert!(code.contains(
        "::tonic::Code::AlreadyExists | ::tonic::Code::Aborted => ::http::StatusCode::CONFLICT"
    ));
    assert!(code.contains("_ => ::http::StatusCode::INTERNAL_SERVER_ERROR"));
}

#[test]
fn test_package_footer_error_envelope_only() {
    let generator = BridgeGenerator::new();
    let files: Vec<FileDescriptor> = vec![];
    let footer = generator.finalize_package("pkg", &files).expect("no generation can fail here");
    assert!(footer.contains("pub struct ErrorResponse"));
    assert!(footer.contains("pub struct ErrorDetails"));
    assert!(footer.contains("pub code: String"));
    assert!(footer.contains("pub message: String"));
    assert!(!footer.contains("enum_deserializer"));
}

#[test]
fn test_package_footer_with_string_enums() {
    let generator = BridgeGenerator::new().with_string_enums();
    let files = vec![FileDescriptor {
        package: "pkg".to_string(),
        messages: vec![MessageDescriptor {
            name: "Order".to_string(),
            fields: vec![FieldDescriptor {
                name: "state".to_string(),
                field_type: FieldType::Enum,
                label: FieldLabel::Optional,
                proto3_optional: false,
                type_ref: ".pkg.OrderState".to_string(),
            }],
            nested: vec![],
            enums: vec![],
        }],
        enums: vec![EnumDescriptor {
            name: "OrderState".to_string(),
            values: vec![EnumValue { name: "OPEN".to_string(), number: 0 }],
        }],
        services: vec![],
    }];
    let footer = generator.finalize_package("pkg", &files).expect("generation should succeed");
    assert!(footer.contains("pub struct ErrorResponse"));
    assert!(footer.contains("pub mod enum_deserializer"));
    assert!(footer.contains("serialize_order_state_as_string"));
    assert!(footer.contains("OrderState::try_from"));

    // The same package without string enums gets no codec module.
    let plain = BridgeGenerator::new();
    let footer2 = plain.finalize_package("pkg", &files).expect("no generation can fail here");
    assert!(!footer2.contains("enum_deserializer"));
}

#[test]
fn test_generation_fails_on_invalid_enum_path() {
    let bindings = vec![FieldBinding {
        field_id: "order_state".to_string(),
        enum_type_path: "]] not rust [[".to_string(),
        cardinality: Cardinality::Single,
    }];
    match emit_field_specific_enum_functions(&bindings) {
        Err(GenError::InvalidEnumPath(p)) => {
            assert_eq!(p, "]] not rust [[");
            let msg = GenError::InvalidEnumPath(p).message();
            assert_eq!(msg, "Invalid enum type path: ]] not rust [[");
        }
        other => panic!("expected an invalid-path failure, got {:?}", other),
    }

    let good = vec![FieldBinding {
        field_id: "order_state".to_string(),
        enum_type_path: "OrderState".to_string(),
        cardinality: Cardinality::Single,
    }];
    let text = emit_field_specific_enum_functions(&good).expect("a plain path lexes");
    assert!(text.contains("pub fn serialize_order_state_as_string"));
}
