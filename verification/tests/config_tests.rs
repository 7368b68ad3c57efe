//! Generator options and the package-wide enum listing module.

use g2h::codegen::GenError;
use g2h::config::{type_serde_attribute, BridgeGenerator, EnumConfig};
use g2h::descriptor::{EnumDescriptor, EnumValue, FileDescriptor, MessageDescriptor};

#[test]
fn test_generator_options() {
    let g = BridgeGenerator::new();
    assert!(!g.enable_string_enums);
    assert!(g.descriptor_set_path.is_none());
    assert!(!g.needs_descriptor_set());

    let g = g.with_string_enums();
    assert!(g.enable_string_enums);
    assert!(g.needs_descriptor_set());

    let g = BridgeGenerator::new().file_descriptor_set_path("target/descriptors.bin");
    assert!(!g.enable_string_enums);
    assert_eq!(g.descriptor_set_path.as_deref(), Some("target/descriptors.bin"));
    assert!(g.needs_descriptor_set());
}

#[test]
fn test_type_serde_attribute_text() {
    assert_eq!(
        type_serde_attribute(),
        "#[derive(serde::Serialize, serde::Deserialize)]"
    );
}

fn listing_files(enum_name: &str) -> Vec<FileDescriptor> {
    vec![FileDescriptor {
        package: "pkg".to_string(),
        messages: vec![MessageDescriptor {
            name: "HelloReply".to_string(),
            fields: vec![],
            nested: vec![],
            enums: vec![EnumDescriptor {
                name: "ResponseStatus".to_string(),
                values: vec![EnumValue { name: "SUCCESS".to_string(), number: 0 }],
            }],
        }],
        enums: vec![EnumDescriptor {
            name: enum_name.to_string(),
            values: vec![EnumValue { name: "OPEN".to_string(), number: 0 }],
        }],
        services: vec![],
    }]
}

#[test]
fn test_enum_listing_module_contents() {
    let config = EnumConfig::new(BridgeGenerator::new().with_string_enums());
    let code = config
        .generate_enum_deserializer_code(&listing_files("OrderState"))
        .expect("plain enum names lex");
    assert!(code.contains("pub mod enum_deserializer"));
    assert!(code.contains("macro_rules! try_parse_all_enums"));
    assert!(code.contains("macro_rules! try_serialize_all_enums"));
    assert!(code.contains("OrderState::from_str_name($s)"));
    assert!(code.contains("OrderState::try_from($value)"));
    // Message-nested enums are listed under their module path.
    assert!(code.contains("hello_reply::ResponseStatus::from_str_name($s)"));
    // The shared codecs that scan the list.
    assert!(code.contains("pub fn deserialize_enum_from_string"));
    assert!(code.contains("pub fn serialize_repeated_enum_as_string"));
}

#[test]
fn test_enum_listing_rejects_invalid_path() {
    let config = EnumConfig::new(BridgeGenerator::new().with_string_enums());
    match config.generate_enum_deserializer_code(&listing_files("]x[")) {
        Err(GenError::InvalidEnumPath(p)) => assert!(p.contains("]x[")),
        other => panic!("expected an invalid-path failure, got {:?}", other),
    }
}
