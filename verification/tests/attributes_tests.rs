//! Omission annotation and enum-field serde attribute assignment.

use g2h::attributes::{
    collect_enum_field_attributes, collect_skip_attributes, enum_field_attribute,
    skip_attribute_for_field,
};
use g2h::descriptor::{
    FieldDescriptor, FieldLabel, FieldType, FileDescriptor, MessageDescriptor,
};

fn field(
    name: &str,
    field_type: FieldType,
    label: FieldLabel,
    proto3_optional: bool,
    type_ref: &str,
) -> FieldDescriptor {
    FieldDescriptor {
        name: name.to_string(),
        field_type,
        label,
        proto3_optional,
        type_ref: type_ref.to_string(),
    }
}

#[test]
fn test_skip_attribute_decision() {
    // Explicit-optional fields are omitted when absent.
    let explicit = field("note", FieldType::Text, FieldLabel::Optional, true, "");
    assert_eq!(
        skip_attribute_for_field(&explicit),
        Some("#[serde(skip_serializing_if = \"Option::is_none\")]")
    );

    // Label-optional message fields are omitted when absent.
    let msg = field("detail", FieldType::Message, FieldLabel::Optional, false, ".pkg.Detail");
    assert_eq!(
        skip_attribute_for_field(&msg),
        Some("#[serde(skip_serializing_if = \"Option::is_none\")]")
    );

    // Plain string fields are omitted when empty.
    let text = field("code", FieldType::Text, FieldLabel::Optional, false, "");
    assert_eq!(
        skip_attribute_for_field(&text),
        Some("#[serde(skip_serializing_if = \"String::is_empty\")]")
    );

    // Repeated strings are not annotated.
    let repeated_text = field("tags", FieldType::Text, FieldLabel::Repeated, false, "");
    assert_eq!(skip_attribute_for_field(&repeated_text), None);

    // Other scalar fields are not annotated.
    let number = field("count", FieldType::Other, FieldLabel::Optional, false, "");
    assert_eq!(skip_attribute_for_field(&number), None);
}

#[test]
fn test_enum_field_attribute_text() {
    let single = field("status", FieldType::Enum, FieldLabel::Optional, false, ".pkg.Status");
    let attr = enum_field_attribute("order", "Order", &single, false);
    assert_eq!(attr.path, "Order.status");
    assert_eq!(
        attr.attribute,
        "#[serde(serialize_with = \"enum_deserializer::serialize_order_status_as_string\", \
         deserialize_with = \"enum_deserializer::deserialize_order_status_from_string\", default)]"
    );

    let explicit = field("mode", FieldType::Enum, FieldLabel::Optional, true, ".pkg.Mode");
    let attr = enum_field_attribute("order", "Order", &explicit, false);
    assert_eq!(
        attr.attribute,
        "#[serde(serialize_with = \"enum_deserializer::serialize_option_order_mode_as_string\", \
         deserialize_with = \"enum_deserializer::deserialize_option_order_mode_from_string\", default)]"
    );

    let repeated = field("states", FieldType::Enum, FieldLabel::Repeated, false, ".pkg.Status");
    let attr = enum_field_attribute("order", "Order", &repeated, false);
    assert_eq!(
        attr.attribute,
        "#[serde(serialize_with = \"enum_deserializer::serialize_repeated_order_states_as_string\", \
         deserialize_with = \"enum_deserializer::deserialize_repeated_order_states_from_string\", default)]"
    );

    // A required field carries no `default`.
    let required = field("kind", FieldType::Enum, FieldLabel::Required, false, ".pkg.Kind");
    let attr = enum_field_attribute("order", "Order", &required, false);
    assert_eq!(
        attr.attribute,
        "#[serde(serialize_with = \"enum_deserializer::serialize_order_kind_as_string\", \
         deserialize_with = \"enum_deserializer::deserialize_order_kind_from_string\")]"
    );

    // Nested messages reach the codec module one level up.
    let attr = enum_field_attribute("order_item", "Item", &single, true);
    assert_eq!(attr.path, "Item.status");
    assert!(attr
        .attribute
        .contains("super::enum_deserializer::serialize_order_item_status_as_string"));
}

fn sample_files() -> Vec<FileDescriptor> {
    let inner = MessageDescriptor {
        name: "Inner".to_string(),
        fields: vec![
            field("level", FieldType::Enum, FieldLabel::Optional, false, ".pkg.Level"),
            field("label", FieldType::Text, FieldLabel::Optional, false, ""),
        ],
        nested: vec![],
        enums: vec![],
    };
    let outer = MessageDescriptor {
        name: "Outer".to_string(),
        fields: vec![
            field("state", FieldType::Enum, FieldLabel::Optional, true, ".pkg.State"),
            field("detail", FieldType::Message, FieldLabel::Optional, false, ".pkg.Inner"),
        ],
        nested: vec![inner],
        enums: vec![],
    };
    vec![FileDescriptor {
        package: "pkg".to_string(),
        messages: vec![outer],
        enums: vec![],
        services: vec![],
    }]
}

#[test]
fn test_collect_skip_attributes_walks_nested_messages() {
    let files = sample_files();
    let attrs = collect_skip_attributes(&files);
    let pairs: Vec<(String, String)> = attrs
        .iter()
        .map(|a| (a.path.clone(), a.attribute.clone()))
        .collect();
    assert_eq!(
        pairs,
        vec![
            (
                "Outer.state".to_string(),
                "#[serde(skip_serializing_if = \"Option::is_none\")]".to_string()
            ),
            (
                "Outer.detail".to_string(),
                "#[serde(skip_serializing_if = \"Option::is_none\")]".to_string()
            ),
            (
                "Inner.label".to_string(),
                "#[serde(skip_serializing_if = \"String::is_empty\")]".to_string()
            ),
        ]
    );
}

#[test]
fn test_collect_enum_field_attributes_walks_nested_messages() {
    let files = sample_files();
    let attrs = collect_enum_field_attributes(&files);
    assert_eq!(attrs.len(), 2);
    assert_eq!(attrs[0].path, "Outer.state");
    assert!(attrs[0]
        .attribute
        .contains("enum_deserializer::serialize_option_outer_state_as_string"));
    assert!(!attrs[0].attribute.contains("super::"));
    assert_eq!(attrs[1].path, "Inner.level");
    assert!(attrs[1]
        .attribute
        .contains("super::enum_deserializer::serialize_outer_inner_level_as_string"));
}
