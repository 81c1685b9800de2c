use schema_registry::error::SchemaRegistryError;
use schema_registry::text::{decimal_string, flag_str, matches_ignore_ascii_case};
use schema_registry::types::{
    ClusterConfig, CompatibilityLevel, Mode, Reference, SchemaType, SubjectConfig,
    UnregisteredSchema, Version,
};
use std::collections::HashMap;

fn map(k: &str, v: &str) -> HashMap<String, String> {
    let mut m = HashMap::new();
    m.insert(k.to_string(), v.to_string());
    m
}

#[test]
fn numbers_in_decimal() {
    assert_eq!(decimal_string(0), "0");
    assert_eq!(decimal_string(7), "7");
    assert_eq!(decimal_string(10), "10");
    assert_eq!(decimal_string(4096), "4096");
    assert_eq!(decimal_string(1000000), "1000000");
    assert_eq!(decimal_string(u32::MAX), "4294967295");
}

#[test]
fn flags_as_text() {
    assert_eq!(flag_str(true), "true");
    assert_eq!(flag_str(false), "false");
}

#[test]
fn texts_compared_without_case() {
    assert!(matches_ignore_ascii_case("avro", "AVRO"));
    assert!(matches_ignore_ascii_case("", ""));
    assert!(matches_ignore_ascii_case("Az[`{", "aZ[`{"));
    assert!(!matches_ignore_ascii_case("avro", "avr"));
    assert!(!matches_ignore_ascii_case("json", "jsom"));
    assert!(!matches_ignore_ascii_case("@", "`"));
    assert!(!matches_ignore_ascii_case("[", "{"));
    assert!(!matches_ignore_ascii_case("\u{e9}", "\u{c9}"));
    assert!(matches_ignore_ascii_case("caf\u{e9}", "CAF\u{e9}"));
}

#[test]
fn versions_as_text() {
    assert_eq!(Version::Latest.to_string(), "latest");
    assert_eq!(Version::Number(1).to_string(), "1");
    assert_eq!(Version::Number(120).to_string(), "120");
    assert_eq!(Version::default(), Version::Latest);
}

#[test]
fn compatibility_levels_as_text() {
    assert_eq!(CompatibilityLevel::Backward.to_string(), "BACKWARD");
    assert_eq!(CompatibilityLevel::BackwardTransitive.to_string(), "BACKWARD_TRANSITIVE");
    assert_eq!(CompatibilityLevel::Forward.to_string(), "FORWARD");
    assert_eq!(CompatibilityLevel::ForwardTransitive.to_string(), "FORWARD_TRANSITIVE");
    assert_eq!(CompatibilityLevel::Full.to_string(), "FULL");
    assert_eq!(CompatibilityLevel::FullTransitive.to_string(), "FULL_TRANSITIVE");
    assert_eq!(CompatibilityLevel::Unchecked.to_string(), "NONE");
    assert_eq!(CompatibilityLevel::default(), CompatibilityLevel::Backward);
    assert_eq!(Mode::default(), Mode::ReadWrite);
}

#[test]
fn schema_types_as_text_and_back() {
    assert_eq!(SchemaType::Avro.to_string(), "AVRO");
    assert_eq!(SchemaType::Protobuf.to_string(), "PROTOBUF");
    assert_eq!(SchemaType::Json.to_string(), "JSON");
    assert_eq!(SchemaType::default(), SchemaType::Avro);
    for t in [SchemaType::Avro, SchemaType::Protobuf, SchemaType::Json] {
        assert_eq!(SchemaType::from_str(&t.to_string()).expect("read back"), t);
    }
    assert_eq!(SchemaType::from_str("avro").expect("avro"), SchemaType::Avro);
    assert_eq!(SchemaType::from_str("ProtoBuf").expect("protobuf"), SchemaType::Protobuf);
    assert_eq!("json".parse::<SchemaType>().expect("json"), SchemaType::Json);
}

#[test]
fn a_text_that_names_no_schema_type_is_kept_in_the_error() {
    match SchemaType::from_str("XML") {
        Err(SchemaRegistryError::InvalidSchemaType { message }) => assert_eq!(message, "XML"),
        _ => panic!("expected an invalid schema type"),
    }
    assert!(SchemaType::from_str("").is_err());
    assert!(SchemaType::from_str("AVRO ").is_err());
    match SchemaRegistryError::invalid_schema_type("thrift") {
        SchemaRegistryError::InvalidSchemaType { message } => assert_eq!(message, "thrift"),
        _ => panic!("expected an invalid schema type"),
    }
}

#[test]
fn a_reference_points_at_the_first_version() {
    let r = Reference::new("Author", "test.avro.author-value");
    assert_eq!(r.name, "Author");
    assert_eq!(r.subject, "test.avro.author-value");
    assert_eq!(r.version, 1);
    let r = r.version(3);
    assert_eq!(r, Reference { name: "Author".into(), subject: "test.avro.author-value".into(), version: 3 });
}

#[test]
fn an_unregistered_schema_is_avro_without_references() {
    let s = UnregisteredSchema::schema("{}");
    assert_eq!(s.schema, "{}");
    assert_eq!(s.schema_type, SchemaType::Avro);
    assert!(s.references.is_none());
    let s = s.schema_type(SchemaType::Json);
    assert_eq!(s.schema_type, SchemaType::Json);
    assert_eq!(s.schema, "{}");
}

#[test]
fn references_are_added_behind_those_that_are_there() {
    let a = Reference::new("a", "sa");
    let b = Reference::new("b", "sb").version(2);
    let c = Reference::new("c", "sc");
    let s = UnregisteredSchema::schema("{}").reference(a.clone());
    assert_eq!(s.references, Some(vec![a.clone()]));
    let s = s.reference(b.clone());
    assert_eq!(s.references, Some(vec![a.clone(), b.clone()]));
    let s = s.references(vec![c.clone(), a.clone()]);
    assert_eq!(s.references, Some(vec![a.clone(), b.clone(), c.clone(), a.clone()]));
    let s = UnregisteredSchema::schema("{}").references(vec![b.clone(), c.clone()]);
    assert_eq!(s.references, Some(vec![b, c]));
    let s = UnregisteredSchema::schema("{}").references(Vec::new());
    assert_eq!(s.references, Some(Vec::new()));
}

#[test]
fn a_cluster_config_is_built_field_by_field() {
    let empty = ClusterConfig::new();
    assert_eq!(empty, ClusterConfig::default());
    assert!(empty.alias.is_none() && empty.normalize.is_none());
    assert!(empty.compatibility_level.is_none() && empty.compatibility_group.is_none());
    assert!(empty.default_metadata.is_none() && empty.override_metadata.is_none());
    assert!(empty.default_rule_set.is_none() && empty.override_rule_set.is_none());
    let c = ClusterConfig::new()
        .alias("a")
        .normalize(true)
        .compatibility_level(CompatibilityLevel::Full)
        .compatibility_group("g")
        .default_metadata(map("dm", "1"))
        .override_metadata(map("om", "2"))
        .default_rule_set(map("dr", "3"))
        .override_rule_set(map("or", "4"));
    assert_eq!(
        c,
        ClusterConfig {
            alias: Some("a".into()),
            normalize: Some(true),
            compatibility_level: Some(CompatibilityLevel::Full),
            compatibility_group: Some("g".into()),
            default_metadata: Some(map("dm", "1")),
            override_metadata: Some(map("om", "2")),
            default_rule_set: Some(map("dr", "3")),
            override_rule_set: Some(map("or", "4")),
        }
    );
    let c = ClusterConfig::new().normalize(false);
    assert_eq!(c.normalize, Some(false));
    assert!(c.alias.is_none());
}

#[test]
fn a_subject_config_is_built_field_by_field() {
    let empty = SubjectConfig::new();
    assert_eq!(empty, SubjectConfig::default());
    assert!(empty.alias.is_none() && empty.compatibility_level.is_none());
    let c = SubjectConfig::new()
        .alias("a")
        .normalize(false)
        .compatibility_level(CompatibilityLevel::Forward)
        .compatibility_group("g")
        .default_metadata(map("dm", "1"))
        .override_metadata(map("om", "2"))
        .default_rule_set(map("dr", "3"))
        .override_rule_set(map("or", "4"));
    assert_eq!(
        c,
        SubjectConfig {
            alias: Some("a".into()),
            normalize: Some(false),
            compatibility_level: Some(CompatibilityLevel::Forward),
            compatibility_group: Some("g".into()),
            default_metadata: Some(map("dm", "1")),
            override_metadata: Some(map("om", "2")),
            default_rule_set: Some(map("dr", "3")),
            override_rule_set: Some(map("or", "4")),
        }
    );
}
