//! The vocabulary of the registry: schemas, subjects, versions, modes,
//! compatibility levels, exporters and the configuration records.

use crate::error::SchemaRegistryError;
use crate::text::{
    ascii_lower, decimal, decimal_string, eq_ignore_ascii_case, matches_ignore_ascii_case,
};
use std::collections::HashMap;
use vstd::prelude::*;

verus! {

/// The answer to a compatibility check.
#[derive(Debug, Clone, Copy, Eq, PartialEq)]
pub struct CompatibilityCheck {
    pub is_compatible: bool,
}

/// What an exporter reports of itself.
#[derive(Debug, Clone, Eq, PartialEq)]
pub struct ExporterStatus {
    pub name: String,
    pub state: String,
    pub offset: i64,
    pub ts: i64,
    pub trace: Option<String>,
}

/// The description of an exporter. Only `config` is mandatory.
#[derive(Debug, Clone, Eq, PartialEq)]
pub struct ExporterConfig {
    pub name: Option<String>,
    pub context_type: Option<String>,
    pub context: Option<String>,
    pub subjects: Option<Vec<String>>,
    pub subject_rename_format: Option<String>,
    pub config: HashMap<String, String>,
}

/// The configuration of the whole registry. A field that is `None` is left
/// as the registry has it.
#[derive(Debug, Clone, Eq, PartialEq)]
pub struct ClusterConfig {
    pub alias: Option<String>,
    pub normalize: Option<bool>,
    pub compatibility_level: Option<CompatibilityLevel>,
    pub compatibility_group: Option<String>,
    pub default_metadata: Option<HashMap<String, String>>,
    pub override_metadata: Option<HashMap<String, String>>,
    pub default_rule_set: Option<HashMap<String, String>>,
    pub override_rule_set: Option<HashMap<String, String>>,
}

impl Default for ClusterConfig {
    fn default() -> (r: Self)
        ensures
            r.is_unset(),
    {
        ClusterConfig {
            alias: None,
            normalize: None,
            compatibility_level: None,
            compatibility_group: None,
            default_metadata: None,
            override_metadata: None,
            default_rule_set: None,
            override_rule_set: None,
        }
    }
}

impl ClusterConfig {
    /// No field is set.
    pub open spec fn is_unset(&self) -> bool {
        &&& self.alias is None
        &&& self.normalize is None
        &&& self.compatibility_level is None
        &&& self.compatibility_group is None
        &&& self.default_metadata is None
        &&& self.override_metadata is None
        &&& self.default_rule_set is None
        &&& self.override_rule_set is None
    }

    /// A configuration that sets nothing.
    pub fn new() -> (r: Self)
        ensures
            r.is_unset(),
    {
        ClusterConfig {
            alias: None,
            normalize: None,
            compatibility_level: None,
            compatibility_group: None,
            default_metadata: None,
            override_metadata: None,
            default_rule_set: None,
            override_rule_set: None,
        }
    }

    /// Sets the alias and nothing else.
    pub fn alias(self, alias: &str) -> (r: Self)
        ensures
            r == (ClusterConfig { alias: r.alias, ..self }),
            r.alias matches Some(a) && a@ == alias@,
    {
        let mut r = self;
        r.alias = Some(String::from_str(alias));
        r
    }

    /// Sets whether schemas are normalised and nothing else.
    pub fn normalize(self, normalize: bool) -> (r: Self)
        ensures
            r == (ClusterConfig { normalize: Some(normalize), ..self }),
    {
        let mut r = self;
        r.normalize = Some(normalize);
        r
    }

    /// Sets the compatibility level and nothing else.
    pub fn compatibility_level(self, compatibility_level: CompatibilityLevel) -> (r: Self)
        ensures
            r == (ClusterConfig { compatibility_level: Some(compatibility_level), ..self }),
    {
        let mut r = self;
        r.compatibility_level = Some(compatibility_level);
        r
    }

    /// Sets the compatibility group and nothing else.
    pub fn compatibility_group(self, compatibility_group: &str) -> (r: Self)
        ensures
            r == (ClusterConfig { compatibility_group: r.compatibility_group, ..self }),
            r.compatibility_group matches Some(g) && g@ == compatibility_group@,
    {
        let mut r = self;
        r.compatibility_group = Some(String::from_str(compatibility_group));
        r
    }

    /// Sets the default metadata and nothing else.
    pub fn default_metadata(self, default_metadata: HashMap<String, String>) -> (r: Self)
        ensures
            r == (ClusterConfig { default_metadata: Some(default_metadata), ..self }),
    {
        let mut r = self;
        r.default_metadata = Some(default_metadata);
        r
    }

    /// Sets the override metadata and nothing else.
    pub fn override_metadata(self, override_metadata: HashMap<String, String>) -> (r: Self)
        ensures
            r == (ClusterConfig { override_metadata: Some(override_metadata), ..self }),
    {
        let mut r = self;
        r.override_metadata = Some(override_metadata);
        r
    }

    /// Sets the default rule set and nothing else.
    pub fn default_rule_set(self, default_rule_set: HashMap<String, String>) -> (r: Self)
        ensures
            r == (ClusterConfig { default_rule_set: Some(default_rule_set), ..self }),
    {
        let mut r = self;
        r.default_rule_set = Some(default_rule_set);
        r
    }

    /// Sets the override rule set and nothing else.
    pub fn override_rule_set(self, override_rule_set: HashMap<String, String>) -> (r: Self)
        ensures
            r == (ClusterConfig { override_rule_set: Some(override_rule_set), ..self }),
    {
        let mut r = self;
        r.override_rule_set = Some(override_rule_set);
        r
    }
}

/// The configuration of one subject. A field that is `None` is left as the
/// registry has it.
#[derive(Debug, Clone, Eq, PartialEq)]
pub struct SubjectConfig {
    pub alias: Option<String>,
    pub normalize: Option<bool>,
    pub compatibility_level: Option<CompatibilityLevel>,
    pub compatibility_group: Option<String>,
    pub default_metadata: Option<HashMap<String, String>>,
    pub override_metadata: Option<HashMap<String, String>>,
    pub default_rule_set: Option<HashMap<String, String>>,
    pub override_rule_set: Option<HashMap<String, String>>,
}

impl Default for SubjectConfig {
    fn default() -> (r: Self)
        ensures
            r.is_unset(),
    {
        SubjectConfig {
            alias: None,
            normalize: None,
            compatibility_level: None,
            compatibility_group: None,
            default_metadata: None,
            override_metadata: None,
            default_rule_set: None,
            override_rule_set: None,
        }
    }
}

impl SubjectConfig {
    /// No field is set.
    pub open spec fn is_unset(&self) -> bool {
        &&& self.alias is None
        &&& self.normalize is None
        &&& self.compatibility_level is None
        &&& self.compatibility_group is None
        &&& self.default_metadata is None
        &&& self.override_metadata is None
        &&& self.default_rule_set is None
        &&& self.override_rule_set is None
    }

    /// A configuration that sets nothing.
    pub fn new() -> (r: Self)
        ensures
            r.is_unset(),
    {
        SubjectConfig {
            alias: None,
            normalize: None,
            compatibility_level: None,
            compatibility_group: None,
            default_metadata: None,
            override_metadata: None,
            default_rule_set: None,
            override_rule_set: None,
        }
    }

    /// Sets the alias and nothing else.
    pub fn alias(self, alias: &str) -> (r: Self)
        ensures
            r == (SubjectConfig { alias: r.alias, ..self }),
            r.alias matches Some(a) && a@ == alias@,
    {
        let mut r = self;
        r.alias = Some(String::from_str(alias));
        r
    }

    /// Sets whether schemas are normalised and nothing else.
    pub fn normalize(self, normalize: bool) -> (r: Self)
        ensures
            r == (SubjectConfig { normalize: Some(normalize), ..self }),
    {
        let mut r = self;
        r.normalize = Some(normalize);
        r
    }

    /// Sets the compatibility level and nothing else.
    pub fn compatibility_level(self, compatibility_level: CompatibilityLevel) -> (r: Self)
        ensures
            r == (SubjectConfig { compatibility_level: Some(compatibility_level), ..self }),
    {
        let mut r = self;
        r.compatibility_level = Some(compatibility_level);
        r
    }

    /// Sets the compatibility group and nothing else.
    pub fn compatibility_group(self, compatibility_group: &str) -> (r: Self)
        ensures
            r == (SubjectConfig { compatibility_group: r.compatibility_group, ..self }),
            r.compatibility_group matches Some(g) && g@ == compatibility_group@,
    {
        let mut r = self;
        r.compatibility_group = Some(String::from_str(compatibility_group));
        r
    }

    /// Sets the default metadata and nothing else.
    pub fn default_metadata(self, default_metadata: HashMap<String, String>) -> (r: Self)
        ensures
            r == (SubjectConfig { default_metadata: Some(default_metadata), ..self }),
    {
        let mut r = self;
        r.default_metadata = Some(default_metadata);
        r
    }

    /// Sets the override metadata and nothing else.
    pub fn override_metadata(self, override_metadata: HashMap<String, String>) -> (r: Self)
        ensures
            r == (SubjectConfig { override_metadata: Some(override_metadata), ..self }),
    {
        let mut r = self;
        r.override_metadata = Some(override_metadata);
        r
    }

    /// Sets the default rule set and nothing else.
    pub fn default_rule_set(self, default_rule_set: HashMap<String, String>) -> (r: Self)
        ensures
            r == (SubjectConfig { default_rule_set: Some(default_rule_set), ..self }),
    {
        let mut r = self;
        r.default_rule_set = Some(default_rule_set);
        r
    }

    /// Sets the override rule set and nothing else.
    pub fn override_rule_set(self, override_rule_set: HashMap<String, String>) -> (r: Self)
        ensures
            r == (SubjectConfig { override_rule_set: Some(override_rule_set), ..self }),
    {
        let mut r = self;
        r.override_rule_set = Some(override_rule_set);
        r
    }
}

/// The identifier that the registry gave a schema.
#[derive(Debug, Clone, Copy, Eq, PartialEq)]
pub struct Id {
    pub id: u32,
}

/// The identifier of a schema that has just been registered.
#[derive(Debug, Clone)]
pub struct RegisteredSchema {
    pub id: u32,
}

/// A mode, as a request or an answer carries it.
#[derive(Debug, Clone, Copy, Eq, PartialEq)]
pub struct ResourceMode {
    pub mode: Mode,
}

/// What the registry, or one subject, accepts at the moment.
#[derive(Debug, Clone, Copy, Eq, PartialEq, Structural)]
pub enum Mode {
    ReadWrite,
    ReadOnly,
    Import,
}

impl Default for Mode {
    fn default() -> (r: Self)
        ensures
            r == Mode::ReadWrite,
    {
        Mode::ReadWrite
    }
}

/// Which changes of a schema a subject accepts.
#[derive(Debug, Clone, Copy, Eq, PartialEq, Structural)]
pub enum CompatibilityLevel {
    Backward,
    BackwardTransitive,
    Forward,
    ForwardTransitive,
    Full,
    FullTransitive,
    /// No change is checked. The registry writes this level `NONE`.
    Unchecked,
}

impl Default for CompatibilityLevel {
    fn default() -> (r: Self)
        ensures
            r == CompatibilityLevel::Backward,
    {
        CompatibilityLevel::Backward
    }
}

impl CompatibilityLevel {
    /// The name of the level as the registry writes it.
    pub open spec fn text(&self) -> Seq<char> {
        match self {
            CompatibilityLevel::Backward => "BACKWARD"@,
            CompatibilityLevel::BackwardTransitive => "BACKWARD_TRANSITIVE"@,
            CompatibilityLevel::Forward => "FORWARD"@,
            CompatibilityLevel::ForwardTransitive => "FORWARD_TRANSITIVE"@,
            CompatibilityLevel::Full => "FULL"@,
            CompatibilityLevel::FullTransitive => "FULL_TRANSITIVE"@,
            CompatibilityLevel::Unchecked => "NONE"@,
        }
    }

    /// The name of the level as the registry writes it.
    pub fn to_string(&self) -> (r: String)
        ensures
            r@ == self.text(),
    {
        match self {
            CompatibilityLevel::Backward => String::from_str("BACKWARD"),
            CompatibilityLevel::BackwardTransitive => String::from_str("BACKWARD_TRANSITIVE"),
            CompatibilityLevel::Forward => String::from_str("FORWARD"),
            CompatibilityLevel::ForwardTransitive => String::from_str("FORWARD_TRANSITIVE"),
            CompatibilityLevel::Full => String::from_str("FULL"),
            CompatibilityLevel::FullTransitive => String::from_str("FULL_TRANSITIVE"),
            CompatibilityLevel::Unchecked => String::from_str("NONE"),
        }
    }
}

/// A version of a subject: a number, or whichever is the latest.
#[derive(Debug, Clone, Copy, Eq, PartialEq, Structural)]
pub enum Version {
    Latest,
    Number(u32),
}

impl Default for Version {
    fn default() -> (r: Self)
        ensures
            r == Version::Latest,
    {
        Version::Latest
    }
}

impl Version {
    /// The version as a request path carries it: `latest`, or the number in
    /// decimal.
    pub open spec fn text(&self) -> Seq<char> {
        match self {
            Version::Latest => "latest"@,
            Version::Number(n) => decimal(*n as nat),
        }
    }

    /// The version as a request path carries it.
    pub fn to_string(&self) -> (r: String)
        ensures
            r@ == self.text(),
    {
        match self {
            Version::Latest => String::from_str("latest"),
            Version::Number(n) => decimal_string(*n),
        }
    }
}

/// The language a schema is written in.
#[derive(Debug, Clone, Copy, Eq, PartialEq, Structural)]
pub enum SchemaType {
    Avro,
    Protobuf,
    Json,
}

impl Default for SchemaType {
    fn default() -> (r: Self)
        ensures
            r == SchemaType::Avro,
    {
        SchemaType::Avro
    }
}

impl SchemaType {
    /// The name of the schema type as the registry writes it.
    pub open spec fn text(&self) -> Seq<char> {
        match self {
            SchemaType::Avro => "AVRO"@,
            SchemaType::Protobuf => "PROTOBUF"@,
            SchemaType::Json => "JSON"@,
        }
    }

    /// The schema type that `s` names, in any mix of capital and small
    /// letters; `None` where it names none.
    pub open spec fn named_by(s: Seq<char>) -> Option<SchemaType> {
        if eq_ignore_ascii_case(s, "AVRO"@) {
            Some(SchemaType::Avro)
        } else if eq_ignore_ascii_case(s, "PROTOBUF"@) {
            Some(SchemaType::Protobuf)
        } else if eq_ignore_ascii_case(s, "JSON"@) {
            Some(SchemaType::Json)
        } else {
            None
        }
    }

    /// The name of the schema type as the registry writes it.
    pub fn to_string(&self) -> (r: String)
        ensures
            r@ == self.text(),
    {
        match self {
            SchemaType::Avro => String::from_str("AVRO"),
            SchemaType::Protobuf => String::from_str("PROTOBUF"),
            SchemaType::Json => String::from_str("JSON"),
        }
    }

    /// Reads the name of a schema type, whatever the case of its letters. A
    /// text that names none is refused with an error that keeps the text.
    pub fn from_str(s: &str) -> (r: Result<SchemaType, SchemaRegistryError>)
        ensures
            match r {
                Ok(schema_type) => SchemaType::named_by(s@) == Some(schema_type),
                Err(e) => {
                    &&& SchemaType::named_by(s@) is None
                    &&& e matches SchemaRegistryError::InvalidSchemaType { message }
                        && message@ == s@
                },
            },
    {
        if matches_ignore_ascii_case(s, "AVRO") {
            Ok(SchemaType::Avro)
        } else if matches_ignore_ascii_case(s, "PROTOBUF") {
            Ok(SchemaType::Protobuf)
        } else if matches_ignore_ascii_case(s, "JSON") {
            Ok(SchemaType::Json)
        } else {
            Err(SchemaRegistryError::invalid_schema_type(s))
        }
    }

    /// Every schema type is read back from its own name.
    pub proof fn lemma_name_round_trip(schema_type: SchemaType)
        ensures
            SchemaType::named_by(schema_type.text()) == Some(schema_type),
    {
        reveal_strlit("AVRO");
        reveal_strlit("PROTOBUF");
        reveal_strlit("JSON");
        assert(!eq_ignore_ascii_case("JSON"@, "AVRO"@)) by {
            assert("JSON"@[0] == 'J' && "AVRO"@[0] == 'A');
            assert(ascii_lower('J') == 'j' && ascii_lower('A') == 'a');
        }
    }
}

impl std::str::FromStr for SchemaType {
    type Err = SchemaRegistryError;

    fn from_str(s: &str) -> (r: Result<Self, Self::Err>)
        ensures
            match r {
                Ok(schema_type) => SchemaType::named_by(s@) == Some(schema_type),
                Err(e) => {
                    &&& SchemaType::named_by(s@) is None
                    &&& e matches SchemaRegistryError::InvalidSchemaType { message }
                        && message@ == s@
                },
            },
    {
        SchemaType::from_str(s)
    }
}

/// A schema to look a subject up by.
#[derive(Debug, Clone, Eq, PartialEq)]
pub struct LookupSubject {
    pub schema: String,
    pub schema_type: Option<SchemaType>,
    pub references: Option<Vec<Reference>>,
}

/// The bare text of a schema.
#[derive(Debug, Clone, Eq, PartialEq)]
pub struct StringSchema(pub String);

/// A subject together with one of its versions.
#[derive(Debug, Clone, Eq, PartialEq)]
pub struct SubjectVersion {
    pub subject: String,
    pub version: u32,
}

/// A schema as the registry holds it.
#[derive(Debug, Clone, Eq, PartialEq)]
pub struct Schema {
    pub schema_type: SchemaType,
    pub schema: String,
    pub references: Option<Vec<Reference>>,
}

/// One version of a subject, with its schema.
#[derive(Debug, Clone)]
pub struct Subject {
    pub id: u32,
    pub subject: String,
    pub version: u32,
    pub schema_type: SchemaType,
    pub schema: String,
    pub references: Option<Vec<Reference>>,
}

/// A reference from one schema to a version of a subject.
#[derive(Debug, Clone, Eq, PartialEq)]
pub struct Reference {
    pub name: String,
    pub subject: String,
    pub version: u32,
}

impl Reference {
    /// A reference called `name` to the first version of `subject`.
    pub fn new(name: &str, subject: &str) -> (r: Self)
        ensures
            r.name@ == name@,
            r.subject@ == subject@,
            r.version == 1,
    {
        Reference { name: String::from_str(name), subject: String::from_str(subject), version: 1 }
    }

    /// Points the reference at another version and changes nothing else.
    pub fn version(self, version: u32) -> (r: Self)
        ensures
            r == (Reference { version, ..self }),
    {
        let mut r = self;
        r.version = version;
        r
    }
}

/// A schema that is to be registered, checked or looked up.
#[derive(Debug, Clone)]
pub struct UnregisteredSchema {
    pub schema: String,
    pub schema_type: SchemaType,
    pub references: Option<Vec<Reference>>,
}

impl UnregisteredSchema {
    /// The references of the schema, none where the list was never started.
    pub open spec fn reference_list(&self) -> Seq<Reference> {
        match self.references {
            Some(references) => references@,
            None => Seq::empty(),
        }
    }

    /// An Avro schema with the given text and no references.
    pub fn schema(schema: &str) -> (r: Self)
        ensures
            r.schema@ == schema@,
            r.schema_type == SchemaType::Avro,
            r.references is None,
    {
        UnregisteredSchema {
            schema: String::from_str(schema),
            schema_type: SchemaType::Avro,
            references: None,
        }
    }

    /// Sets the schema type and nothing else.
    pub fn schema_type(self, schema_type: SchemaType) -> (r: Self)
        ensures
            r == (UnregisteredSchema { schema_type, ..self }),
    {
        let mut r = self;
        r.schema_type = schema_type;
        r
    }

    /// Adds one reference behind those the schema has.
    pub fn reference(self, reference: Reference) -> (r: Self)
        ensures
            r == (UnregisteredSchema { references: r.references, ..self }),
            r.references is Some,
            r.reference_list() == self.reference_list().push(reference),
    {
        let UnregisteredSchema { schema, schema_type, references } = self;
        let mut list = match references {
            Some(list) => list,
            None => Vec::new(),
        };
        list.push(reference);
        UnregisteredSchema { schema, schema_type, references: Some(list) }
    }

    /// Adds the references, in their order, behind those the schema has.
    pub fn references(self, references: Vec<Reference>) -> (r: Self)
        ensures
            r == (UnregisteredSchema { references: r.references, ..self }),
            r.references is Some,
            r.reference_list() == self.reference_list() + references@,
    {
        let UnregisteredSchema { schema, schema_type, references: held } = self;
        let mut more = references;
        let mut list = match held {
            Some(list) => list,
            None => Vec::new(),
        };
        list.append(&mut more);
        UnregisteredSchema { schema, schema_type, references: Some(list) }
    }
}

} // verus!
