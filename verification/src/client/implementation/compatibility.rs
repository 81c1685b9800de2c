//! Checks of a schema against what a subject holds.

use crate::client::request::{Method, Request};
use crate::client::SchemaRegistryClient;
use crate::types::{UnregisteredSchema, Version};
use vstd::prelude::*;

verus! {

/// The path to check a schema against one version of a subject.
pub open spec fn compatibility_version_path(subject: Seq<char>, version: Version) -> Seq<char> {
    "/compatibility/subjects/"@ + subject + "/versions/"@ + version.text()
}

/// The path to check a schema against every version of a subject.
pub open spec fn compatibility_path(subject: Seq<char>) -> Seq<char> {
    "/compatibility/subjects/"@ + subject + "/versions"@
}

impl SchemaRegistryClient {
    /// Asks whether the schema is compatible with the given version of the
    /// subject.
    pub fn is_compatible<'a>(
        &self,
        subject: &str,
        version: Version,
        schema: &'a UnregisteredSchema,
    ) -> (r: Request<&'a UnregisteredSchema>)
        ensures
            r.is_call(
                self.endpoints(),
                Method::Post,
                compatibility_version_path(subject@, version),
                Some(schema),
            ),
    {
        let mut path = String::from_str("/compatibility/subjects/");
        path.append(subject);
        path.append("/versions/");
        path.append(version.to_string().as_str());
        self.call(Method::Post, path, Some(schema))
    }

    /// Asks whether the schema is compatible with every version of the
    /// subject.
    pub fn is_fully_compatible<'a>(&self, subject: &str, schema: &'a UnregisteredSchema) -> (r:
        Request<&'a UnregisteredSchema>)
        ensures
            r.is_call(self.endpoints(), Method::Post, compatibility_path(subject@), Some(schema)),
    {
        let mut path = String::from_str("/compatibility/subjects/");
        path.append(subject);
        path.append("/versions");
        self.call(Method::Post, path, Some(schema))
    }
}

} // verus!
