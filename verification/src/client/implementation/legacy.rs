//! The operations under the names they had before the registry's own
//! vocabulary was taken over. They carry no query, and the compatibility
//! level of a configuration is their only setting.

use crate::client::implementation::configuration::{config_path, subject_config_path};
use crate::client::implementation::schema::schema_path;
use crate::client::implementation::subject::{version_path, versions_path};
use crate::client::executor::{exec_calls, is_outcome};
use crate::client::request::{Method, Request};
use crate::error::HttpCallError;
use crate::client::SchemaRegistryClient;
use crate::text::push_decimal;
use crate::types::{CompatibilityLevel, UnregisteredSchema, Version};
use vstd::prelude::*;

verus! {

/// A compatibility level, as a request or an answer carries it.
#[derive(Debug, Clone, Copy, Eq, PartialEq)]
pub struct Compatibility {
    pub compatibility: CompatibilityLevel,
}

/// Runs the race over the completions of every call, given in the order in
/// which the calls completed: `exec_calls` under its earlier name.
pub fn exec_http_calls<T>(completions: Vec<Result<T, HttpCallError>>) -> (r: Result<
    T,
    HttpCallError,
>)
    requires
        completions@.len() > 0,
    ensures
        is_outcome(completions@, r),
{
    exec_calls(completions)
}

/// The path of all subjects.
pub open spec fn all_subjects_path() -> Seq<char> {
    "/subjects"@
}

/// The path of a subject.
pub open spec fn subject_path(subject: Seq<char>) -> Seq<char> {
    "/subjects/"@ + subject
}

impl SchemaRegistryClient {
    /// The path of a subject.
    fn subject(subject: &str) -> (path: String)
        ensures
            path@ == subject_path(subject@),
    {
        let mut path = String::from_str("/subjects/");
        path.append(subject);
        path
    }

    /// Lists the subjects.
    pub fn fetch_subjects(&self) -> (r: Request<()>)
        ensures
            r.is_call(self.endpoints(), Method::Get, all_subjects_path(), None),
    {
        self.call(Method::Get, String::from_str("/subjects"), None)
    }

    /// Reads the schema with the given identifier.
    pub fn fetch_schema_by_id(&self, id: u32) -> (r: Request<()>)
        ensures
            r.is_call(self.endpoints(), Method::Get, schema_path(id), None),
    {
        let mut path = String::from_str("/schemas/ids/");
        push_decimal(&mut path, id);
        self.call(Method::Get, path, None)
    }

    /// Looks up the version of a subject that holds the schema.
    pub fn lookup_subject_by_schema<'a>(&self, subject: &str, schema: &'a UnregisteredSchema) -> (r:
        Request<&'a UnregisteredSchema>)
        ensures
            r.is_call(self.endpoints(), Method::Post, subject_path(subject@), Some(schema)),
    {
        self.call(Method::Post, Self::subject(subject), Some(schema))
    }

    /// Deletes a subject with all its versions.
    pub fn delete_subject_schemas(&self, subject: &str) -> (r: Request<()>)
        ensures
            r.is_call(self.endpoints(), Method::Delete, subject_path(subject@), None),
    {
        self.call(Method::Delete, Self::subject(subject), None)
    }

    /// Registers a schema as the next version of a subject.
    pub fn register_subject_schema<'a>(&self, subject: &str, schema: &'a UnregisteredSchema) -> (r:
        Request<&'a UnregisteredSchema>)
        ensures
            r.is_call(self.endpoints(), Method::Post, versions_path(subject@), Some(schema)),
    {
        let mut path = Self::subject(subject);
        path.append("/versions");
        self.call(Method::Post, path, Some(schema))
    }

    /// Lists the versions of a subject.
    pub fn fetch_subject_versions(&self, subject: &str) -> (r: Request<()>)
        ensures
            r.is_call(self.endpoints(), Method::Get, versions_path(subject@), None),
    {
        let mut path = Self::subject(subject);
        path.append("/versions");
        self.call(Method::Get, path, None)
    }

    /// Reads one version of a subject.
    pub fn fetch_schema_by_subject_version(&self, subject: &str, version: Version) -> (r: Request<
        (),
    >)
        ensures
            r.is_call(self.endpoints(), Method::Get, version_path(subject@, version), None),
    {
        self.call(Method::Get, Self::version_of(subject, version), None)
    }

    /// Deletes one version of a subject.
    pub fn delete_version(&self, subject: &str, version: Version) -> (r: Request<()>)
        ensures
            r.is_call(self.endpoints(), Method::Delete, version_path(subject@, version), None),
    {
        self.call(Method::Delete, Self::version_of(subject, version), None)
    }

    /// Reads the compatibility level of the registry.
    pub fn fetch_config(&self) -> (r: Request<()>)
        ensures
            r.is_call(self.endpoints(), Method::Get, config_path(), None),
    {
        self.call(Method::Get, String::from_str("/config"), None)
    }

    /// Sets the compatibility level of the registry.
    pub fn update_config(&self, compatibility: CompatibilityLevel) -> (r: Request<Compatibility>)
        ensures
            r.is_call(
                self.endpoints(),
                Method::Put,
                config_path(),
                Some(Compatibility { compatibility }),
            ),
    {
        let body = Compatibility { compatibility };
        self.call(Method::Put, String::from_str("/config"), Some(body))
    }

    /// Reads the compatibility level of a subject.
    pub fn fetch_subject_config(&self, subject: &str) -> (r: Request<()>)
        ensures
            r.is_call(self.endpoints(), Method::Get, subject_config_path(subject@), None),
    {
        let mut path = String::from_str("/config/");
        path.append(subject);
        self.call(Method::Get, path, None)
    }

    /// Sets the compatibility level of a subject.
    pub fn update_subject_config(&self, subject: &str, compatibility: CompatibilityLevel) -> (r:
        Request<Compatibility>)
        ensures
            r.is_call(
                self.endpoints(),
                Method::Put,
                subject_config_path(subject@),
                Some(Compatibility { compatibility }),
            ),
    {
        let body = Compatibility { compatibility };
        let mut path = String::from_str("/config/");
        path.append(subject);
        self.call(Method::Put, path, Some(body))
    }
}

} // verus!
