//! Subjects and their versions.

use crate::client::request::{Method, Request};
use crate::client::SchemaRegistryClient;
use crate::text::{decimal, flag, flag_str, push_decimal};
use crate::types::{UnregisteredSchema, Version};
use vstd::prelude::*;

verus! {

/// The path of the subjects and versions that hold the schema with the given
/// identifier.
pub open spec fn schema_versions_path(id: u32) -> Seq<char> {
    "/schemas/ids/"@ + decimal(id as nat) + "/versions"@
}

/// The path of all subjects, with or without those that are deleted.
pub open spec fn subjects_path(deleted: bool) -> Seq<char> {
    "/subjects?deleted="@ + flag(deleted)
}

/// The path of the versions of a subject.
pub open spec fn versions_path(subject: Seq<char>) -> Seq<char> {
    "/subjects/"@ + subject + "/versions"@
}

/// The path to delete a subject, for good or not.
pub open spec fn subject_delete_path(subject: Seq<char>, permanent: bool) -> Seq<char> {
    "/subjects/"@ + subject + "?permanent="@ + flag(permanent)
}

/// The path of one version of a subject.
pub open spec fn version_path(subject: Seq<char>, version: Version) -> Seq<char> {
    "/subjects/"@ + subject + "/versions/"@ + version.text()
}

/// The path of the bare text of the schema of one version of a subject.
pub open spec fn version_raw_path(subject: Seq<char>, version: Version) -> Seq<char> {
    "/subjects/"@ + subject + "/versions/"@ + version.text() + "/schema"@
}

/// The path to register a schema under a subject, normalised or not.
pub open spec fn register_path(subject: Seq<char>, normalize: bool) -> Seq<char> {
    "/subjects/"@ + subject + "/versions?normalize="@ + flag(normalize)
}

/// The path to look a schema up under a subject, normalised or not.
pub open spec fn lookup_path(subject: Seq<char>, normalize: bool) -> Seq<char> {
    "/subjects/"@ + subject + "?normalize="@ + flag(normalize)
}

/// The path to delete one version of a subject, for good or not.
pub open spec fn version_delete_path(subject: Seq<char>, version: Version, permanent: bool) -> Seq<
    char,
> {
    "/subjects/"@ + subject + "/versions/"@ + version.text() + "?permanent="@ + flag(permanent)
}

/// The path of the schemas that refer to one version of a subject.
pub open spec fn referenced_by_path(subject: Seq<char>, version: Version) -> Seq<char> {
    "/subjects/"@ + subject + "/versions/"@ + version.text() + "/referencedBy"@
}

impl SchemaRegistryClient {
    /// The path of one version of a subject.
    pub(crate) fn version_of(subject: &str, version: Version) -> (path: String)
        ensures
            path@ == version_path(subject@, version),
    {
        let mut path = String::from_str("/subjects/");
        path.append(subject);
        path.append("/versions/");
        path.append(version.to_string().as_str());
        path
    }

    /// Lists the subjects and versions that hold the schema with the given
    /// identifier.
    pub fn get_schema_subject_versions(&self, id: u32) -> (r: Request<()>)
        ensures
            r.is_call(self.endpoints(), Method::Get, schema_versions_path(id), None),
    {
        let mut path = String::from_str("/schemas/ids/");
        push_decimal(&mut path, id);
        path.append("/versions");
        self.call(Method::Get, path, None)
    }

    /// Lists the subjects, with those that are deleted where `deleted` says
    /// so.
    pub fn get_subjects(&self, deleted: bool) -> (r: Request<()>)
        ensures
            r.is_call(self.endpoints(), Method::Get, subjects_path(deleted), None),
    {
        let mut path = String::from_str("/subjects?deleted=");
        path.append(flag_str(deleted));
        self.call(Method::Get, path, None)
    }

    /// Lists the versions of a subject.
    pub fn get_subject_versions(&self, subject: &str) -> (r: Request<()>)
        ensures
            r.is_call(self.endpoints(), Method::Get, versions_path(subject@), None),
    {
        let mut path = String::from_str("/subjects/");
        path.append(subject);
        path.append("/versions");
        self.call(Method::Get, path, None)
    }

    /// Deletes a subject with all its versions, for good where `permanent`
    /// says so.
    pub fn delete_subject(&self, subject: &str, permanent: bool) -> (r: Request<()>)
        ensures
            r.is_call(
                self.endpoints(),
                Method::Delete,
                subject_delete_path(subject@, permanent),
                None,
            ),
    {
        let mut path = String::from_str("/subjects/");
        path.append(subject);
        path.append("?permanent=");
        path.append(flag_str(permanent));
        self.call(Method::Delete, path, None)
    }

    /// Reads one version of a subject.
    pub fn get_subject_version(&self, subject: &str, version: Version) -> (r: Request<()>)
        ensures
            r.is_call(self.endpoints(), Method::Get, version_path(subject@, version), None),
    {
        self.call(Method::Get, Self::version_of(subject, version), None)
    }

    /// Reads the bare text of the schema of one version of a subject.
    pub fn get_subject_version_raw(&self, subject: &str, version: Version) -> (r: Request<()>)
        ensures
            r.is_call(self.endpoints(), Method::Get, version_raw_path(subject@, version), None),
    {
        let mut path = Self::version_of(subject, version);
        path.append("/schema");
        self.call(Method::Get, path, None)
    }

    /// Registers a schema as the next version of a subject.
    pub fn post_new_subject_version<'a>(
        &self,
        subject: &str,
        schema: &'a UnregisteredSchema,
        normalize: bool,
    ) -> (r: Request<&'a UnregisteredSchema>)
        ensures
            r.is_call(
                self.endpoints(),
                Method::Post,
                register_path(subject@, normalize),
                Some(schema),
            ),
    {
        let mut path = String::from_str("/subjects/");
        path.append(subject);
        path.append("/versions?normalize=");
        path.append(flag_str(normalize));
        self.call(Method::Post, path, Some(schema))
    }

    /// Looks up the version of a subject that holds the schema.
    pub fn lookup_subject_schema<'a>(
        &self,
        subject: &str,
        schema: &'a UnregisteredSchema,
        normalize: bool,
    ) -> (r: Request<&'a UnregisteredSchema>)
        ensures
            r.is_call(
                self.endpoints(),
                Method::Post,
                lookup_path(subject@, normalize),
                Some(schema),
            ),
    {
        let mut path = String::from_str("/subjects/");
        path.append(subject);
        path.append("?normalize=");
        path.append(flag_str(normalize));
        self.call(Method::Post, path, Some(schema))
    }

    /// Deletes one version of a subject, for good where `permanent` says so.
    pub fn delete_subject_version(&self, subject: &str, version: Version, permanent: bool) -> (r:
        Request<()>)
        ensures
            r.is_call(
                self.endpoints(),
                Method::Delete,
                version_delete_path(subject@, version, permanent),
                None,
            ),
    {
        let mut path = Self::version_of(subject, version);
        path.append("?permanent=");
        path.append(flag_str(permanent));
        self.call(Method::Delete, path, None)
    }

    /// Lists the identifiers of the schemas that refer to one version of a
    /// subject.
    pub fn get_subject_version_references(&self, subject: &str, version: Version) -> (r: Request<
        (),
    >)
        ensures
            r.is_call(self.endpoints(), Method::Get, referenced_by_path(subject@, version), None),
    {
        let mut path = Self::version_of(subject, version);
        path.append("/referencedBy");
        self.call(Method::Get, path, None)
    }
}

} // verus!
