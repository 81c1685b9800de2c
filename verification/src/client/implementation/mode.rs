//! The mode of the registry and of single subjects.

use crate::client::request::{Method, Request};
use crate::client::SchemaRegistryClient;
use crate::text::{flag, flag_str};
use crate::types::{Mode, ResourceMode};
use vstd::prelude::*;

verus! {

/// The path of the registry's mode.
pub open spec fn mode_path() -> Seq<char> {
    "/mode"@
}

/// The path to set the registry's mode, by force or not.
pub open spec fn mode_force_path(force: bool) -> Seq<char> {
    "/mode?force="@ + flag(force)
}

/// The path of a subject's mode.
pub open spec fn subject_mode_path(subject: Seq<char>) -> Seq<char> {
    "/mode/"@ + subject
}

/// The path to set a subject's mode, by force or not.
pub open spec fn subject_mode_force_path(subject: Seq<char>, force: bool) -> Seq<char> {
    "/mode/"@ + subject + "?force="@ + flag(force)
}

impl SchemaRegistryClient {
    /// Reads the mode of the registry.
    pub fn get_global_resource_mode(&self) -> (r: Request<()>)
        ensures
            r.is_call(self.endpoints(), Method::Get, mode_path(), None),
    {
        self.call(Method::Get, String::from_str("/mode"), None)
    }

    /// Sets the mode of the registry.
    pub fn update_global_resource_mode(&self, mode: Mode, force: bool) -> (r: Request<ResourceMode>)
        ensures
            r.is_call(
                self.endpoints(),
                Method::Put,
                mode_force_path(force),
                Some(ResourceMode { mode }),
            ),
    {
        let body = ResourceMode { mode };
        let mut path = String::from_str("/mode?force=");
        path.append(flag_str(force));
        self.call(Method::Put, path, Some(body))
    }

    /// Reads the mode of a subject.
    pub fn get_subject_resource_mode(&self, subject: &str) -> (r: Request<()>)
        ensures
            r.is_call(self.endpoints(), Method::Get, subject_mode_path(subject@), None),
    {
        let mut path = String::from_str("/mode/");
        path.append(subject);
        self.call(Method::Get, path, None)
    }

    /// Sets the mode of a subject.
    pub fn update_subject_resource_mode(&self, subject: &str, mode: Mode, force: bool) -> (r:
        Request<ResourceMode>)
        ensures
            r.is_call(
                self.endpoints(),
                Method::Put,
                subject_mode_force_path(subject@, force),
                Some(ResourceMode { mode }),
            ),
    {
        let body = ResourceMode { mode };
        let mut path = String::from_str("/mode/");
        path.append(subject);
        path.append("?force=");
        path.append(flag_str(force));
        self.call(Method::Put, path, Some(body))
    }

    /// Takes the mode of a subject away, so that the registry's applies.
    pub fn delete_subject_mode(&self, subject: &str) -> (r: Request<()>)
        ensures
            r.is_call(self.endpoints(), Method::Delete, subject_mode_path(subject@), None),
    {
        let mut path = String::from_str("/mode/");
        path.append(subject);
        self.call(Method::Delete, path, None)
    }
}

} // verus!
