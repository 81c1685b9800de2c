//! The configuration of the registry and of single subjects.

use crate::client::request::{Method, Request};
use crate::client::SchemaRegistryClient;
use crate::types::{ClusterConfig, SubjectConfig};
use vstd::prelude::*;

verus! {

/// The path of the registry's configuration.
pub open spec fn config_path() -> Seq<char> {
    "/config"@
}

/// The path of a subject's configuration.
pub open spec fn subject_config_path(subject: Seq<char>) -> Seq<char> {
    "/config/"@ + subject
}

impl SchemaRegistryClient {
    /// Reads the configuration of the registry.
    pub fn get_configuration(&self) -> (r: Request<()>)
        ensures
            r.is_call(self.endpoints(), Method::Get, config_path(), None),
    {
        self.call(Method::Get, String::from_str("/config"), None)
    }

    /// Writes the configuration of the registry.
    pub fn update_configuration<'a>(&self, configuration: &'a ClusterConfig) -> (r: Request<
        &'a ClusterConfig,
    >)
        ensures
            r.is_call(self.endpoints(), Method::Put, config_path(), Some(configuration)),
    {
        self.call(Method::Put, String::from_str("/config"), Some(configuration))
    }

    /// Reads the configuration of a subject.
    pub fn get_subject_configuration(&self, subject: &str) -> (r: Request<()>)
        ensures
            r.is_call(self.endpoints(), Method::Get, subject_config_path(subject@), None),
    {
        let mut path = String::from_str("/config/");
        path.append(subject);
        self.call(Method::Get, path, None)
    }

    /// Writes the configuration of a subject.
    pub fn update_subject_configuration<'a>(
        &self,
        subject: &str,
        configuration: &'a SubjectConfig,
    ) -> (r: Request<&'a SubjectConfig>)
        ensures
            r.is_call(
                self.endpoints(),
                Method::Put,
                subject_config_path(subject@),
                Some(configuration),
            ),
    {
        let mut path = String::from_str("/config/");
        path.append(subject);
        self.call(Method::Put, path, Some(configuration))
    }
}

} // verus!
