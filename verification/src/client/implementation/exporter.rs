//! Exporters, which copy schemas to another registry, and the contexts they
//! work in.

use crate::client::request::{Method, Request};
use crate::client::SchemaRegistryClient;
use crate::types::ExporterConfig;
use std::collections::HashMap;
use vstd::prelude::*;

verus! {

/// The path of all exporters.
pub open spec fn exporters_path() -> Seq<char> {
    "/exporters"@
}

/// The path of all contexts.
pub open spec fn contexts_path() -> Seq<char> {
    "/contexts"@
}

/// The path of the exporter with the given name.
pub open spec fn exporter_path(name: Seq<char>) -> Seq<char> {
    "/exporters/"@ + name
}

/// The path of one part of the exporter with the given name: its `config`
/// or `status`, or the order to `pause`, `reset` or `resume` it.
pub open spec fn exporter_part_path(name: Seq<char>, part: Seq<char>) -> Seq<char> {
    "/exporters/"@ + name + "/"@ + part
}

impl SchemaRegistryClient {
    /// The path of one part of the exporter with the given name.
    fn exporter_part(name: &str, part: &str) -> (path: String)
        ensures
            path@ == exporter_part_path(name@, part@),
    {
        let mut path = String::from_str("/exporters/");
        path.append(name);
        path.append("/");
        path.append(part);
        path
    }

    /// The path of the exporter with the given name.
    fn exporter(name: &str) -> (path: String)
        ensures
            path@ == exporter_path(name@),
    {
        let mut path = String::from_str("/exporters/");
        path.append(name);
        path
    }

    /// Lists the exporters.
    pub fn get_exporters(&self) -> (r: Request<()>)
        ensures
            r.is_call(self.endpoints(), Method::Get, exporters_path(), None),
    {
        self.call(Method::Get, String::from_str("/exporters"), None)
    }

    /// Lists the contexts.
    pub fn get_contexts(&self) -> (r: Request<()>)
        ensures
            r.is_call(self.endpoints(), Method::Get, contexts_path(), None),
    {
        self.call(Method::Get, String::from_str("/contexts"), None)
    }

    /// Creates an exporter.
    pub fn create_exporter<'a>(&self, config: &'a ExporterConfig) -> (r: Request<
        &'a ExporterConfig,
    >)
        ensures
            r.is_call(self.endpoints(), Method::Post, exporters_path(), Some(config)),
    {
        self.call(Method::Post, String::from_str("/exporters"), Some(config))
    }

    /// Replaces the description of an exporter.
    pub fn update_exporter<'a>(&self, name: &str, config: &'a ExporterConfig) -> (r: Request<
        &'a ExporterConfig,
    >)
        ensures
            r.is_call(self.endpoints(), Method::Put, exporter_path(name@), Some(config)),
    {
        self.call(Method::Put, Self::exporter(name), Some(config))
    }

    /// Replaces the settings of an exporter and leaves the rest of its
    /// description.
    pub fn update_exporter_config<'a>(&self, name: &str, config: &'a HashMap<String, String>) -> (r:
        Request<&'a HashMap<String, String>>)
        ensures
            r.is_call(
                self.endpoints(),
                Method::Put,
                exporter_part_path(name@, "config"@),
                Some(config),
            ),
    {
        self.call(Method::Put, Self::exporter_part(name, "config"), Some(config))
    }

    /// Reads the description of an exporter.
    pub fn get_exporter(&self, name: &str) -> (r: Request<()>)
        ensures
            r.is_call(self.endpoints(), Method::Get, exporter_path(name@), None),
    {
        self.call(Method::Get, Self::exporter(name), None)
    }

    /// Reads the settings of an exporter.
    pub fn get_exporter_config(&self, name: &str) -> (r: Request<()>)
        ensures
            r.is_call(self.endpoints(), Method::Get, exporter_part_path(name@, "config"@), None),
    {
        self.call(Method::Get, Self::exporter_part(name, "config"), None)
    }

    /// Reads what an exporter reports of itself.
    pub fn get_exporter_status(&self, name: &str) -> (r: Request<()>)
        ensures
            r.is_call(self.endpoints(), Method::Get, exporter_part_path(name@, "status"@), None),
    {
        self.call(Method::Get, Self::exporter_part(name, "status"), None)
    }

    /// Pauses an exporter.
    pub fn pause_exporter(&self, name: &str) -> (r: Request<()>)
        ensures
            r.is_call(self.endpoints(), Method::Put, exporter_part_path(name@, "pause"@), None),
    {
        self.call(Method::Put, Self::exporter_part(name, "pause"), None)
    }

    /// Sets an exporter back to its start.
    pub fn reset_exporter(&self, name: &str) -> (r: Request<()>)
        ensures
            r.is_call(self.endpoints(), Method::Put, exporter_part_path(name@, "reset"@), None),
    {
        self.call(Method::Put, Self::exporter_part(name, "reset"), None)
    }

    /// Lets a paused exporter go on.
    pub fn resume_exporter(&self, name: &str) -> (r: Request<()>)
        ensures
            r.is_call(self.endpoints(), Method::Put, exporter_part_path(name@, "resume"@), None),
    {
        self.call(Method::Put, Self::exporter_part(name, "resume"), None)
    }

    /// Deletes an exporter.
    pub fn delete_exporter(&self, name: &str) -> (r: Request<()>)
        ensures
            r.is_call(self.endpoints(), Method::Delete, exporter_path(name@), None),
    {
        self.call(Method::Delete, Self::exporter(name), None)
    }
}

} // verus!
