//! Schemas by their identifier.

use crate::client::request::{Method, Request};
use crate::client::SchemaRegistryClient;
use crate::text::{decimal, push_decimal};
use vstd::prelude::*;

verus! {

/// The path of the schema with the given identifier.
pub open spec fn schema_path(id: u32) -> Seq<char> {
    "/schemas/ids/"@ + decimal(id as nat)
}

/// The path of the bare text of the schema with the given identifier.
pub open spec fn schema_raw_path(id: u32) -> Seq<char> {
    "/schemas/ids/"@ + decimal(id as nat) + "/schema"@
}

/// The path of the schema types that the registry knows.
pub open spec fn schema_types_path() -> Seq<char> {
    "/schemas/types"@
}

impl SchemaRegistryClient {
    /// Reads the schema with the given identifier.
    pub fn get_schema_by_id(&self, id: u32) -> (r: Request<()>)
        ensures
            r.is_call(self.endpoints(), Method::Get, schema_path(id), None),
    {
        let mut path = String::from_str("/schemas/ids/");
        push_decimal(&mut path, id);
        self.call(Method::Get, path, None)
    }

    /// Reads the bare text of the schema with the given identifier.
    pub fn get_schema_by_id_raw(&self, id: u32) -> (r: Request<()>)
        ensures
            r.is_call(self.endpoints(), Method::Get, schema_raw_path(id), None),
    {
        let mut path = String::from_str("/schemas/ids/");
        push_decimal(&mut path, id);
        path.append("/schema");
        self.call(Method::Get, path, None)
    }

    /// Reads the schema types that the registry knows.
    pub fn get_schemas_types(&self) -> (r: Request<()>)
        ensures
            r.is_call(self.endpoints(), Method::Get, schema_types_path(), None),
    {
        self.call(Method::Get, String::from_str("/schemas/types"), None)
    }
}

} // verus!
