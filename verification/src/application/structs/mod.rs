//! The resources of the application API as plain data.

use vstd::prelude::*;

mod allocation;
mod nest;
mod node;
mod server;
mod utils;

// Server-related structs
pub use server::{
    CreateServerRequest, CreateServerResponse, ServerContainer, ServerFeatureLimits, ServerLimits,
    ServerStruct,
};

// Node-related structs
pub use node::{CreateNodeRequest, NodeStruct, UpdateNodeRequest};

// Nest and Egg-related structs
pub use nest::{
    EggConfig, EggRelationships, EggScript, EggStruct, EggVariable, EggVariableObject,
    EggVariablesList, NestStruct, NullResource,
};

// Allocation-related structs
pub use allocation::{AllocationSettings, AllocationStruct, CreateAllocationRequest};

// Reading the `installed` field
pub use utils::{deserialize_installed, installed_of, InstalledError, JsonValue};

verus! {

/// A JSON document of `serde_json`.  Some resources carry free-form
/// documents; the library passes them on and never looks inside.
#[verifier::external_type_specification]
#[verifier::external_body]
pub struct ExJsonDocument(serde_json::Value);

/// `Clone::clone` of `serde_json::Value`: the copy is the same document.
pub assume_specification[ <serde_json::Value as Clone>::clone ](
    document: &serde_json::Value,
) -> (copy: serde_json::Value)
    ensures
        copy == *document,
;

} // verus!
