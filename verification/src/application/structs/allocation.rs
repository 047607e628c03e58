//! Allocations: the address and port pairs that a node offers to its servers.

use vstd::prelude::*;

verus! {

/// Represents an allocation in the application API
#[derive(Debug, Clone)]
pub struct AllocationStruct {
    /// The allocation's ID
    pub id: u32,
    /// The allocation's node ID
    pub node: Option<u32>,
    /// The allocation's IP address
    pub ip: String,
    /// The allocation's IP alias (if any)
    pub alias: Option<String>,
    /// The allocation's port
    pub port: u16,
    /// Whether the allocation is assigned to a server
    pub assigned: bool,
    /// The allocation's notes (if any
    pub notes: Option<String>,
}

/// Allocation settings for server creation
#[derive(Debug, Clone)]
pub struct AllocationSettings {
    /// The default allocation ID
    pub default: u32,
}

/// Request body for creating a new allocation
#[derive(Debug, Clone)]
pub struct CreateAllocationRequest {
    /// The allocation's IP address
    pub ip: String,
    /// The allocation's ports (can be a range like "25565-25570" or a single port like "25565")
    pub ports: Vec<String>,
    /// The allocation's alias (optional)
    pub alias: Option<String>,
}

} // verus!
