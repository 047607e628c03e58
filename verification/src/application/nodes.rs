//! Requests about nodes and their allocations.

use crate::application::Client;
use crate::error::Error;
use crate::http::{Method, Request, RequestBody};
use crate::text::{append_decimal, decimal_digits};
use vstd::prelude::*;
use vstd::string::StringExecFns;

verus! {

/// The endpoint of one node.
pub open spec fn node_endpoint(id: u32) -> Seq<char> {
    "nodes/"@ + decimal_digits(id as nat)
}

/// The endpoint of the allocations of one node.
pub open spec fn node_allocations_endpoint(node_id: u32) -> Seq<char> {
    "nodes/"@ + decimal_digits(node_id as nat) + "/allocations"@
}

/// The endpoint of one allocation.
pub open spec fn allocation_endpoint(allocation_id: u32) -> Seq<char> {
    "allocations/"@ + decimal_digits(allocation_id as nat)
}

fn node_path(id: u32) -> (path: String)
    ensures
        path@ == node_endpoint(id),
{
    let mut path = "nodes/".to_owned();
    append_decimal(&mut path, id);
    path
}

fn node_allocations_path(node_id: u32) -> (path: String)
    ensures
        path@ == node_allocations_endpoint(node_id),
{
    let mut path = node_path(node_id);
    path.append("/allocations");
    path
}

impl Client {
    /// Lists all nodes in the application
    pub fn list_nodes(&self) -> (request: Request)
        ensures
            self.prepares(request, Method::Get, "nodes"@, None),
    {
        self.request(Method::Get, "nodes")
    }

    /// Gets a specific node by ID
    pub fn get_node(&self, id: u32) -> (request: Request)
        ensures
            self.prepares(request, Method::Get, node_endpoint(id), None),
    {
        let path = node_path(id);
        self.request(Method::Get, path.as_str())
    }

    /// Creates a new node from an encodable description of it
    pub fn create_node<Body: RequestBody>(&self, request: &Body) -> (r: Result<Request, Error>)
        ensures
            self.prepares_with(Method::Post, "nodes"@, request, r),
    {
        self.request_with_body(Method::Post, "nodes", request)
    }

    /// Updates an existing node from an encodable set of changes
    pub fn update_node<Body: RequestBody>(&self, id: u32, request: &Body) -> (r: Result<
        Request,
        Error,
    >)
        ensures
            self.prepares_with(Method::Patch, node_endpoint(id), request, r),
    {
        let path = node_path(id);
        self.request_with_body(Method::Patch, path.as_str(), request)
    }

    /// Deletes a node
    pub fn delete_node(&self, id: u32) -> (request: Request)
        ensures
            self.prepares(request, Method::Delete, node_endpoint(id), None),
    {
        let path = node_path(id);
        self.request(Method::Delete, path.as_str())
    }

    /// Lists all allocations for a specific node
    pub fn list_node_allocations(&self, node_id: u32) -> (request: Request)
        ensures
            self.prepares(request, Method::Get, node_allocations_endpoint(node_id), None),
    {
        let path = node_allocations_path(node_id);
        self.request(Method::Get, path.as_str())
    }

    /// Creates new allocations for a specific node
    pub fn create_node_allocation<Body: RequestBody>(&self, node_id: u32, request: &Body) -> (r:
        Result<Request, Error>)
        ensures
            self.prepares_with(Method::Post, node_allocations_endpoint(node_id), request, r),
    {
        let path = node_allocations_path(node_id);
        self.request_with_body(Method::Post, path.as_str(), request)
    }

    /// Deletes an allocation
    pub fn delete_allocation(&self, allocation_id: u32) -> (request: Request)
        ensures
            self.prepares(request, Method::Delete, allocation_endpoint(allocation_id), None),
    {
        let mut path = "allocations/".to_owned();
        append_decimal(&mut path, allocation_id);
        self.request(Method::Delete, path.as_str())
    }
}

} // verus!
