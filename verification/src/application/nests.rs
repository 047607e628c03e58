//! Requests about nests and their eggs.

use crate::application::Client;
use crate::http::{Method, Request};
use crate::text::{append_decimal, decimal_digits, join_strs, joined, str_views};
use vstd::prelude::*;
use vstd::string::StringExecFns;

verus! {

/// The endpoint of one nest.
pub open spec fn nest_endpoint(id: u32) -> Seq<char> {
    "nests/"@ + decimal_digits(id as nat)
}

/// The query that asks for related resources to be included: nothing where
/// none are named, and otherwise their names with commas between them.
pub open spec fn include_query(includes: Option<Seq<Seq<char>>>) -> Seq<char> {
    match includes {
        Some(names) => if names.len() > 0 {
            "?include="@ + joined(names, ","@)
        } else {
            Seq::empty()
        },
        None => Seq::empty(),
    }
}

/// The endpoint of the eggs of one nest.
pub open spec fn eggs_endpoint(nest_id: u32, includes: Option<Seq<Seq<char>>>) -> Seq<char> {
    "nests/"@ + decimal_digits(nest_id as nat) + "/eggs"@ + include_query(includes)
}

/// The endpoint of one egg of one nest.
pub open spec fn egg_endpoint(nest_id: u32, egg_id: u32, includes: Option<Seq<Seq<char>>>) -> Seq<
    char,
> {
    "nests/"@ + decimal_digits(nest_id as nat) + "/eggs/"@ + decimal_digits(egg_id as nat)
        + include_query(includes)
}

/// What the names of an optional list hold.
pub open spec fn include_views(includes: Option<Vec<&str>>) -> Option<Seq<Seq<char>>> {
    match includes {
        Some(names) => Some(str_views(names@)),
        None => None,
    }
}

fn append_include(path: &mut String, includes: Option<Vec<&str>>)
    ensures
        final(path)@ == old(path)@ + include_query(include_views(includes)),
{
    if let Some(names) = includes {
        if names.len() > 0 {
            let list = join_strs(names.as_slice(), ",");
            path.append("?include=");
            path.append(list.as_str());
        }
    }
}

impl Client {
    /// Lists all nests in the application
    pub fn list_nests(&self) -> (request: Request)
        ensures
            self.prepares(request, Method::Get, "nests"@, None),
    {
        self.request(Method::Get, "nests")
    }

    /// Gets a specific nest by ID
    pub fn get_nest(&self, id: u32) -> (request: Request)
        ensures
            self.prepares(request, Method::Get, nest_endpoint(id), None),
    {
        let mut path = "nests/".to_owned();
        append_decimal(&mut path, id);
        self.request(Method::Get, path.as_str())
    }

    /// Lists all eggs in a specific nest
    pub fn list_eggs(&self, nest_id: u32, includes: Option<Vec<&str>>) -> (request: Request)
        ensures
            self.prepares(
                request,
                Method::Get,
                eggs_endpoint(nest_id, include_views(includes)),
                None,
            ),
    {
        let mut path = "nests/".to_owned();
        append_decimal(&mut path, nest_id);
        path.append("/eggs");
        append_include(&mut path, includes);
        self.request(Method::Get, path.as_str())
    }

    /// Gets a specific egg by nest ID and egg ID
    ///
    /// `includes` names related resources that the reply should carry as well:
    /// the nest, servers, config, or variables.
    pub fn get_egg(&self, nest_id: u32, egg_id: u32, includes: Option<Vec<&str>>) -> (request:
        Request)
        ensures
            self.prepares(
                request,
                Method::Get,
                egg_endpoint(nest_id, egg_id, include_views(includes)),
                None,
            ),
    {
        let mut path = "nests/".to_owned();
        append_decimal(&mut path, nest_id);
        path.append("/eggs/");
        append_decimal(&mut path, egg_id);
        append_include(&mut path, includes);
        self.request(Method::Get, path.as_str())
    }
}

} // verus!
