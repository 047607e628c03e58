//! Requests about servers.

use crate::application::structs::{ServerFeatureLimits, ServerLimits, ServerStruct};
use crate::application::Client;
use crate::error::Error;
use crate::http::{Method, Request, RequestBody};
use crate::query::{lemma_pair_text_is_not_empty, pair_text, query_pair};
use crate::text::{
    append_decimal, decimal, decimal_digits, join_strings, join_strs, joined,
    lemma_joined_is_empty_only_without_parts, str_views, string_views,
};
use std::collections::HashMap;
use vstd::prelude::*;
use vstd::string::StringExecFns;

verus! {

/// The endpoint of one server.
pub open spec fn server_endpoint(id: u32) -> Seq<char> {
    "servers/"@ + decimal_digits(id as nat)
}

/// The endpoint of an action on one server, such as `suspend` or `build`.
pub open spec fn server_action_endpoint(id: u32, action: Seq<char>) -> Seq<char> {
    "servers/"@ + decimal_digits(id as nat) + "/"@ + action
}

/// What an optional string slice holds.
pub open spec fn opt_view(text: Option<&str>) -> Option<Seq<char>> {
    match text {
        Some(t) => Some(t@),
        None => None,
    }
}

/// What the names of an optional list hold.
pub open spec fn opt_views(names: Option<&[&str]>) -> Option<Seq<Seq<char>>> {
    match names {
        Some(list) => Some(str_views(list@)),
        None => None,
    }
}

/// The number of an optional page or page size, in base ten.
pub open spec fn opt_decimal(n: Option<u32>) -> Option<Seq<char>> {
    match n {
        Some(v) => Some(decimal_digits(v as nat)),
        None => None,
    }
}

/// The names of the related resources to be sent along, with commas between
/// them; nothing where no list is given or the list is empty.
pub open spec fn opt_joined(names: Option<Seq<Seq<char>>>) -> Option<Seq<char>> {
    match names {
        Some(list) => if list.len() > 0 {
            Some(joined(list, ","@))
        } else {
            None
        },
        None => None,
    }
}

/// The pair that an optional value contributes to a query: one pair where
/// the value is given, none where it is not.
pub open spec fn optional_pair(key: Seq<char>, value: Option<Seq<char>>) -> Seq<Seq<char>> {
    match value {
        Some(v) => seq![pair_text(key, v)],
        None => Seq::empty(),
    }
}

/// The pairs of a filtered listing of servers, in the order in which they
/// are sent: the four filters, the related resources, the sort key, the page
/// size and the page.
pub open spec fn server_filter_pairs(
    filter_name: Option<Seq<char>>,
    filter_uuid: Option<Seq<char>>,
    filter_external_id: Option<Seq<char>>,
    filter_image: Option<Seq<char>>,
    includes: Option<Seq<Seq<char>>>,
    sort: Option<Seq<char>>,
    per_page: Option<u32>,
    page: Option<u32>,
) -> Seq<Seq<char>> {
    optional_pair("filter[name]"@, filter_name) + optional_pair("filter[uuid]"@, filter_uuid)
        + optional_pair("filter[external_id]"@, filter_external_id) + optional_pair(
        "filter[image]"@,
        filter_image,
    ) + optional_pair("include"@, opt_joined(includes)) + optional_pair("sort"@, sort)
        + optional_pair("per_page"@, opt_decimal(per_page)) + optional_pair(
        "page"@,
        opt_decimal(page),
    )
}

/// The endpoint of a listing of servers with the given query pairs.
pub open spec fn servers_endpoint(pairs: Seq<Seq<char>>) -> Seq<char> {
    let query = joined(pairs, "&"@);
    if query.len() == 0 {
        "servers"@
    } else {
        "servers?"@ + query
    }
}

/// Whether no part of a list is empty.
pub open spec fn all_nonempty(parts: Seq<Seq<char>>) -> bool {
    forall|i: int| 0 <= i < parts.len() ==> (#[trigger] parts[i]).len() > 0
}

/// Appending what an optional value contributes keeps every pair non-empty
/// and adds one pair exactly where the value is given.
proof fn lemma_append_optional_pair(
    pairs: Seq<Seq<char>>,
    key: Seq<char>,
    value: Option<Seq<char>>,
)
    requires
        all_nonempty(pairs),
    ensures
        all_nonempty(pairs + optional_pair(key, value)),
        (pairs + optional_pair(key, value)).len() == pairs.len() + (if value is Some {
            1nat
        } else {
            0nat
        }),
{
    if let Some(v) = value {
        lemma_pair_text_is_not_empty(key, v);
    }
}

/// A filtered listing goes to the plain endpoint exactly when it sends no
/// parameter at all: no filter, no related resources, no sort key and no
/// paging.
pub proof fn lemma_plain_listing_only_without_parameters(
    filter_name: Option<Seq<char>>,
    filter_uuid: Option<Seq<char>>,
    filter_external_id: Option<Seq<char>>,
    filter_image: Option<Seq<char>>,
    includes: Option<Seq<Seq<char>>>,
    sort: Option<Seq<char>>,
    per_page: Option<u32>,
    page: Option<u32>,
)
    ensures
        servers_endpoint(
            server_filter_pairs(
                filter_name,
                filter_uuid,
                filter_external_id,
                filter_image,
                includes,
                sort,
                per_page,
                page,
            ),
        ) == "servers"@ <==> {
            &&& filter_name is None
            &&& filter_uuid is None
            &&& filter_external_id is None
            &&& filter_image is None
            &&& opt_joined(includes) is None
            &&& sort is None
            &&& per_page is None
            &&& page is None
        },
{
    let p0 = Seq::<Seq<char>>::empty();
    let p1 = optional_pair("filter[name]"@, filter_name);
    let p2 = p1 + optional_pair("filter[uuid]"@, filter_uuid);
    let p3 = p2 + optional_pair("filter[external_id]"@, filter_external_id);
    let p4 = p3 + optional_pair("filter[image]"@, filter_image);
    let p5 = p4 + optional_pair("include"@, opt_joined(includes));
    let p6 = p5 + optional_pair("sort"@, sort);
    let p7 = p6 + optional_pair("per_page"@, opt_decimal(per_page));
    let p8 = p7 + optional_pair("page"@, opt_decimal(page));
    lemma_append_optional_pair(p0, "filter[name]"@, filter_name);
    lemma_append_optional_pair(p1, "filter[uuid]"@, filter_uuid);
    lemma_append_optional_pair(p2, "filter[external_id]"@, filter_external_id);
    lemma_append_optional_pair(p3, "filter[image]"@, filter_image);
    lemma_append_optional_pair(p4, "include"@, opt_joined(includes));
    lemma_append_optional_pair(p5, "sort"@, sort);
    lemma_append_optional_pair(p6, "per_page"@, opt_decimal(per_page));
    lemma_append_optional_pair(p7, "page"@, opt_decimal(page));
    lemma_joined_is_empty_only_without_parts(p8, "&"@);
    let query = joined(p8, "&"@);
    assert(servers_endpoint(p8) == "servers"@ <==> query.len() == 0) by {
        reveal_strlit("servers");
        reveal_strlit("servers?");
        if query.len() > 0 {
            assert(("servers?"@ + query).len() != "servers"@.len());
        }
    }
}

fn push_pair(pairs: &mut Vec<String>, key: &str, value: Option<&str>)
    ensures
        string_views(final(pairs)@) == string_views(old(pairs)@) + optional_pair(
            key@,
            opt_view(value),
        ),
{
    match value {
        Some(v) => {
            pairs.push(query_pair(key, v));
        },
        None => {},
    }
    assert(string_views(final(pairs)@) =~= string_views(old(pairs)@) + optional_pair(
        key@,
        opt_view(value),
    ));
}

fn server_action_path(id: u32, action: &str) -> (path: String)
    ensures
        path@ == server_action_endpoint(id, action@),
{
    let mut path = "servers/".to_owned();
    append_decimal(&mut path, id);
    path.append("/");
    path.append(action);
    path
}

fn server_path(id: u32) -> (path: String)
    ensures
        path@ == server_endpoint(id),
{
    let mut path = "servers/".to_owned();
    append_decimal(&mut path, id);
    path
}

/// The body that changes a server's build: the new limits, with the
/// allocation and the feature limits that the server has now.
#[derive(Debug, Clone)]
pub struct UpdateBuildBody {
    pub memory: u32,
    pub swap: u32,
    pub disk: u32,
    pub io: u32,
    pub cpu: u32,
    pub allocation: u32,
    pub feature_limits: ServerFeatureLimits,
    /// Left out of the body where it is `None`.
    pub threads: Option<u32>,
    /// Left out of the body where it is `None`.
    pub oom_disabled: Option<bool>,
}

impl UpdateBuildBody {
    /// Fills the body from the limits asked for and from the server as it
    /// is now, which supplies the fields that have to be sent unchanged.
    pub fn new(limits: ServerLimits, current: ServerStruct) -> (body: UpdateBuildBody)
        ensures
            body.memory == limits.memory,
            body.swap == limits.swap,
            body.disk == limits.disk,
            body.io == limits.io,
            body.cpu == limits.cpu,
            body.allocation == current.allocation,
            body.feature_limits == current.feature_limits,
            body.threads == limits.threads,
            body.oom_disabled == limits.oom_disabled,
    {
        UpdateBuildBody {
            memory: limits.memory,
            swap: limits.swap,
            disk: limits.disk,
            io: limits.io,
            cpu: limits.cpu,
            allocation: current.allocation,
            feature_limits: current.feature_limits,
            threads: limits.threads,
            oom_disabled: limits.oom_disabled,
        }
    }
}

/// The body that changes a server's startup command and environment.
#[derive(Debug, Clone)]
pub struct UpdateStartupVariablesRequest {
    pub startup: String,
    pub environment: HashMap<String, String>,
    pub egg: String,
    pub image: String,
    pub skip_scripts: bool,
}

impl UpdateStartupVariablesRequest {
    /// Puts the body together from its five parts.
    pub fn new(
        startup: String,
        environment: HashMap<String, String>,
        egg: String,
        image: String,
        skip_scripts: bool,
    ) -> (body: UpdateStartupVariablesRequest)
        ensures
            body.startup == startup,
            body.environment == environment,
            body.egg == egg,
            body.image == image,
            body.skip_scripts == skip_scripts,
    {
        UpdateStartupVariablesRequest { startup, environment, egg, image, skip_scripts }
    }
}

impl Client {
    /// Lists all servers in the application
    pub fn list_servers(&self) -> (request: Request)
        ensures
            self.prepares(request, Method::Get, "servers"@, None),
    {
        self.request(Method::Get, "servers")
    }

    /// List servers with query parameters such as filters, related
    /// resources, sort and pagination.
    ///
    /// Parameters mirror Pterodactyl's application API. Any `None` will be omitted.
    pub fn list_servers_filtered(
        &self,
        filter_name: Option<&str>,
        filter_uuid: Option<&str>,
        filter_external_id: Option<&str>,
        filter_image: Option<&str>,
        includes: Option<&[&str]>,
        sort: Option<&str>,
        per_page: Option<u32>,
        page: Option<u32>,
    ) -> (request: Request)
        ensures
            self.prepares(
                request,
                Method::Get,
                servers_endpoint(
                    server_filter_pairs(
                        opt_view(filter_name),
                        opt_view(filter_uuid),
                        opt_view(filter_external_id),
                        opt_view(filter_image),
                        opt_views(includes),
                        opt_view(sort),
                        per_page,
                        page,
                    ),
                ),
                None,
            ),
    {
        let mut pairs: Vec<String> = Vec::new();

        push_pair(&mut pairs, "filter[name]", filter_name);
        push_pair(&mut pairs, "filter[uuid]", filter_uuid);
        push_pair(&mut pairs, "filter[external_id]", filter_external_id);
        push_pair(&mut pairs, "filter[image]", filter_image);
        match includes {
            Some(v) => {
                if v.len() > 0 {
                    let list = join_strs(v, ",");
                    push_pair(&mut pairs, "include", Some(list.as_str()));
                }
            },
            None => {},
        }
        push_pair(&mut pairs, "sort", sort);
        match per_page {
            Some(v) => {
                let text = decimal(v);
                push_pair(&mut pairs, "per_page", Some(text.as_str()));
            },
            None => {},
        }
        match page {
            Some(v) => {
                let text = decimal(v);
                push_pair(&mut pairs, "page", Some(text.as_str()));
            },
            None => {},
        }
        assert(string_views(pairs@) =~= server_filter_pairs(
            opt_view(filter_name),
            opt_view(filter_uuid),
            opt_view(filter_external_id),
            opt_view(filter_image),
            opt_views(includes),
            opt_view(sort),
            per_page,
            page,
        ));

        let qs = join_strings(&pairs, "&");
        let mut endpoint = "servers".to_owned();
        if !qs.as_str().is_empty() {
            proof {
                reveal_strlit("servers");
                reveal_strlit("?");
                reveal_strlit("servers?");
            }
            endpoint.append("?");
            endpoint.append(qs.as_str());
            assert(endpoint@ =~= "servers?"@ + qs@);
        }
        self.request(Method::Get, endpoint.as_str())
    }

    /// Gets a specific server by ID
    pub fn get_server(&self, id: u32) -> (request: Request)
        ensures
            self.prepares(request, Method::Get, server_endpoint(id), None),
    {
        let path = server_path(id);
        self.request(Method::Get, path.as_str())
    }

    /// Creates a new server from an encodable description of it
    pub fn create_server<Body: RequestBody>(&self, request: &Body) -> (r: Result<Request, Error>)
        ensures
            self.prepares_with(Method::Post, "servers"@, request, r),
    {
        self.request_with_body(Method::Post, "servers", request)
    }

    /// Deletes a server
    ///
    /// This performs a normal deletion, which will fail if the server is running.
    pub fn delete_server(&self, id: u32) -> (request: Request)
        ensures
            self.prepares(request, Method::Delete, server_endpoint(id), None),
    {
        let path = server_path(id);
        self.request(Method::Delete, path.as_str())
    }

    /// Force deletes a server
    ///
    /// This performs a forced deletion, which will delete the server even if it is running.
    pub fn force_delete_server(&self, id: u32) -> (request: Request)
        ensures
            self.prepares(request, Method::Delete, server_action_endpoint(id, "force"@), None),
    {
        let path = server_action_path(id, "force");
        self.request(Method::Delete, path.as_str())
    }

    /// Update server build configuration (limits and feature limits), with
    /// the encoded form of an [`UpdateBuildBody`].
    pub fn update_server_build<Body: RequestBody>(&self, id: u32, body: &Body) -> (r: Result<
        Request,
        Error,
    >)
        ensures
            self.prepares_with(Method::Patch, server_action_endpoint(id, "build"@), body, r),
    {
        let path = server_action_path(id, "build");
        self.request_with_body(Method::Patch, path.as_str(), body)
    }

    /// Update the server startup command, environment and image, with the
    /// encoded form of an [`UpdateStartupVariablesRequest`].
    pub fn update_startup_variables<Body: RequestBody>(&self, id: u32, body: &Body) -> (r: Result<
        Request,
        Error,
    >)
        ensures
            self.prepares_with(Method::Patch, server_action_endpoint(id, "startup"@), body, r),
    {
        let path = server_action_path(id, "startup");
        self.request_with_body(Method::Patch, path.as_str(), body)
    }

    /// Suspends a server by ID
    pub fn suspend_server(&self, id: u32) -> (request: Request)
        ensures
            self.prepares(request, Method::Post, server_action_endpoint(id, "suspend"@), None),
    {
        let path = server_action_path(id, "suspend");
        self.request(Method::Post, path.as_str())
    }

    /// Resumes (unsuspends) a server by ID
    pub fn resume_server(&self, id: u32) -> (request: Request)
        ensures
            self.prepares(request, Method::Post, server_action_endpoint(id, "resume"@), None),
    {
        let path = server_action_path(id, "resume");
        self.request(Method::Post, path.as_str())
    }
}

} // verus!
