use vstd::prelude::*;
use vstd::string::{StrSliceExecFns, StringExecFns};

use crate::json::{json_parses, parse_error_text, parse_json};
use crate::routing::{parse_route, Route, RouteSpec};
use crate::text::str_eq;

verus! {

/// The immutable state shared by every request: the base directory and the
/// index of servable resource names, both fixed at startup.
pub struct ServerConfig {
    pub data_dir: String,
    pub index: Vec<String>,
}

/// A directory path with one trailing separator, if any, taken off.
pub open spec fn normalized_dir(d: Seq<char>) -> Seq<char> {
    if d.len() > 0 && d.last() == '/' {
        d.drop_last()
    } else {
        d
    }
}

/// Strips a trailing separator from a directory path, if one is there.
pub fn normalize_data_dir(dir: &str) -> (r: String)
    ensures
        r@ == normalized_dir(dir@),
{
    let n = dir.unicode_len();
    if n > 0 && dir.get_char(n - 1) == '/' {
        let trimmed = dir.substring_char(0, n - 1);
        proof {
            assert(trimmed@ == dir@.drop_last());
        }
        trimmed.to_owned()
    } else {
        dir.to_owned()
    }
}

impl ServerConfig {
    /// The resource names of the index, as sequences of characters.
    pub open spec fn names(&self) -> Seq<Seq<char>> {
        self.index.deep_view()
    }

    /// Builds the shared state from the configured directory and the index,
    /// normalizing a trailing separator away.
    pub fn new(data_dir: &str, index: Vec<String>) -> (cfg: ServerConfig)
        ensures
            cfg.data_dir@ == normalized_dir(data_dir@),
            cfg.index == index,
    {
        ServerConfig { data_dir: normalize_data_dir(data_dir), index }
    }
}

/// The response owed to one request, as plain values; the transport turns
/// it into an HTTP reply using `status_code`, `error_message` and
/// `plain_body`.
pub enum ApiResponse {
    /// `200`, the static greeting page.
    Greeting,
    /// `200`, the plain-text liveness answer.
    HealthOk,
    /// `404`, plain text: no declared route matches.
    RouteMiss,
    /// `200`, the full ordered list of resource names.
    NameList(Vec<String>),
    /// `404`, structured: the index holds no names at all.
    EmptyIndex,
    /// `200`, the parsed JSON document itself.
    Document(serde_json::Value),
    /// `404`, structured: the requested name is not in the index.
    NotFound,
    /// `500`, structured: the name is indexed but its file could not be
    /// read.
    ReadFault,
    /// `500`, structured: the file's content is not valid JSON; holds the
    /// parser's diagnostic message.
    ParseFault(String),
}

impl ApiResponse {
    /// The HTTP status code owed to this response.
    pub fn status_code(&self) -> (code: u16)
        ensures
            code == 200u16 <==> (self is Greeting || self is HealthOk || self is NameList
                || self is Document),
            code == 404u16 <==> (self is RouteMiss || self is EmptyIndex || self is NotFound),
            code == 500u16 <==> (self is ReadFault || self is ParseFault),
    {
        match self {
            ApiResponse::Greeting => 200,
            ApiResponse::HealthOk => 200,
            ApiResponse::NameList(_) => 200,
            ApiResponse::Document(_) => 200,
            ApiResponse::RouteMiss => 404,
            ApiResponse::EmptyIndex => 404,
            ApiResponse::NotFound => 404,
            ApiResponse::ReadFault => 500,
            ApiResponse::ParseFault(_) => 500,
        }
    }

    /// The text of the structured `{"error": ...}` body, for the responses
    /// that carry one; the two distinct not-found wordings are pinned here.
    pub fn error_message(&self) -> (r: Option<String>)
        ensures
            self is EmptyIndex ==> (r matches Some(m) && m@ == "not found"@),
            self is NotFound ==> (r matches Some(m) && m@ == "file not found"@),
            self is ReadFault ==> (r matches Some(m) && m@ == "Failed to read file"@),
            self matches ApiResponse::ParseFault(msg) ==> (r matches Some(m) && m@ == msg@),
            self is Greeting || self is HealthOk || self is RouteMiss || self is NameList
                || self is Document ==> r is None,
    {
        match self {
            ApiResponse::EmptyIndex => Some(String::from_str("not found")),
            ApiResponse::NotFound => Some(String::from_str("file not found")),
            ApiResponse::ReadFault => Some(String::from_str("Failed to read file")),
            ApiResponse::ParseFault(msg) => Some(msg.clone()),
            _ => None,
        }
    }

    /// The plain body of the responses that are not JSON-shaped: the
    /// greeting, the liveness answer, and the route-miss text, which stays
    /// plain by design where the resource-miss body is structured.
    pub fn plain_body(&self) -> (r: Option<String>)
        ensures
            self is Greeting ==> (r matches Some(b) && b@ == "<h1>Hello, World!</h1>"@),
            self is HealthOk ==> (r matches Some(b) && b@ == "ok"@),
            self is RouteMiss ==> (r matches Some(b) && b@ == "nothing to see here"@),
            self is NameList || self is Document || self is EmptyIndex || self is NotFound
                || self is ReadFault || self is ParseFault ==> r is None,
    {
        match self {
            ApiResponse::Greeting => Some(String::from_str("<h1>Hello, World!</h1>")),
            ApiResponse::HealthOk => Some(String::from_str("ok")),
            ApiResponse::RouteMiss => Some(String::from_str("nothing to see here")),
            _ => None,
        }
    }
}

/// What a request needs next: either the finished response, or one file to
/// read, whose contents `respond_after_read` then turns into the response.
pub enum FetchStep {
    /// The response is already decided; no file is touched.
    Respond(ApiResponse),
    /// Read this file and hand its contents back.
    ReadFile(String),
}

/// Whether `name` is one of the indexed resource names.
pub fn contains_name(index: &Vec<String>, name: &str) -> (r: bool)
    ensures
        r == index.deep_view().contains(name@),
{
    let n = index.len();
    let mut i: usize = 0;
    while i < n
        invariant
            n == index.len(),
            i <= n,
            forall|j: int| 0 <= j < i ==> index.deep_view()[j] != name@,
        decreases n - i,
    {
        if str_eq(index[i].as_str(), name) {
            proof {
                assert(index.deep_view()[i as int] == name@);
            }
            return true;
        }
        i += 1;
    }
    proof {
        assert(!index.deep_view().contains(name@));
    }
    false
}

/// The backing file of a resource: `<data_dir>/<name>.json`.
pub fn resource_path(data_dir: &str, name: &str) -> (p: String)
    ensures
        p@ == data_dir@ + "/"@ + name@ + ".json"@,
{
    let mut p = data_dir.to_owned();
    p.append("/");
    p.append(name);
    p.append(".json");
    proof {
        assert(p@ =~= data_dir@ + "/"@ + name@ + ".json"@);
    }
    p
}

/// Decides a fetch request up to the file system: an unindexed name is
/// answered `NotFound` at once — its file is never touched — and an indexed
/// one names exactly the file `<data_dir>/<name>.json` to read.
pub fn fetch_resource(cfg: &ServerConfig, name: &str) -> (r: FetchStep)
    ensures
        !cfg.names().contains(name@) ==> (r matches FetchStep::Respond(resp) && resp is NotFound),
        cfg.names().contains(name@) ==> (r matches FetchStep::ReadFile(p) && p@ == cfg.data_dir@
            + "/"@ + name@ + ".json"@),
{
    if !contains_name(&cfg.index, name) {
        FetchStep::Respond(ApiResponse::NotFound)
    } else {
        FetchStep::ReadFile(resource_path(cfg.data_dir.as_str(), name))
    }
}

/// Turns the outcome of reading an indexed resource's file into the
/// response: a failed read is the server's fault, a text that parses is
/// returned as the parsed document, and one that does not parse surfaces
/// the parser's diagnostic.
pub fn respond_after_read(contents: Option<String>) -> (r: ApiResponse)
    ensures
        contents is None ==> r is ReadFault,
        contents matches Some(text) && json_parses(text@) ==> r is Document,
        contents matches Some(text) && !json_parses(text@) ==> r is ParseFault,
{
    match contents {
        None => ApiResponse::ReadFault,
        Some(text) => match parse_json(text.as_str()) {
            Ok(value) => ApiResponse::Document(value),
            Err(e) => ApiResponse::ParseFault(parse_error_text(&e)),
        },
    }
}

/// Answers the list request: an empty index is a structured `404`, and
/// otherwise the full name list is returned in index order.
pub fn list_resources(cfg: &ServerConfig) -> (r: ApiResponse)
    ensures
        cfg.names().len() == 0 ==> r is EmptyIndex,
        cfg.names().len() > 0 ==> (r matches ApiResponse::NameList(ns) && ns.deep_view()
            == cfg.names()),
{
    if cfg.index.len() == 0 {
        ApiResponse::EmptyIndex
    } else {
        ApiResponse::NameList(clone_names(&cfg.index))
    }
}

/// A copy of the name list, character for character.
fn clone_names(index: &Vec<String>) -> (out: Vec<String>)
    ensures
        out.deep_view() == index.deep_view(),
{
    let n = index.len();
    let mut out: Vec<String> = Vec::new();
    let mut i: usize = 0;
    while i < n
        invariant
            n == index.len(),
            i <= n,
            out.len() == i,
            forall|j: int| 0 <= j < i ==> out.deep_view()[j] == index.deep_view()[j],
        decreases n - i,
    {
        out.push(index[i].clone());
        i += 1;
    }
    proof {
        assert(out.deep_view() =~= index.deep_view());
    }
    out
}

/// Decides a whole request from its method and path: the route is parsed,
/// the index is consulted, and either the finished response or the single
/// file left to read comes back. No request strays outside this contract,
/// and only an indexed name ever names a file.
pub fn handle_request(cfg: &ServerConfig, method: &str, path: &str) -> (r: FetchStep)
    ensures
        match parse_route(method@, path@) {
            RouteSpec::Root => (r matches FetchStep::Respond(resp) && resp is Greeting),
            RouteSpec::HealthCheck => (r matches FetchStep::Respond(resp) && resp is HealthOk),
            RouteSpec::ListApis => (r matches FetchStep::Respond(resp) && (cfg.names().len() == 0
                ==> resp is EmptyIndex) && (cfg.names().len() > 0 ==> (resp
                matches ApiResponse::NameList(ns) && ns.deep_view() == cfg.names()))),
            RouteSpec::Fetch { name } => (!cfg.names().contains(name) ==> (r
                matches FetchStep::Respond(resp) && resp is NotFound)) && (cfg.names().contains(
                name,
            ) ==> (r matches FetchStep::ReadFile(p) && p@ == cfg.data_dir@ + "/"@ + name
                + ".json"@)),
            RouteSpec::NoRoute => (r matches FetchStep::Respond(resp) && resp is RouteMiss),
        },
{
    match crate::routing::route_request(method, path) {
        Route::Root => FetchStep::Respond(ApiResponse::Greeting),
        Route::HealthCheck => FetchStep::Respond(ApiResponse::HealthOk),
        Route::ListApis => FetchStep::Respond(list_resources(cfg)),
        Route::FetchResource(name) => fetch_resource(cfg, name.as_str()),
        Route::NoRoute => FetchStep::Respond(ApiResponse::RouteMiss),
    }
}

} // verus!
