use vstd::prelude::*;
use vstd::string::StrSliceExecFns;

use crate::text::{contains_char, str_eq};

verus! {

/// A parsed request target, as a plain value.
pub enum Route {
    /// `GET /`: the informational greeting.
    Root,
    /// `GET /_health_check`: the liveness probe.
    HealthCheck,
    /// `GET /api` or `GET /api/`: the list of resource names.
    ListApis,
    /// `GET /api/{name}`: one resource, with the name taken verbatim from
    /// the path segment.
    FetchResource(String),
    /// Anything else: no declared route matches.
    NoRoute,
}

/// The mathematical shape of a parsed request target.
pub enum RouteSpec {
    Root,
    HealthCheck,
    ListApis,
    Fetch { name: Seq<char> },
    NoRoute,
}

impl View for Route {
    type V = RouteSpec;

    open spec fn view(&self) -> RouteSpec {
        match self {
            Route::Root => RouteSpec::Root,
            Route::HealthCheck => RouteSpec::HealthCheck,
            Route::ListApis => RouteSpec::ListApis,
            Route::FetchResource(name) => RouteSpec::Fetch { name: name@ },
            Route::NoRoute => RouteSpec::NoRoute,
        }
    }
}

/// A resource path: `/api/` followed by one nonempty segment with no
/// further separator.
pub open spec fn is_resource_path(path: Seq<char>) -> bool {
    path.len() > 5 && path.take(5) == "/api/"@ && !path.skip(5).contains('/')
}

/// The verbatim segment after `/api/`.
pub open spec fn resource_name_of(path: Seq<char>) -> Seq<char> {
    path.skip(5)
}

/// Which route a request matches. Only `GET` requests match any declared
/// route; the alias `/api/` lists resources just as `/api` does.
pub open spec fn parse_route(method: Seq<char>, path: Seq<char>) -> RouteSpec {
    if method != "GET"@ {
        RouteSpec::NoRoute
    } else if path == "/"@ {
        RouteSpec::Root
    } else if path == "/_health_check"@ {
        RouteSpec::HealthCheck
    } else if path == "/api"@ || path == "/api/"@ {
        RouteSpec::ListApis
    } else if is_resource_path(path) {
        RouteSpec::Fetch { name: resource_name_of(path) }
    } else {
        RouteSpec::NoRoute
    }
}

/// Parses a request's method and path into the route it addresses.
pub fn route_request(method: &str, path: &str) -> (r: Route)
    ensures
        r@ == parse_route(method@, path@),
{
    if !str_eq(method, "GET") {
        return Route::NoRoute;
    }
    if str_eq(path, "/") {
        return Route::Root;
    }
    if str_eq(path, "/_health_check") {
        return Route::HealthCheck;
    }
    if str_eq(path, "/api") || str_eq(path, "/api/") {
        return Route::ListApis;
    }
    let n = path.unicode_len();
    if n > 5 {
        let head = path.substring_char(0, 5);
        if str_eq(head, "/api/") {
            let rest = path.substring_char(5, n);
            proof {
                assert(head@ == path@.take(5));
                assert(rest@ == path@.skip(5));
            }
            if !contains_char(rest, '/') {
                return Route::FetchResource(rest.to_owned());
            }
            return Route::NoRoute;
        }
        proof {
            assert(path@.take(5) != "/api/"@);
        }
        return Route::NoRoute;
    }
    Route::NoRoute
}

} // verus!
