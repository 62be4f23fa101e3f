use vstd::prelude::*;

use crate::gate::{carries_token, InterstellarToken};
use crate::handlers::{
    created_record, deliver, package_count, packages_by_destination, packages_by_speed, track,
    tracks, DeliveryRequest, DeliveryResponse, PackageCount, PackageList, TrackResponse,
};
use crate::package_id::is_package_id;
use crate::registry::{is_listing, PackageField, PackageRegistry};
use crate::text::{journey_status, same_text, segment_after, segment_following};

verus! {

/// A parsed request: the operation and its input.
#[derive(Debug)]
pub enum Route {
    Deliver(DeliveryRequest),
    Track(String),
    ByDestination(String),
    BySpeed(String),
    Count,
}

/// The answer to a request.
#[derive(Debug)]
pub enum Response {
    Delivered(DeliveryResponse),
    TrackReport(TrackResponse),
    Packages(PackageList),
    Counted(PackageCount),
    /// The token header was missing; nothing was read or changed.
    Unauthorized,
}

/// `r` is what `route` answers on the registry contents `m`, which become
/// `m2`, for a request that carries the token header.
pub open spec fn serves(
    m: Map<Seq<char>, crate::package::PackageView>,
    route: Route,
    r: Response,
    m2: Map<Seq<char>, crate::package::PackageView>,
) -> bool {
    match route {
        Route::Deliver(req) => match r {
            Response::Delivered(d) => {
                &&& is_package_id(d.package_id@)
                &&& d.status@ == journey_status(req.destination@, req.speed@)
                &&& m2 == m.insert(d.package_id@, created_record(req.destination@, req.speed@))
            },
            _ => false,
        },
        Route::Track(id) => match r {
            Response::TrackReport(t) => m2 == m && tracks(m, id@, t),
            _ => false,
        },
        Route::ByDestination(d) => match r {
            Response::Packages(l) => m2 == m && is_listing(
                m,
                l.packages@,
                PackageField::Destination,
                d@,
            ),
            _ => false,
        },
        Route::BySpeed(s) => match r {
            Response::Packages(l) => m2 == m && is_listing(m, l.packages@, PackageField::Speed, s@),
            _ => false,
        },
        Route::Count => match r {
            Response::Counted(c) => m2 == m && c.package_count == m.len(),
            _ => false,
        },
    }
}

/// The operation that a request's method and path select, with the path
/// segment it carries.
#[derive(Debug)]
pub enum Endpoint {
    Deliver,
    Track(String),
    ByDestination(String),
    BySpeed(String),
    Count,
}

/// `e` is the endpoint for `method` and `path`.
pub open spec fn is_endpoint(method: Seq<char>, path: Seq<char>, e: Endpoint) -> bool {
    match e {
        Endpoint::Deliver => method == "POST"@ && path == "/deliver"@,
        Endpoint::Count => method == "GET"@ && path == "/packages/count"@,
        Endpoint::Track(id) => method == "GET"@ && segment_after(path, "/track/"@) == Some(id@),
        Endpoint::ByDestination(d) => method == "GET"@ && segment_after(
            path,
            "/packages/destination/"@,
        ) == Some(d@),
        Endpoint::BySpeed(v) => method == "GET"@ && segment_after(path, "/packages/speed/"@)
            == Some(v@),
    }
}

/// Some endpoint serves `method` and `path`.
pub open spec fn has_endpoint(method: Seq<char>, path: Seq<char>) -> bool {
    ||| method == "POST"@ && path == "/deliver"@
    ||| method == "GET"@ && path == "/packages/count"@
    ||| method == "GET"@ && segment_after(path, "/track/"@) is Some
    ||| method == "GET"@ && segment_after(path, "/packages/destination/"@) is Some
    ||| method == "GET"@ && segment_after(path, "/packages/speed/"@) is Some
}

/// The endpoint that `method` and `path` select; `None` when no route
/// serves them. Path segments are taken as they stand, without decoding.
pub fn parse_endpoint(method: &str, path: &str) -> (r: Option<Endpoint>)
    ensures
        match r {
            Some(e) => is_endpoint(method@, path@, e),
            None => !has_endpoint(method@, path@),
        },
{
    if same_text(method, "POST") {
        if same_text(path, "/deliver") {
            return Some(Endpoint::Deliver);
        }
        proof {
            reveal_strlit("POST");
            reveal_strlit("GET");
            assert(method@.len() != "GET"@.len());
        }
        return None;
    }
    if !same_text(method, "GET") {
        return None;
    }
    if same_text(path, "/packages/count") {
        return Some(Endpoint::Count);
    }
    if let Some(id) = segment_following(path, "/track/") {
        return Some(Endpoint::Track(id));
    }
    if let Some(d) = segment_following(path, "/packages/destination/") {
        return Some(Endpoint::ByDestination(d));
    }
    if let Some(v) = segment_following(path, "/packages/speed/") {
        return Some(Endpoint::BySpeed(v));
    }
    None
}

/// The request for `endpoint`; creating a package also needs its parsed
/// body, and without one there is no request.
pub fn route_for(endpoint: Endpoint, body: Option<DeliveryRequest>) -> (r: Option<Route>)
    ensures
        match endpoint {
            Endpoint::Deliver => match body {
                Some(b) => r == Some(Route::Deliver(b)),
                None => r is None,
            },
            Endpoint::Track(id) => r == Some(Route::Track(id)),
            Endpoint::ByDestination(d) => r == Some(Route::ByDestination(d)),
            Endpoint::BySpeed(v) => r == Some(Route::BySpeed(v)),
            Endpoint::Count => r == Some(Route::Count),
        },
{
    match endpoint {
        Endpoint::Deliver => match body {
            Some(b) => Some(Route::Deliver(b)),
            None => None,
        },
        Endpoint::Track(id) => Some(Route::Track(id)),
        Endpoint::ByDestination(d) => Some(Route::ByDestination(d)),
        Endpoint::BySpeed(v) => Some(Route::BySpeed(v)),
        Endpoint::Count => Some(Route::Count),
    }
}

/// A fresh service state: an empty registry that every route shares.
pub fn rocket() -> (r: PackageRegistry)
    ensures
        r.wf(),
        r@ == Map::<Seq<char>, crate::package::PackageView>::empty(),
{
    PackageRegistry::new()
}

/// Answers one request. A request whose headers, given by name, lack the
/// token header is refused before the registry is read or changed.
pub fn handle(registry: &mut PackageRegistry, header_names: &Vec<String>, route: Route) -> (r:
    Response)
    requires
        old(registry).wf(),
    ensures
        final(registry).wf(),
        !carries_token(header_names@) ==> r is Unauthorized && final(registry)@ == old(registry)@,
        carries_token(header_names@) ==> serves(old(registry)@, route, r, final(registry)@),
{
    let token = match InterstellarToken::from_request(header_names) {
        Some(t) => t,
        None => {
            return Response::Unauthorized;
        },
    };
    match route {
        Route::Deliver(req) => Response::Delivered(deliver(registry, req, &token)),
        Route::Track(id) => Response::TrackReport(track(registry, id, &token)),
        Route::ByDestination(d) => Response::Packages(packages_by_destination(registry, d, &token)),
        Route::BySpeed(s) => Response::Packages(packages_by_speed(registry, s, &token)),
        Route::Count => Response::Counted(package_count(registry, &token)),
    }
}

} // verus!
