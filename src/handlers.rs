use vstd::prelude::*;
use vstd::string::StringExecFns;

use crate::gate::InterstellarToken;
use crate::package::{PackageEntry, PackageInfo, PackageView};
use crate::package_id::{generate_package_id, is_package_id};
use crate::registry::{is_listing, PackageField, PackageRegistry};
use crate::text::{journey_status, simulate_journey, tracking_info, tracking_sentence};

verus! {

/// The record of a package just created: it starts from Earth.
pub open spec fn created_record(destination: Seq<char>, speed: Seq<char>) -> PackageView {
    PackageView { destination, current_location: "Earth"@, speed }
}

/// A request to deliver a package.
#[derive(Debug)]
pub struct DeliveryRequest {
    pub destination: String,
    pub speed: String,
}

/// The answer to a delivery request.
#[derive(Debug)]
pub struct DeliveryResponse {
    pub package_id: String,
    pub status: String,
}

/// What tracking reports of a stored package.
#[derive(Debug)]
pub struct TrackInfo {
    pub package_id: String,
    pub destination: String,
    pub current_location: String,
    pub speed: String,
    pub tracking_info: String,
}

/// The answer to a tracking request. An unknown identifier is an ordinary
/// answer, not a failure.
#[derive(Debug)]
pub enum TrackResponse {
    Found(TrackInfo),
    NotFound,
}

impl TrackResponse {
    /// The error text carried by a `NotFound` answer.
    pub fn not_found_message() -> (r: String)
        ensures
            r@ == "Package ID not found"@,
    {
        String::from_str("Package ID not found")
    }
}

/// `r` is what tracking `package_id` reports on the registry contents `m`.
pub open spec fn tracks(m: Map<Seq<char>, PackageView>, package_id: Seq<char>, r: TrackResponse) -> bool {
    match r {
        TrackResponse::Found(t) => {
            &&& m.contains_key(package_id)
            &&& t.package_id@ == package_id
            &&& t.destination@ == m[package_id].destination
            &&& t.current_location@ == m[package_id].current_location
            &&& t.speed@ == m[package_id].speed
            &&& t.tracking_info@ == tracking_sentence(
                m[package_id].current_location,
                m[package_id].destination,
            )
        },
        TrackResponse::NotFound => !m.contains_key(package_id),
    }
}

/// The packages that a listing found, each with its identifier.
#[derive(Debug)]
pub struct PackageList {
    pub packages: Vec<PackageEntry>,
}

/// The number of packages stored.
#[derive(Debug)]
pub struct PackageCount {
    pub package_count: usize,
}

/// Creates a package under the identifier `package_id`, starting from
/// Earth, and reports its identifier and journey status.
pub fn deliver_with_id(
    registry: &mut PackageRegistry,
    delivery_request: DeliveryRequest,
    package_id: String,
    _token: &InterstellarToken,
) -> (r: DeliveryResponse)
    requires
        old(registry).wf(),
    ensures
        final(registry).wf(),
        final(registry)@ == old(registry)@.insert(
            package_id@,
            created_record(delivery_request.destination@, delivery_request.speed@),
        ),
        final(registry)@.dom().finite(),
        final(registry)@.len() == old(registry)@.len() + if old(registry)@.contains_key(
            package_id@,
        ) {
            0int
        } else {
            1int
        },
        r.package_id@ == package_id@,
        r.status@ == journey_status(delivery_request.destination@, delivery_request.speed@),
{
    let status = simulate_journey(
        delivery_request.destination.as_str(),
        delivery_request.speed.as_str(),
    );
    let info = PackageInfo {
        destination: delivery_request.destination,
        current_location: String::from_str("Earth"),
        speed: delivery_request.speed,
    };
    registry.insert(package_id.clone(), info);
    DeliveryResponse { package_id, status }
}

/// Creates a package under a fresh random identifier, starting from Earth,
/// and reports its identifier and journey status.
pub fn deliver(
    registry: &mut PackageRegistry,
    delivery_request: DeliveryRequest,
    token: &InterstellarToken,
) -> (r: DeliveryResponse)
    requires
        old(registry).wf(),
    ensures
        final(registry).wf(),
        is_package_id(r.package_id@),
        final(registry)@ == old(registry)@.insert(
            r.package_id@,
            created_record(delivery_request.destination@, delivery_request.speed@),
        ),
        final(registry)@.dom().finite(),
        final(registry)@.len() == old(registry)@.len() + if old(registry)@.contains_key(
            r.package_id@,
        ) {
            0int
        } else {
            1int
        },
        r.status@ == journey_status(delivery_request.destination@, delivery_request.speed@),
{
    let package_id = generate_package_id();
    deliver_with_id(registry, delivery_request, package_id, token)
}

/// Reports where the package `package_id` is, or that it is unknown.
pub fn track(registry: &PackageRegistry, package_id: String, _token: &InterstellarToken) -> (r:
    TrackResponse)
    requires
        registry.wf(),
    ensures
        tracks(registry@, package_id@, r),
{
    match registry.get(&package_id) {
        Some(info) => {
            let sentence = tracking_info(info.current_location.as_str(), info.destination.as_str());
            TrackResponse::Found(
                TrackInfo {
                    package_id,
                    destination: info.destination,
                    current_location: info.current_location,
                    speed: info.speed,
                    tracking_info: sentence,
                },
            )
        },
        None => TrackResponse::NotFound,
    }
}

/// The packages bound for exactly `destination`.
pub fn packages_by_destination(
    registry: &PackageRegistry,
    destination: String,
    _token: &InterstellarToken,
) -> (r: PackageList)
    requires
        registry.wf(),
    ensures
        is_listing(registry@, r.packages@, PackageField::Destination, destination@),
{
    PackageList { packages: registry.list_by_destination(&destination) }
}

/// The packages travelling at exactly `speed`.
pub fn packages_by_speed(registry: &PackageRegistry, speed: String, _token: &InterstellarToken) -> (r:
    PackageList)
    requires
        registry.wf(),
    ensures
        is_listing(registry@, r.packages@, PackageField::Speed, speed@),
{
    PackageList { packages: registry.list_by_speed(&speed) }
}

/// The number of packages stored.
pub fn package_count(registry: &PackageRegistry, _token: &InterstellarToken) -> (r: PackageCount)
    requires
        registry.wf(),
    ensures
        r.package_count == registry@.len(),
{
    PackageCount { package_count: registry.count() }
}

} // verus!
