use interstellar_post::gate::InterstellarToken;
use interstellar_post::handlers::{
    deliver, deliver_with_id, package_count, packages_by_destination, packages_by_speed, track,
    DeliveryRequest, TrackResponse,
};
use interstellar_post::registry::PackageRegistry;

fn request(destination: &str, speed: &str) -> DeliveryRequest {
    DeliveryRequest { destination: destination.to_string(), speed: speed.to_string() }
}

fn is_package_id(s: &str) -> bool {
    s.chars().count() == 10 && s.chars().all(|c| c.is_ascii_alphanumeric())
}

#[test]
fn round_trip_mars_fast() {
    let token = InterstellarToken {};
    let mut registry = PackageRegistry::new();
    let created = deliver(&mut registry, request("Mars", "fast"), &token);
    match track(&registry, created.package_id.clone(), &token) {
        TrackResponse::Found(t) => {
            assert_eq!(t.package_id, created.package_id);
            assert_eq!(t.current_location, "Earth");
            assert_eq!(t.destination, "Mars");
            assert_eq!(t.speed, "fast");
            assert_eq!(t.tracking_info, "Package is currently at Earth en route to Mars");
        }
        TrackResponse::NotFound => panic!("created package not found"),
    }
}

#[test]
fn deliver_reports_status_and_fresh_id() {
    let token = InterstellarToken {};
    let mut registry = PackageRegistry::new();
    let created = deliver(&mut registry, request("Jupiter", "light"), &token);
    assert!(is_package_id(&created.package_id));
    assert_eq!(created.status, "Package en route to Jupiter with light");
    assert_eq!(registry.count(), 1);
}

#[test]
fn deliver_accepts_empty_fields() {
    let token = InterstellarToken {};
    let mut registry = PackageRegistry::new();
    let created = deliver_with_id(&mut registry, request("", ""), "id0".to_string(), &token);
    assert_eq!(created.package_id, "id0");
    assert_eq!(created.status, "Package en route to  with ");
    match track(&registry, "id0".to_string(), &token) {
        TrackResponse::Found(t) => {
            assert_eq!(t.destination, "");
            assert_eq!(t.speed, "");
            assert_eq!(t.current_location, "Earth");
        }
        TrackResponse::NotFound => panic!("created package not found"),
    }
}

#[test]
fn unknown_id_is_not_found_every_time() {
    let token = InterstellarToken {};
    let mut registry = PackageRegistry::new();
    deliver_with_id(&mut registry, request("Mars", "fast"), "abc".to_string(), &token);
    for _ in 0..3 {
        assert!(matches!(track(&registry, "never".to_string(), &token), TrackResponse::NotFound));
    }
    assert_eq!(registry.count(), 1);
    assert_eq!(TrackResponse::not_found_message(), "Package ID not found");
}

#[test]
fn destination_listing_is_exact() {
    let token = InterstellarToken {};
    let mut registry = PackageRegistry::new();
    deliver_with_id(&mut registry, request("Mars", "fast"), "a".to_string(), &token);
    deliver_with_id(&mut registry, request("Venus", "fast"), "b".to_string(), &token);
    deliver_with_id(&mut registry, request("Mars", "slow"), "c".to_string(), &token);
    deliver_with_id(&mut registry, request("mars", "slow"), "d".to_string(), &token);
    let list = packages_by_destination(&registry, "Mars".to_string(), &token);
    let mut ids: Vec<String> = list.packages.iter().map(|e| e.package_id.clone()).collect();
    ids.sort();
    assert_eq!(ids, vec!["a".to_string(), "c".to_string()]);
    for e in &list.packages {
        assert_eq!(e.info.destination, "Mars");
        assert_eq!(e.info.current_location, "Earth");
    }
    let none = packages_by_destination(&registry, "Pluto".to_string(), &token);
    assert!(none.packages.is_empty());
}

#[test]
fn speed_listing_is_exact() {
    let token = InterstellarToken {};
    let mut registry = PackageRegistry::new();
    deliver_with_id(&mut registry, request("Mars", "fast"), "a".to_string(), &token);
    deliver_with_id(&mut registry, request("Venus", "fast"), "b".to_string(), &token);
    deliver_with_id(&mut registry, request("Mars", "slow"), "c".to_string(), &token);
    let list = packages_by_speed(&registry, "fast".to_string(), &token);
    let mut ids: Vec<String> = list.packages.iter().map(|e| e.package_id.clone()).collect();
    ids.sort();
    assert_eq!(ids, vec!["a".to_string(), "b".to_string()]);
    assert!(packages_by_speed(&registry, "light".to_string(), &token).packages.is_empty());
}

#[test]
fn count_after_k_creates() {
    let token = InterstellarToken {};
    let mut registry = PackageRegistry::new();
    assert_eq!(package_count(&registry, &token).package_count, 0);
    for k in 0..25 {
        deliver_with_id(&mut registry, request("Mars", "fast"), format!("id{}", k), &token);
    }
    assert_eq!(package_count(&registry, &token).package_count, 25);
}

#[test]
fn many_random_creates_all_kept() {
    let token = InterstellarToken {};
    let mut registry = PackageRegistry::new();
    let mut ids: Vec<String> = Vec::new();
    for _ in 0..50 {
        ids.push(deliver(&mut registry, request("Mars", "fast"), &token).package_id);
    }
    ids.sort();
    ids.dedup();
    assert_eq!(registry.count(), ids.len());
    assert_eq!(registry.count(), 50);
}

#[test]
fn same_id_replaces_record() {
    let token = InterstellarToken {};
    let mut registry = PackageRegistry::new();
    deliver_with_id(&mut registry, request("Mars", "fast"), "x".to_string(), &token);
    deliver_with_id(&mut registry, request("Venus", "slow"), "x".to_string(), &token);
    assert_eq!(registry.count(), 1);
    let info = registry.get(&"x".to_string()).unwrap();
    assert_eq!(info.destination, "Venus");
    assert_eq!(info.speed, "slow");
}
