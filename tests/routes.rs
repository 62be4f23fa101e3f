use interstellar_post::gate::InterstellarToken;
use interstellar_post::handlers::{DeliveryRequest, TrackResponse};
use interstellar_post::package_id::{generate_package_id, package_id_from_draws};
use interstellar_post::routes::{handle, parse_endpoint, rocket, route_for, Endpoint, Response, Route};
use interstellar_post::text::{eq_ignoring_ascii_case, segment_following, simulate_journey, tracking_info};

fn token_headers() -> Vec<String> {
    vec!["Accept".to_string(), "X-Interstellar-Token".to_string()]
}

fn all_routes() -> Vec<Route> {
    vec![
        Route::Deliver(DeliveryRequest { destination: "Mars".to_string(), speed: "fast".to_string() }),
        Route::Track("abc".to_string()),
        Route::ByDestination("Mars".to_string()),
        Route::BySpeed("fast".to_string()),
        Route::Count,
    ]
}

#[test]
fn jupiter_light_scenario() {
    let mut registry = rocket();
    let endpoint = parse_endpoint("POST", "/deliver").unwrap();
    let body = DeliveryRequest { destination: "Jupiter".to_string(), speed: "light".to_string() };
    let route = route_for(endpoint, Some(body)).unwrap();
    let id = match handle(&mut registry, &token_headers(), route) {
        Response::Delivered(d) => {
            assert_eq!(d.package_id.chars().count(), 10);
            assert!(d.package_id.chars().all(|c| c.is_ascii_alphanumeric()));
            assert!(d.status.contains("Jupiter"));
            d.package_id
        }
        _ => panic!("expected a delivery answer"),
    };
    let path = format!("/track/{}", id);
    let endpoint = parse_endpoint("GET", &path).unwrap();
    let route = route_for(endpoint, None).unwrap();
    match handle(&mut registry, &token_headers(), route) {
        Response::TrackReport(TrackResponse::Found(t)) => {
            assert_eq!(t.package_id, id);
            assert_eq!(t.current_location, "Earth");
            assert_eq!(t.destination, "Jupiter");
        }
        _ => panic!("expected the package to be found"),
    }
}

#[test]
fn missing_header_rejected_on_every_route() {
    let mut registry = rocket();
    let token = InterstellarToken {};
    interstellar_post::handlers::deliver_with_id(
        &mut registry,
        DeliveryRequest { destination: "Mars".to_string(), speed: "fast".to_string() },
        "abc".to_string(),
        &token,
    );
    let headers = vec!["Accept".to_string(), "X-Interstellar".to_string()];
    for route in all_routes() {
        assert!(matches!(handle(&mut registry, &headers, route), Response::Unauthorized));
        assert!(matches!(handle(&mut registry, &Vec::new(), Route::Count), Response::Unauthorized));
    }
    assert_eq!(registry.count(), 1);
}

#[test]
fn header_present_admits_every_route() {
    let mut registry = rocket();
    for route in all_routes() {
        assert!(!matches!(handle(&mut registry, &token_headers(), route), Response::Unauthorized));
    }
    match handle(&mut registry, &token_headers(), Route::Count) {
        Response::Counted(c) => assert_eq!(c.package_count, 1),
        _ => panic!("expected a count"),
    }
}

#[test]
fn header_name_ignores_case() {
    assert!(InterstellarToken::from_request(&vec!["x-interstellar-token".to_string()]).is_some());
    assert!(InterstellarToken::from_request(&vec!["X-INTERSTELLAR-TOKEN".to_string()]).is_some());
    assert!(InterstellarToken::from_request(&vec!["X-Interstellar-Tokens".to_string()]).is_none());
    assert!(InterstellarToken::from_request(&Vec::new()).is_none());
    assert!(eq_ignoring_ascii_case("AbC", "aBc"));
    assert!(!eq_ignoring_ascii_case("Ab", "Ab "));
}

#[test]
fn endpoints_parse() {
    assert!(matches!(parse_endpoint("POST", "/deliver"), Some(Endpoint::Deliver)));
    assert!(matches!(parse_endpoint("GET", "/packages/count"), Some(Endpoint::Count)));
    match parse_endpoint("GET", "/packages/destination/Mars") {
        Some(Endpoint::ByDestination(d)) => assert_eq!(d, "Mars"),
        _ => panic!("expected a destination listing"),
    }
    match parse_endpoint("GET", "/packages/speed/warp") {
        Some(Endpoint::BySpeed(s)) => assert_eq!(s, "warp"),
        _ => panic!("expected a speed listing"),
    }
    match parse_endpoint("GET", "/track/Ab3") {
        Some(Endpoint::Track(id)) => assert_eq!(id, "Ab3"),
        _ => panic!("expected tracking"),
    }
    assert!(parse_endpoint("GET", "/deliver").is_none());
    assert!(parse_endpoint("POST", "/packages/count").is_none());
    assert!(parse_endpoint("GET", "/track/").is_none());
    assert!(parse_endpoint("GET", "/track/a/b").is_none());
    assert!(parse_endpoint("DELETE", "/track/a").is_none());
    assert!(route_for(Endpoint::Deliver, None).is_none());
}

#[test]
fn segments_and_messages() {
    assert_eq!(segment_following("/track/xyz", "/track/"), Some("xyz".to_string()));
    assert_eq!(segment_following("/trak/xyz", "/track/"), None);
    assert_eq!(simulate_journey("Saturn", "warp"), "Package en route to Saturn with warp");
    assert_eq!(tracking_info("Earth", "Saturn"), "Package is currently at Earth en route to Saturn");
}

#[test]
fn generated_ids_are_ten_alphanumerics() {
    for _ in 0..20 {
        let id = generate_package_id();
        assert_eq!(id.len(), 10);
        assert!(id.chars().all(|c| c.is_ascii_alphanumeric()));
    }
}

#[test]
fn id_spelled_from_draws() {
    let draws: Vec<u8> = b"aZ09Qx7mK2".to_vec();
    assert_eq!(package_id_from_draws(&draws), "aZ09Qx7mK2");
}

#[test]
fn generated_ids_differ() {
    let a = generate_package_id();
    let b = generate_package_id();
    assert_ne!(a, b);
}
