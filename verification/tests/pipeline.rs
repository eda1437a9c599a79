use catnip::handler::{
    build_directory_url, parse_target, render_found, render_not_found, resolve_closest, Error,
};
use catnip::models::{closest_user, distance_between, Address, Company, GeoLocation, User};
use catnip::status::check_status;

fn geo(lat: f64, lng: f64) -> GeoLocation {
    GeoLocation { latitude: lat.to_bits(), longitude: lng.to_bits() }
}

fn user(id: usize, name: &str, lat: f64, lng: f64) -> User {
    User {
        id,
        name: name.to_string(),
        username: format!("u{id}"),
        email: format!("u{id}@example.org"),
        address: Address {
            street: "Kulas Light".to_string(),
            suite: "Apt. 556".to_string(),
            city: "Gwenborough".to_string(),
            zipcode: "92998-3874".to_string(),
            geocode: geo(lat, lng),
        },
        phone: "1-770-736-8031 x56442".to_string(),
        website: "hildegard.org".to_string(),
        company: Company {
            name: "Romaguera-Crona".to_string(),
            catch_phrase: "Multi-layered client-server neural-net".to_string(),
            bs: "harness real-time e-markets".to_string(),
        },
    }
}

#[test]
fn distance_matches_hardware_floats() {
    let a = geo(-37.3159, 81.1496);
    let b = geo(52.374, 4.8897);
    let d = distance_between(a, b);
    let expected = (((4.8897f64 - 81.1496).powi(2)) + ((52.374f64 - (-37.3159)).powi(2))).sqrt();
    assert_eq!(f64::from_bits(d), expected);
}

#[test]
fn distance_overflow_matches_hardware() {
    let a = geo(0.0, -1.0e308);
    let b = geo(0.0, 1.0e308);
    let d = distance_between(a, b);
    let expected = ((1.0e308f64 - (-1.0e308)).powi(2) + 0.0f64.powi(2)).sqrt();
    assert_eq!(f64::from_bits(d), expected);
    assert!(f64::from_bits(d).is_infinite());
}

#[test]
fn distance_tiny_magnitudes_match_hardware() {
    let a = geo(1.0e-300, 2.0e-300);
    let b = geo(3.5e-300, -1.25e-300);
    let d = distance_between(a, b);
    let expected = ((-1.25e-300f64 - 2.0e-300).powi(2) + (3.5e-300f64 - 1.0e-300).powi(2)).sqrt();
    assert_eq!(f64::from_bits(d), expected);
}

#[test]
fn distance_is_symmetric() {
    let a = geo(1.25, -7.5);
    let b = geo(-3.75, 2.125);
    assert_eq!(distance_between(a, b), distance_between(b, a));
}

#[test]
fn distance_to_self_is_zero() {
    let a = geo(52.374, 4.8897);
    assert_eq!(f64::from_bits(distance_between(a, a)), 0.0);
    assert_eq!(distance_between(a, a), 0u64);
}

#[test]
fn closest_none_iff_empty() {
    let none = closest_user(geo(0.0, 0.0), &vec![]);
    assert!(none.is_none());
    let some = closest_user(geo(0.0, 0.0), &vec![user(1, "Depot A", 0.0, 0.0)]);
    assert!(some.is_some());
}

#[test]
fn closest_picks_minimum_distance() {
    let users = vec![
        user(1, "Far", 10.0, 10.0),
        user(2, "Near", 1.5, 1.5),
        user(3, "Mid", -4.0, 3.0),
    ];
    let target = geo(1.0, 1.0);
    let (d, u) = closest_user(target, &users).unwrap();
    assert_eq!(u.name, "Near");
    for q in &users {
        let dq = distance_between(q.address.geocode, target);
        assert!(f64::from_bits(d) <= f64::from_bits(dq));
    }
}

#[test]
fn closest_tie_break_prefers_first() {
    let users = vec![
        user(7, "First", 3.0, 4.0),
        user(8, "Second", 3.0, 4.0),
    ];
    let (_, u) = closest_user(geo(0.0, 0.0), &users).unwrap();
    assert_eq!(u.name, "First");
    assert_eq!(u.id, 7);
    let again = closest_user(geo(0.0, 0.0), &users).unwrap().1;
    assert_eq!(again.name, "First");
}

#[test]
fn closest_is_not_disrupted_by_nan_records() {
    let users = vec![
        user(1, "Fine", 0.5, 0.5),
        user(2, "Broken", f64::NAN, 0.0),
        user(3, "Finer", 0.25, 0.25),
    ];
    let (_, u) = closest_user(geo(0.0, 0.0), &users).unwrap();
    assert_eq!(u.name, "Finer");
}

#[test]
fn scenario_single_depot_at_target() {
    let users = vec![user(1, "Depot A", 0.0, 0.0)];
    let outcome = resolve_closest("0", "0", &users).unwrap();
    let (d, u) = outcome.unwrap();
    let text = render_found("0", "0", &format!("{}", f64::from_bits(d)), &u);
    assert!(text.contains("Depot A (0)"));
}

#[test]
fn scenario_two_depots_picks_nearer() {
    let users = vec![user(1, "A", 0.0, 0.0), user(2, "B", 10.0, 10.0)];
    let outcome = resolve_closest("1", "1", &users).unwrap();
    let (d, u) = outcome.unwrap();
    assert_eq!(u.name, "A");
    assert_eq!(f64::from_bits(d), 2.0f64.sqrt());
}

#[test]
fn scenario_empty_directory_message() {
    let users: Vec<User> = vec![];
    let outcome = resolve_closest("52.374", "4.8897", &users).unwrap();
    assert!(outcome.is_none());
    assert_eq!(render_not_found(), "No dispenser was found!");
}

#[test]
fn scenario_bad_latitude_is_deserialization_error() {
    let users = vec![user(1, "Depot A", 0.0, 0.0)];
    let err = resolve_closest("abc", "4.8897", &users).unwrap_err();
    match err {
        Error::Deserialization { message } => {
            assert!(message.starts_with("latitude is an invalid number: "));
        }
        Error::Config { .. } => panic!("wrong error variant"),
    }
}

#[test]
fn bad_longitude_is_deserialization_error() {
    let err = parse_target("52.374", "north").unwrap_err();
    match err {
        Error::Deserialization { message } => {
            assert!(message.starts_with("longitude is an invalid number: "));
        }
        Error::Config { .. } => panic!("wrong error variant"),
    }
}

#[test]
fn parse_target_matches_hardware_parse() {
    let g = parse_target("-37.3159", "81.1496").unwrap();
    assert_eq!(g.latitude, (-37.3159f64).to_bits());
    assert_eq!(g.longitude, 81.1496f64.to_bits());
    let h = parse_target("1e3", "-2.5E-2").unwrap();
    assert_eq!(h.latitude, 1e3f64.to_bits());
    assert_eq!(h.longitude, (-2.5e-2f64).to_bits());
}

#[test]
fn scenario_invalid_endpoint_is_config_error() {
    let err = build_directory_url("not a url").unwrap_err();
    match err {
        Error::Config { message } => {
            assert!(message.starts_with("Invalid URL in configuration: "));
        }
        Error::Deserialization { .. } => panic!("wrong error variant"),
    }
}

#[test]
fn valid_endpoint_resolves_users_path() {
    let url = build_directory_url("https://example.org/api/").unwrap();
    assert_eq!(url, "https://example.org/users");
}

#[test]
fn render_found_exact_shape() {
    let u = user(1, "Depot A", 0.0, 0.0);
    let text = render_found("52.374", "4.8897", "1.5", &u);
    assert_eq!(
        text,
        "The closest dispenser to you (52.374, 4.8897) is\nDepot A (1.5)\n\tKulas Light Apt. 556\n\tGwenborough 92998-3874"
    );
}

#[test]
fn status_echoes_build_metadata() {
    let s = check_status("deadbeef", "2024-01-01T00:00:00Z");
    assert!(s.success);
    assert_eq!(s.version, "deadbeef");
    assert_eq!(s.built_at, "2024-01-01T00:00:00Z");
}
