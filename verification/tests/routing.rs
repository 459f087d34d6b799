use counter_service::routes::Request;
use counter_service::routes::parse_path;
use counter_service::routes::parse_u32;

fn parse(path: &str) -> Option<Request> {
    parse_path(&path.as_bytes().to_vec())
}

#[test]
fn root_routes_to_the_listing() {
    match parse("/") {
        Some(Request::All) => {}
        _ => panic!("expected the listing route"),
    }
}

#[test]
fn add_route_extracts_name_and_number() {
    match parse("/add/score/5") {
        Some(Request::Add { name, number }) => {
            assert_eq!(name, b"score".to_vec());
            assert_eq!(number, 5);
        }
        _ => panic!("expected the add route"),
    }
}

#[test]
fn subtract_route_extracts_name_and_number() {
    match parse("/subtract/score/2") {
        Some(Request::Subtract { name, number }) => {
            assert_eq!(name, b"score".to_vec());
            assert_eq!(number, 2);
        }
        _ => panic!("expected the subtract route"),
    }
}

#[test]
fn status_route_extracts_name() {
    match parse("/status/score") {
        Some(Request::Status { name }) => {
            assert_eq!(name, b"score".to_vec());
        }
        _ => panic!("expected the status route"),
    }
}

#[test]
fn number_parameter_accepts_leading_zeros() {
    match parse("/add/x/007") {
        Some(Request::Add { number, .. }) => assert_eq!(number, 7),
        _ => panic!("expected the add route"),
    }
}

#[test]
fn number_parameter_takes_the_largest_value_that_fits() {
    match parse("/add/x/4294967295") {
        Some(Request::Add { number, .. }) => assert_eq!(number, u32::MAX),
        _ => panic!("expected the add route"),
    }
}

#[test]
fn paths_with_no_route_are_refused() {
    assert!(parse("").is_none());
    assert!(parse("add/x/1").is_none());
    assert!(parse("/nope").is_none());
    assert!(parse("/add/x").is_none());
    assert!(parse("/add//5").is_none());
    assert!(parse("/add/x/").is_none());
    assert!(parse("/add/x/5x").is_none());
    assert!(parse("/add/x/-1").is_none());
    assert!(parse("/add/x/4294967296").is_none());
    assert!(parse("/status/").is_none());
    assert!(parse("/status/x/y").is_none());
    assert!(parse("/add/x/1/extra").is_none());
}

#[test]
fn number_segments_parse_exactly() {
    assert_eq!(parse_u32(&b"0".to_vec()), Some(0));
    assert_eq!(parse_u32(&b"42".to_vec()), Some(42));
    assert_eq!(parse_u32(&b"4294967295".to_vec()), Some(u32::MAX));
    assert_eq!(parse_u32(&b"4294967296".to_vec()), None);
    assert_eq!(parse_u32(&b"".to_vec()), None);
    assert_eq!(parse_u32(&b"12a".to_vec()), None);
    assert_eq!(parse_u32(&b" 1".to_vec()), None);
}
