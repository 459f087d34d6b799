use counter_service::DbError;
use counter_service::errors::http_status_of;
use counter_service::service::Response;
use counter_service::service::Service;

fn handle(s: &mut Service, path: &str) -> Response {
    s.handle(&path.as_bytes().to_vec())
}

fn body_of(r: &Response) -> &[u8] {
    match r {
        Response::Text { body } => body,
        Response::NotFound { body } => body,
        Response::ServerError { body } => body,
        Response::Counters { .. } => panic!("a listing has no textual body"),
    }
}

#[test]
fn end_to_end_counter_flow() {
    let mut s = Service::new(1);
    assert_eq!(s.next_migration(), Some(0));
    s.migration_applied();
    s.begin_serving().unwrap();

    let r = handle(&mut s, "/add/score/5");
    assert_eq!(r.status_code(), 200);
    assert_eq!(
        body_of(&r),
        b"Added Counter { id: 1, name: \"score\", counter: 5 }" as &[u8]
    );

    let r = handle(&mut s, "/status/score");
    assert_eq!(r.status_code(), 200);
    assert_eq!(
        body_of(&r),
        b"Hello, Counter { id: 1, name: \"score\", counter: 5 }" as &[u8]
    );

    let r = handle(&mut s, "/subtract/score/2");
    assert_eq!(r.status_code(), 200);
    assert_eq!(
        body_of(&r),
        b"Subtracted: Counter { id: 1, name: \"score\", counter: 3 }" as &[u8]
    );

    let r = handle(&mut s, "/status/score");
    assert_eq!(r.status_code(), 200);
    assert_eq!(
        body_of(&r),
        b"Hello, Counter { id: 1, name: \"score\", counter: 3 }" as &[u8]
    );

    let r = handle(&mut s, "/");
    assert_eq!(r.status_code(), 200);
    match r {
        Response::Counters { counters } => {
            assert_eq!(counters.len(), 1);
            assert_eq!(counters[0].name, b"score".to_vec());
            assert_eq!(counters[0].value, 3);
        }
        _ => panic!("expected the listing"),
    }
}

#[test]
fn status_of_an_unknown_name_is_404_not_500() {
    let mut s = Service::new(0);
    s.begin_serving().unwrap();
    let r = handle(&mut s, "/status/missing");
    assert_eq!(r.status_code(), 404);
    assert_ne!(r.status_code(), 500);
    assert_eq!(body_of(&r), b"Hello, NotFound" as &[u8]);
}

#[test]
fn subtract_of_an_unknown_name_is_404() {
    let mut s = Service::new(0);
    s.begin_serving().unwrap();
    let r = handle(&mut s, "/subtract/missing/1");
    assert_eq!(r.status_code(), 404);
    assert_eq!(body_of(&r), b"Subtracted: NotFound" as &[u8]);
}

#[test]
fn unrouted_paths_are_404() {
    let mut s = Service::new(0);
    s.begin_serving().unwrap();
    let r = handle(&mut s, "/nothing/here");
    assert_eq!(r.status_code(), 404);
    assert_eq!(body_of(&r), b"no route" as &[u8]);
}

#[test]
fn the_listing_starts_empty() {
    let mut s = Service::new(0);
    s.begin_serving().unwrap();
    match handle(&mut s, "/") {
        Response::Counters { counters } => assert!(counters.is_empty()),
        _ => panic!("expected the listing"),
    }
}

#[test]
fn serving_waits_for_every_migration() {
    let mut s = Service::new(2);
    assert!(s.begin_serving().is_err());
    assert_eq!(s.next_migration(), Some(0));
    s.migration_applied();
    assert!(s.begin_serving().is_err());
    assert_eq!(s.next_migration(), Some(1));
    s.migration_applied();
    assert_eq!(s.next_migration(), None);
    s.begin_serving().unwrap();
}

#[test]
fn error_statuses_map_to_http_codes() {
    assert_eq!(http_status_of(DbError::NotFound), 404);
    assert_eq!(http_status_of(DbError::DatabaseError), 500);
}
