use counter_service::Counter;
use counter_service::DbError;
use counter_service::render::render_counter;
use counter_service::render::render_error;

#[test]
fn a_row_renders_with_id_name_and_value() {
    let c = Counter { id: 7, name: b"score".to_vec(), value: 42 };
    assert_eq!(
        render_counter(&c),
        b"Counter { id: 7, name: \"score\", counter: 42 }".to_vec()
    );
}

#[test]
fn zero_and_negative_values_render_exactly() {
    let c = Counter { id: 10, name: b"x".to_vec(), value: 0 };
    assert_eq!(render_counter(&c), b"Counter { id: 10, name: \"x\", counter: 0 }".to_vec());
    let c = Counter { id: 10, name: b"x".to_vec(), value: -2 };
    assert_eq!(render_counter(&c), b"Counter { id: 10, name: \"x\", counter: -2 }".to_vec());
}

#[test]
fn extreme_values_render_exactly() {
    let c = Counter { id: u64::MAX, name: b"m".to_vec(), value: i64::MIN };
    assert_eq!(
        render_counter(&c),
        b"Counter { id: 18446744073709551615, name: \"m\", counter: -9223372036854775808 }"
            .to_vec()
    );
    let c = Counter { id: 1, name: b"m".to_vec(), value: i64::MAX };
    assert_eq!(
        render_counter(&c),
        b"Counter { id: 1, name: \"m\", counter: 9223372036854775807 }".to_vec()
    );
}

#[test]
fn errors_render_as_their_names() {
    assert_eq!(render_error(DbError::NotFound), b"NotFound".to_vec());
    assert_eq!(render_error(DbError::DatabaseError), b"DatabaseError".to_vec());
}
