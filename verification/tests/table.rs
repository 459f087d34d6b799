use counter_service::DbError;
use counter_service::NewCounter;
use counter_service::actions::CounterTable;

#[test]
fn add_then_lookup_returns_added_value() {
    let mut t = CounterTable::new();
    let inserted = t.add(NewCounter { name: b"score".to_vec(), counter: 5 });
    assert_eq!(inserted.id, 1);
    assert_eq!(inserted.name, b"score".to_vec());
    assert_eq!(inserted.value, 5);
    let found = t.get_counter_by_name(&b"score".to_vec()).unwrap();
    assert_eq!(found.value, 5);
    assert_eq!(found.id, 1);
}

#[test]
fn add_is_insert_only_and_lookup_takes_first_match() {
    let mut t = CounterTable::new();
    t.add(NewCounter { name: b"score".to_vec(), counter: 5 });
    t.add(NewCounter { name: b"score".to_vec(), counter: 9 });
    assert_eq!(t.get_all_counters().len(), 2);
    let found = t.get_counter_by_name(&b"score".to_vec()).unwrap();
    assert_eq!(found.value, 5);
    assert_eq!(found.id, 1);
}

#[test]
fn ids_are_assigned_in_order() {
    let mut t = CounterTable::new();
    let a = t.add(NewCounter { name: b"a".to_vec(), counter: 0 });
    let b = t.add(NewCounter { name: b"b".to_vec(), counter: 0 });
    assert_eq!(a.id, 1);
    assert_eq!(b.id, 2);
}

#[test]
fn subtract_decreases_first_match_by_amount() {
    let mut t = CounterTable::new();
    t.add(NewCounter { name: b"score".to_vec(), counter: 5 });
    let updated = t.subtract(NewCounter { name: b"score".to_vec(), counter: 2 }).unwrap();
    assert_eq!(updated.value, 3);
    let found = t.get_counter_by_name(&b"score".to_vec()).unwrap();
    assert_eq!(found.value, 3);
}

#[test]
fn subtract_unknown_name_is_not_found() {
    let mut t = CounterTable::new();
    t.add(NewCounter { name: b"a".to_vec(), counter: 1 });
    let r = t.subtract(NewCounter { name: b"missing".to_vec(), counter: 1 });
    assert_eq!(r.map(|c| c.value), Err(DbError::NotFound));
    assert_eq!(t.get_counter_by_name(&b"a".to_vec()).unwrap().value, 1);
}

#[test]
fn subtract_may_go_negative() {
    let mut t = CounterTable::new();
    t.add(NewCounter { name: b"debt".to_vec(), counter: 1 });
    let updated = t.subtract(NewCounter { name: b"debt".to_vec(), counter: 3 }).unwrap();
    assert_eq!(updated.value, -2);
}

#[test]
fn subtract_that_overflows_is_a_database_error() {
    let mut t = CounterTable::new();
    t.add(NewCounter { name: b"deep".to_vec(), counter: i64::MIN });
    let r = t.subtract(NewCounter { name: b"deep".to_vec(), counter: 1 });
    match r {
        Err(DbError::DatabaseError) => {}
        other => panic!("expected a database error, got {:?}", other.map(|c| c.value)),
    }
    assert_eq!(t.get_counter_by_name(&b"deep".to_vec()).unwrap().value, i64::MIN);
}

#[test]
fn get_all_counters_grows_only_on_add() {
    let mut t = CounterTable::new();
    assert_eq!(t.get_all_counters().len(), 0);
    t.add(NewCounter { name: b"a".to_vec(), counter: 1 });
    assert_eq!(t.get_all_counters().len(), 1);
    t.add(NewCounter { name: b"b".to_vec(), counter: 2 });
    assert_eq!(t.get_all_counters().len(), 2);
    let _ = t.subtract(NewCounter { name: b"a".to_vec(), counter: 1 });
    assert_eq!(t.get_all_counters().len(), 2);
    let _ = t.get_counter_by_name(&b"a".to_vec());
    assert_eq!(t.get_all_counters().len(), 2);
}

#[test]
fn subtract_touches_only_the_first_match() {
    let mut t = CounterTable::new();
    t.add(NewCounter { name: b"score".to_vec(), counter: 5 });
    t.add(NewCounter { name: b"score".to_vec(), counter: 9 });
    let updated = t.subtract(NewCounter { name: b"score".to_vec(), counter: 2 }).unwrap();
    assert_eq!(updated.id, 1);
    assert_eq!(updated.value, 3);
    let all = t.get_all_counters();
    assert_eq!(all[0].value, 3);
    assert_eq!(all[1].value, 9);
}

#[test]
fn lookup_unknown_name_is_not_found() {
    let t = CounterTable::new();
    let r = t.get_counter_by_name(&b"missing".to_vec());
    match r {
        Err(DbError::NotFound) => {}
        other => panic!("expected NotFound, got {:?}", other.map(|c| c.value)),
    }
}
