use smcont::schema::{
    catalog, migration_record, plan_migrations, CREATE_TRANSACTIONS, INITIAL_SETUP,
};

#[test]
fn catalog_holds_initial_setup() {
    let c = catalog();
    assert_eq!(c.len(), 1);
    assert_eq!(c[0].name, "initial_setup");
    assert_eq!(c[0].name, INITIAL_SETUP);
    assert_eq!(c[0].statements.len(), 5);
    assert_eq!(c[0].statements[3], CREATE_TRANSACTIONS);
}

#[test]
fn plan_lists_unrecorded_migrations() {
    assert_eq!(plan_migrations(&vec![0]), vec![0]);
    assert_eq!(plan_migrations(&vec![1]), Vec::<usize>::new());
    assert_eq!(plan_migrations(&vec![0, 1, 0, 2]), vec![0, 2]);
    assert_eq!(plan_migrations(&vec![]), Vec::<usize>::new());
}

#[test]
fn second_run_applies_nothing() {
    let mut counts: Vec<u64> = vec![0, 1, 0];
    let first = plan_migrations(&counts);
    assert_eq!(first, vec![0, 2]);
    for i in first {
        counts[i] += 1;
    }
    assert_eq!(counts, vec![1, 1, 1]);
    assert!(plan_migrations(&counts).is_empty());
}

#[test]
fn record_carries_name_and_given_time() {
    let c = catalog();
    let r = migration_record(&c[0], "2024-05-01T10:00:00+00:00".to_string());
    assert_eq!(r.name, "initial_setup");
    assert_eq!(r.date, "2024-05-01T10:00:00+00:00");
}
