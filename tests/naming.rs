use pg_harness::naming::{db_name_from_indices, random_db_name, NAME_LETTERS};
use std::collections::HashSet;

fn assert_db_name(name: &str) {
    assert_eq!(name.len(), 5 + NAME_LETTERS);
    assert!(name.starts_with("test_"));
    assert!(name[5..].chars().all(|c| c.is_ascii_lowercase()));
}

#[test]
fn name_from_indices_maps_letters() {
    let name = db_name_from_indices(&vec![0, 1, 2, 3, 4, 5, 6, 25]);
    assert_eq!(name, "test_abcdefgz");
}

#[test]
fn name_from_no_indices_is_prefix() {
    assert_eq!(db_name_from_indices(&vec![]), "test_");
}

#[test]
fn name_from_repeated_indices() {
    assert_eq!(db_name_from_indices(&vec![24, 24, 24]), "test_yyy");
}

#[test]
fn distinct_indices_give_distinct_names() {
    let a = db_name_from_indices(&vec![0, 0, 0, 0, 0, 0, 0, 0]);
    let b = db_name_from_indices(&vec![0, 0, 0, 0, 0, 0, 0, 1]);
    assert_ne!(a, b);
}

#[test]
fn random_name_is_well_formed() {
    for _ in 0..100 {
        assert_db_name(&random_db_name());
    }
}

#[test]
fn random_names_do_not_collide_in_a_large_batch() {
    let mut seen = HashSet::new();
    for _ in 0..2000 {
        let name = random_db_name();
        assert_db_name(&name);
        assert!(seen.insert(name), "two tests drew the same database name");
    }
}
