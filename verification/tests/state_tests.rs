use simple_lib::state::StateStore;

fn sample_store() -> StateStore {
    let mut s = StateStore::new();
    s.push_element(100, true);
    s.push_element(200, false);
    s.push_element(300, true);
    s
}

#[test]
fn push_and_read_back() {
    let mut s = StateStore::new();
    assert_eq!(s.len(), 0);
    let a = s.push_element(7, true);
    let b = s.push_element(-4, false);
    assert_eq!(a, 0);
    assert_eq!(b, 1);
    assert_eq!(s.len(), 2);
    assert_eq!(s.get_value(0), 7);
    assert_eq!(s.get_value(1), -4);
    assert!(s.is_physical(0));
    assert!(!s.is_physical(1));
}

#[test]
fn set_value_keeps_tag_and_neighbors() {
    let mut s = sample_store();
    s.set_value(1, 999);
    assert_eq!(s.get_value(0), 100);
    assert_eq!(s.get_value(1), 999);
    assert_eq!(s.get_value(2), 300);
    assert!(!s.is_physical(1));
}

#[test]
fn clone_is_independent_of_original() {
    let original = sample_store();
    let mut branch = original.deep_clone();

    // The copy starts equal.
    assert_eq!(branch.len(), original.len());
    for i in 0..original.len() {
        assert_eq!(branch.get_value(i), original.get_value(i));
        assert_eq!(branch.is_physical(i), original.is_physical(i));
    }

    // Mutating the branch never shows in the original.
    branch.set_value(0, -1);
    branch.set_value(2, -3);
    assert_eq!(original.get_value(0), 100);
    assert_eq!(original.get_value(2), 300);
    assert_eq!(branch.get_value(0), -1);
    assert_eq!(branch.get_value(2), -3);
}

#[test]
fn original_mutation_never_shows_in_clone() {
    let mut original = sample_store();
    let branch = original.deep_clone();
    original.set_value(1, 555);
    assert_eq!(branch.get_value(1), 200);
    assert_eq!(original.get_value(1), 555);
}

#[test]
fn physical_reset_copies_only_physical_fields() {
    let mut target = sample_store();
    // Diverge every element of the target first.
    target.set_value(0, 1111);
    target.set_value(1, 2222);
    target.set_value(2, 3333);

    let source = sample_store();
    target.reset_physical_from(&source);

    // Physical elements took the source's values.
    assert_eq!(target.get_value(0), 100);
    assert_eq!(target.get_value(2), 300);
    // The bookkeeping element kept its pre-reset value.
    assert_eq!(target.get_value(1), 2222);
    // Tags never move.
    assert!(target.is_physical(0));
    assert!(!target.is_physical(1));
    assert!(target.is_physical(2));
}

#[test]
fn snapshot_matches_contents() {
    let s = sample_store();
    let snap = s.snapshot_elements();
    assert_eq!(snap.len(), 3);
    assert_eq!(snap[0].value, 100);
    assert!(snap[0].physical);
    assert_eq!(snap[1].value, 200);
    assert!(!snap[1].physical);
    assert_eq!(snap[2].value, 300);
}
