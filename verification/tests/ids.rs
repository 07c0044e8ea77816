use niri_workspace::{IdCounter, WorkspaceId};

#[test]
fn specific_id_is_given_back() {
    assert_eq!(WorkspaceId::specific(42).get(), 42);
    assert_eq!(WorkspaceId::specific(42), WorkspaceId::specific(42));
    assert_ne!(WorkspaceId::specific(42), WorkspaceId::specific(43));
}

#[test]
fn id_survives_the_way_through_its_number() {
    let mut ids = IdCounter::starting_at(u64::MAX);
    for _ in 0..3 {
        let id = WorkspaceId::next(&mut ids);
        assert_eq!(WorkspaceId::specific(id.get()), id);
    }
    assert_eq!(WorkspaceId::specific(0).get(), 0);
    assert_eq!(WorkspaceId::specific(u64::MAX).get(), u64::MAX);
    assert_eq!(ids.next(), 2);
}

#[test]
fn counter_counts_up() {
    let mut ids = IdCounter::starting_at(7);
    assert_eq!(WorkspaceId::next(&mut ids).get(), 7);
    assert_eq!(WorkspaceId::next(&mut ids).get(), 8);
    assert_eq!(ids.next(), 9);
}

#[test]
fn counter_starts_over_after_the_largest_id() {
    let mut ids = IdCounter::starting_at(u64::MAX);
    assert_eq!(ids.next(), u64::MAX);
    assert_eq!(ids.next(), 0);
    assert_eq!(ids.next(), 1);
}

#[test]
fn ids_of_one_counter_are_distinct() {
    let mut ids = IdCounter::starting_at(u64::MAX - 2);
    let issued: Vec<u64> = (0..6).map(|_| WorkspaceId::next(&mut ids).get()).collect();
    for i in 0..issued.len() {
        for j in 0..i {
            assert_ne!(issued[i], issued[j]);
        }
    }
}
