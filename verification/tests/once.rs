use reqwest_hickory_resolver::once::SetOnce;

#[test]
fn first_time_callers_observe_exactly_one_instance() {
    // A counting stub for construction: every caller that finds the slot
    // empty builds a fresh instance; the slot must publish exactly one.
    let mut cell: SetOnce<u64> = SetOnce::new();
    let mut constructions: u64 = 0;
    let mut observed: Vec<u64> = Vec::new();
    for _caller in 0..5 {
        if cell.needs_construction() {
            constructions += 1;
            cell.apply(Some(constructions));
        }
        observed.push(cell.get().unwrap());
    }
    assert_eq!(constructions, 1);
    assert!(observed.iter().all(|v| *v == 1));
}

#[test]
fn failures_leave_the_slot_empty_for_retry() {
    let mut cell: SetOnce<u64> = SetOnce::new();
    for _attempt in 0..3 {
        assert!(cell.needs_construction());
        cell.apply(None);
        assert_eq!(*cell.get(), None);
    }
    assert!(cell.needs_construction());
    cell.apply(Some(7));
    assert_eq!(*cell.get(), Some(7));
    // A later caller finds the slot filled, does no construction work, and a
    // redundant outcome would be discarded.
    assert!(!cell.needs_construction());
    cell.apply(Some(9));
    assert_eq!(*cell.get(), Some(7));
}
