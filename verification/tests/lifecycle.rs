use uwinsearch::lifecycle::{Lifecycle, Phase, Plan};

#[test]
fn a_new_lifecycle_has_no_index() {
    let life: Lifecycle<u32> = Lifecycle::new();
    assert_eq!(life.phase(), Phase::Absent);
    assert!(life.active().is_none());
}

#[test]
fn opening_loads_what_is_stored_and_builds_what_is_not() {
    let mut life: Lifecycle<u32> = Lifecycle::new();
    assert_eq!(life.open(true), Some(Plan::Load));
    assert_eq!(life.phase(), Phase::Building);
    assert_eq!(life.open(true), None);
    let mut other: Lifecycle<u32> = Lifecycle::new();
    assert_eq!(other.open(false), Some(Plan::Build));
    assert!(other.active().is_none());
}

#[test]
fn a_finished_build_makes_the_index_active() {
    let mut life: Lifecycle<u32> = Lifecycle::new();
    life.open(false);
    assert!(life.finish(Some(7)));
    assert_eq!(life.phase(), Phase::Ready);
    assert_eq!(life.active(), Some(&7));
}

#[test]
fn a_failed_build_leaves_no_index() {
    let mut life: Lifecycle<u32> = Lifecycle::new();
    life.open(false);
    assert!(!life.finish(None));
    assert_eq!(life.phase(), Phase::Absent);
    assert!(life.active().is_none());
}

#[test]
fn a_second_rebuild_in_quick_succession_is_refused() {
    let mut life: Lifecycle<u32> = Lifecycle::new();
    life.open(true);
    life.finish(Some(1));
    assert!(life.begin_rebuild());
    assert_eq!(life.phase(), Phase::Rebuilding);
    assert!(life.active().is_none());
    assert!(!life.begin_rebuild());
    assert_eq!(life.phase(), Phase::Rebuilding);
    life.cleared();
    assert_eq!(life.phase(), Phase::Building);
    assert!(!life.begin_rebuild());
    assert_eq!(life.phase(), Phase::Building);
    assert!(life.finish(Some(2)));
    assert_eq!(life.active(), Some(&2));
    assert!(life.begin_rebuild());
}

#[test]
fn a_failed_rebuild_can_be_tried_again() {
    let mut life: Lifecycle<u32> = Lifecycle::new();
    life.open(true);
    life.finish(Some(1));
    assert!(life.begin_rebuild());
    life.cleared();
    assert!(!life.finish(None));
    assert_eq!(life.phase(), Phase::Absent);
    assert!(life.active().is_none());
    assert!(life.begin_rebuild());
    assert_eq!(life.phase(), Phase::Building);
    assert!(life.finish(Some(3)));
    assert_eq!(life.active(), Some(&3));
}

#[test]
fn nothing_ends_where_nothing_is_under_way() {
    let mut life: Lifecycle<u32> = Lifecycle::new();
    assert!(!life.finish(Some(1)));
    assert_eq!(life.phase(), Phase::Absent);
    life.open(true);
    life.finish(Some(1));
    assert!(!life.finish(Some(2)));
    assert_eq!(life.active(), Some(&1));
    life.cleared();
    assert_eq!(life.phase(), Phase::Ready);
    life.begin_rebuild();
    assert!(!life.finish(Some(4)));
    assert_eq!(life.phase(), Phase::Rebuilding);
}

#[test]
fn a_failed_build_leaves_no_storage_so_that_the_next_opening_builds_again() {
    let mut life: Lifecycle<u32> = Lifecycle::new();
    assert!(!life.stored());
    assert_eq!(life.open(false), Some(Plan::Build));
    assert!(!life.finish(None));
    assert!(!life.stored());
    assert_eq!(life.phase(), Phase::Absent);
    assert_eq!(life.open(life.stored()), Some(Plan::Build));
    assert!(life.finish(Some(1)));
    assert!(life.stored());
}

#[test]
fn a_failed_load_keeps_the_storage() {
    let mut life: Lifecycle<u32> = Lifecycle::new();
    assert_eq!(life.open(true), Some(Plan::Load));
    assert!(life.stored());
    assert!(!life.finish(None));
    assert!(life.stored());
    assert_eq!(life.open(life.stored()), Some(Plan::Load));
}

#[test]
fn a_rebuild_discards_the_storage_before_it_builds() {
    let mut life: Lifecycle<u32> = Lifecycle::new();
    life.open(true);
    life.finish(Some(1));
    assert!(life.stored());
    assert!(life.begin_rebuild());
    assert!(life.stored());
    life.cleared();
    assert!(!life.stored());
    assert!(!life.finish(None));
    assert!(!life.stored());
    assert!(life.begin_rebuild());
    life.cleared();
    assert!(life.finish(Some(2)));
    assert!(life.stored());
    life.cleared();
    assert!(life.stored());
}

#[test]
fn a_rebuild_without_an_index_starts_without_storage() {
    let mut life: Lifecycle<u32> = Lifecycle::new();
    life.open(true);
    life.finish(None);
    assert!(life.stored());
    assert!(life.begin_rebuild());
    assert!(!life.stored());
    assert!(!life.finish(None));
    assert!(!life.stored());
}
