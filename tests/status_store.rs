use plant_manager::status::{DayEntry, PlantStatus, StatusField, StatusStore, ValidationError};

fn status(watered: bool, fertilized: bool, harvested: bool) -> PlantStatus {
    PlantStatus { watered, fertilized, harvested }
}

#[test]
fn new_date_update_creates_defaulted_record() {
    let mut store = StatusStore::new();
    assert_eq!(store.apply_named_update("2025-07-15", "fertilized", true), Ok(()));
    assert_eq!(store.entries().len(), 1);
    assert_eq!(store.entries()[0].date, "2025-07-15");
    assert_eq!(store.get("2025-07-15"), Some(status(false, true, false)));
}

#[test]
fn unknown_field_is_rejected_and_store_unchanged() {
    let mut store = StatusStore::new();
    assert_eq!(
        store.apply_named_update("2025-07-15", "pruned", true),
        Err(ValidationError::UnknownField)
    );
    assert!(store.entries().is_empty());
    assert_eq!(store.get("2025-07-15"), None);

    store.apply_update("2025-07-15", StatusField::Watered, true);
    assert_eq!(
        store.apply_named_update("2025-07-15", "pruned", false),
        Err(ValidationError::UnknownField)
    );
    assert_eq!(store.entries().len(), 1);
    assert_eq!(store.get("2025-07-15"), Some(status(true, false, false)));
}

#[test]
fn empty_date_is_rejected() {
    let mut store = StatusStore::new();
    assert_eq!(store.apply_named_update("", "watered", true), Err(ValidationError::EmptyDate));
    assert!(store.entries().is_empty());
    // The field name is checked before the date.
    assert_eq!(store.apply_named_update("", "pruned", true), Err(ValidationError::UnknownField));
}

#[test]
fn update_changes_only_its_cell() {
    let mut store = StatusStore::new();
    store.apply_update("2025-07-14", StatusField::Harvested, true);
    store.apply_update("2025-07-15", StatusField::Watered, true);
    store.apply_update("2025-07-15", StatusField::Fertilized, true);
    assert_eq!(store.get("2025-07-15"), Some(status(true, true, false)));
    assert_eq!(store.get("2025-07-14"), Some(status(false, false, true)));

    store.apply_update("2025-07-15", StatusField::Watered, false);
    assert_eq!(store.get("2025-07-15"), Some(status(false, true, false)));
    assert_eq!(store.get("2025-07-14"), Some(status(false, false, true)));
    assert_eq!(store.get("2025-07-16"), None);
    assert_eq!(store.entries().len(), 2);
}

#[test]
fn update_is_idempotent() {
    let mut once = StatusStore::new();
    once.apply_update("2025-07-14", StatusField::Watered, true);
    let mut twice = StatusStore::new();
    twice.apply_update("2025-07-14", StatusField::Watered, true);

    once.apply_update("2025-07-15", StatusField::Harvested, true);
    twice.apply_update("2025-07-15", StatusField::Harvested, true);
    twice.apply_update("2025-07-15", StatusField::Harvested, true);

    assert_eq!(once.entries().len(), twice.entries().len());
    for day in ["2025-07-14", "2025-07-15", "2025-07-16"] {
        assert_eq!(once.get(day), twice.get(day));
    }
    assert_eq!(twice.get("2025-07-15"), Some(status(false, false, true)));
}

#[test]
fn status_on_reads_missing_date_as_unset() {
    let mut store = StatusStore::new();
    assert_eq!(store.status_on("2025-07-15"), status(false, false, false));
    store.apply_update("2025-07-15", StatusField::Fertilized, true);
    assert_eq!(store.status_on("2025-07-15"), status(false, true, false));
    assert_eq!(store.status_on("2025-07-16"), status(false, false, false));
}

#[test]
fn field_names_are_read_exactly() {
    assert_eq!(StatusField::from_name("watered"), Ok(StatusField::Watered));
    assert_eq!(StatusField::from_name("fertilized"), Ok(StatusField::Fertilized));
    assert_eq!(StatusField::from_name("harvested"), Ok(StatusField::Harvested));
    assert_eq!(StatusField::from_name("Watered"), Err(ValidationError::UnknownField));
    assert_eq!(StatusField::from_name(""), Err(ValidationError::UnknownField));
}

#[test]
fn from_entries_keeps_last_record_of_a_date() {
    let store = StatusStore::from_entries(vec![
        DayEntry { date: "2025-07-15".to_string(), status: status(true, false, false) },
        DayEntry { date: "2025-07-16".to_string(), status: status(false, false, true) },
        DayEntry { date: "2025-07-15".to_string(), status: status(false, true, false) },
    ]);
    assert_eq!(store.entries().len(), 2);
    assert_eq!(store.get("2025-07-15"), Some(status(false, true, false)));
    assert_eq!(store.get("2025-07-16"), Some(status(false, false, true)));
}

#[test]
fn stored_records_count_only_true() {
    assert_eq!(PlantStatus::from_stored(Some(true), None, Some(false)), status(true, false, false));
    assert_eq!(PlantStatus::from_stored(None, Some(true), Some(true)), status(false, true, true));
    assert_eq!(PlantStatus::default(), status(false, false, false));
}

#[test]
fn field_get_and_set() {
    let mut s = PlantStatus::default();
    s.set(StatusField::Harvested, true);
    assert!(s.get(StatusField::Harvested));
    assert!(!s.get(StatusField::Watered));
    assert!(!s.get(StatusField::Fertilized));
}
