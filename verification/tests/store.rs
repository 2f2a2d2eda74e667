use emias_repr::date::Date;
use emias_repr::store::{eligible_records, RecordStore, StoreError, UserRecord};

fn bare(id: i32, chat_id: i64) -> UserRecord {
    UserRecord { id, user_id: chat_id + 1000, chat_id, oms_card: None, date_birth: None }
}

#[test]
fn a_new_store_is_empty() {
    let store = RecordStore::new();
    assert_eq!(store.len(), 0);
    assert_eq!(store.find_by_chat_id(42), None);
    assert_eq!(store.list_eligible_for_polling(), vec![]);
}

#[test]
fn a_created_record_has_no_personal_data() {
    let mut store = RecordStore::new();
    let record = store.create_for_chat(42, 7).unwrap();
    assert_eq!(
        record,
        UserRecord { id: 1, user_id: 7, chat_id: 42, oms_card: None, date_birth: None }
    );
    assert!(!record.is_eligible());
    assert_eq!(store.len(), 1);
    assert_eq!(store.find_by_chat_id(42), Some(record));
    assert_eq!(store.find_by_chat_id(43), None);
}

#[test]
fn keys_are_given_in_order() {
    let mut store = RecordStore::new();
    assert_eq!(store.create_for_chat(10, 0).unwrap().id, 1);
    assert_eq!(store.create_for_chat(20, 0).unwrap().id, 2);
    assert_eq!(store.create_for_chat(30, 0).unwrap().id, 3);
    assert_eq!(store.len(), 3);
}

#[test]
fn a_lookup_finds_the_first_record_of_a_chat() {
    let mut store = RecordStore::new();
    store.create_for_chat(10, 1).unwrap();
    let first = store.create_for_chat(42, 2).unwrap();
    store.create_for_chat(42, 3).unwrap();
    assert_eq!(store.find_by_chat_id(42), Some(first));
}

#[test]
fn an_update_overwrites_one_field_of_one_record() {
    let mut store = RecordStore::new();
    let a = store.create_for_chat(10, 1).unwrap();
    let b = store.create_for_chat(20, 2).unwrap();
    let updated = store.update_insurance(&b, 1234567890123456).unwrap();
    assert_eq!(updated, UserRecord { oms_card: Some(1234567890123456), ..b });
    assert_eq!(store.find_by_chat_id(10), Some(a));
    assert_eq!(store.find_by_chat_id(20), Some(updated));
    let date = Date::new(1990, 1, 1).unwrap();
    let again = store.update_birth_date(&b, date).unwrap();
    assert_eq!(again, UserRecord { date_birth: Some(date), ..updated });
    let over = store.update_insurance(&again, 1).unwrap();
    assert_eq!(over, UserRecord { oms_card: Some(1), ..again });
    assert_eq!(store.len(), 2);
}

#[test]
fn an_update_goes_by_the_key_and_keeps_what_the_store_holds() {
    let mut store = RecordStore::new();
    let stored = store.create_for_chat(10, 1).unwrap();
    let stale = UserRecord { chat_id: 999, oms_card: Some(5), ..stored };
    let date = Date::new(2000, 2, 29).unwrap();
    let updated = store.update_birth_date(&stale, date).unwrap();
    assert_eq!(updated, UserRecord { date_birth: Some(date), ..stored });
}

#[test]
fn an_update_of_a_record_that_is_not_stored_changes_nothing() {
    let mut store = RecordStore::new();
    let a = store.create_for_chat(10, 1).unwrap();
    let missing = bare(77, 10);
    assert_eq!(store.update_insurance(&missing, 5), Err(StoreError::NotFound));
    assert_eq!(
        store.update_birth_date(&missing, Date::new(1990, 1, 1).unwrap()),
        Err(StoreError::NotFound)
    );
    assert_eq!(store.len(), 1);
    assert_eq!(store.find_by_chat_id(10), Some(a));
}

#[test]
fn polling_takes_the_records_with_both_fields() {
    let mut store = RecordStore::new();
    let a = store.create_for_chat(1, 0).unwrap();
    let b = store.create_for_chat(2, 0).unwrap();
    let c = store.create_for_chat(3, 0).unwrap();
    let d = store.create_for_chat(4, 0).unwrap();
    let date = Date::new(1990, 1, 1).unwrap();
    store.update_insurance(&a, 1111111111111111).unwrap();
    store.update_birth_date(&b, date).unwrap();
    store.update_insurance(&c, 3333333333333333).unwrap();
    let c = store.update_birth_date(&c, date).unwrap();
    store.update_birth_date(&d, date).unwrap();
    let d = store.update_insurance(&d, 4444444444444444).unwrap();
    assert_eq!(store.list_eligible_for_polling(), vec![c, d]);
}

#[test]
fn giving_the_missing_field_moves_a_record_over_the_boundary() {
    let mut store = RecordStore::new();
    let a = store.create_for_chat(1, 0).unwrap();
    assert!(store.list_eligible_for_polling().is_empty());
    let a = store.update_insurance(&a, 1111111111111111).unwrap();
    assert!(!a.is_eligible());
    assert!(store.list_eligible_for_polling().is_empty());
    let a = store.update_birth_date(&a, Date::new(1990, 1, 1).unwrap()).unwrap();
    assert!(a.is_eligible());
    assert_eq!(store.list_eligible_for_polling(), vec![a]);
}

#[test]
fn eligibility_needs_both_fields() {
    let date = Date::new(1990, 1, 1);
    assert!(!bare(1, 1).is_eligible());
    assert!(!UserRecord { oms_card: Some(1), ..bare(1, 1) }.is_eligible());
    assert!(!UserRecord { date_birth: date, ..bare(1, 1) }.is_eligible());
    assert!(UserRecord { oms_card: Some(1), date_birth: date, ..bare(1, 1) }.is_eligible());
}

#[test]
fn rows_are_filtered_in_their_order() {
    let date = Date::new(1990, 1, 1);
    let rows = vec![
        UserRecord { oms_card: Some(1), date_birth: date, ..bare(5, 50) },
        bare(2, 20),
        UserRecord { oms_card: Some(3), date_birth: date, ..bare(3, 30) },
        UserRecord { oms_card: Some(4), ..bare(4, 40) },
    ];
    assert_eq!(eligible_records(&rows), vec![rows[0], rows[2]]);
    assert_eq!(eligible_records(&vec![]), vec![]);
}

#[test]
fn a_store_is_made_of_records_whose_keys_rise() {
    let store = RecordStore::with_records(vec![bare(1, 10), bare(2, 20), bare(7, 70)]).unwrap();
    assert_eq!(store.len(), 3);
    assert_eq!(store.find_by_chat_id(70), Some(bare(7, 70)));
    let mut store = store;
    assert_eq!(store.create_for_chat(80, 0).unwrap().id, 8);
    let mut empty = RecordStore::with_records(vec![]).unwrap();
    assert_eq!(empty.create_for_chat(80, 0).unwrap().id, 1);
}

#[test]
fn records_out_of_order_make_no_store() {
    assert!(RecordStore::with_records(vec![bare(2, 20), bare(1, 10)]).is_none());
    assert!(RecordStore::with_records(vec![bare(1, 10), bare(1, 20)]).is_none());
    assert!(RecordStore::with_records(vec![bare(0, 10)]).is_none());
    assert!(RecordStore::with_records(vec![bare(-5, 10), bare(1, 20)]).is_none());
    assert!(RecordStore::with_records(vec![bare(1, 10), bare(3, 30), bare(2, 20)]).is_none());
    assert!(RecordStore::with_records(vec![bare(i32::MAX, 10)]).is_none());
}

#[test]
fn a_store_without_a_key_left_creates_nothing() {
    let mut store = RecordStore::with_records(vec![bare(i32::MAX - 1, 10)]).unwrap();
    assert_eq!(store.create_for_chat(20, 0), Err(StoreError::Exhausted));
    assert_eq!(store.len(), 1);
    assert_eq!(store.find_by_chat_id(20), None);
}
