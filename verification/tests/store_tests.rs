use recordiary::calendar::get_calendar;
use recordiary::date::{CivilDate, CivilDateTime};
use recordiary::emotion::Emotion;
use recordiary::record::{DiaryParams, DiaryPatch};
use recordiary::store::{
    get_diaries, get_diaries_of_month, get_diary, insert_diary, update_diary, RecordStore,
    StoreError,
};

fn at(year: i32, month: u8, day: u8) -> CivilDateTime {
    CivilDateTime::new(CivilDate::new(year, month, day).unwrap(), 600).unwrap()
}

fn seed(store: &mut RecordStore, owner: u128, when: CivilDateTime) -> i64 {
    let mut tx = store.begin();
    let id = insert_diary(
        &mut tx,
        DiaryParams::new(owner, Some("https://x/a".to_string()), None, false),
        when,
    );
    tx.commit(store);
    id
}

fn patch() -> DiaryPatch {
    DiaryPatch::empty()
}

#[test]
fn partial_update_preserves_summary_when_only_emotion_is_set() {
    let mut store = RecordStore::new();
    let id = seed(&mut store, 5, at(2024, 2, 10));

    let mut tx = store.begin();
    let mut p = patch();
    p.summary = Some("S".to_string());
    update_diary(&mut tx, id, p).unwrap();
    tx.commit(&mut store);

    let mut tx = store.begin();
    let mut p = patch();
    p.emotion = Some(Emotion::Happiness);
    update_diary(&mut tx, id, p).unwrap();
    tx.commit(&mut store);

    let d = get_diary(&store, 5, id).unwrap();
    assert_eq!(d.summary.as_deref(), Some("S"));
    assert_eq!(d.emotion, Some(Emotion::Happiness));
}

#[test]
fn update_with_only_emotion_keeps_transcription_and_null_summary() {
    let mut store = RecordStore::new();
    let id = seed(&mut store, 9, at(2024, 2, 10));

    let mut tx = store.begin();
    let mut p = patch();
    p.transcription = Some("T".to_string());
    update_diary(&mut tx, id, p).unwrap();
    tx.commit(&mut store);

    let mut tx = store.begin();
    let mut p = patch();
    p.emotion = Some(Emotion::Sadness);
    update_diary(&mut tx, id, p).unwrap();
    tx.commit(&mut store);

    let d = get_diary(&store, 9, id).unwrap();
    assert_eq!(d.transcription.as_deref(), Some("T"));
    assert!(d.summary.is_none());
    assert_eq!(d.emotion, Some(Emotion::Sadness));
}

#[test]
fn empty_patch_is_a_fast_success_even_for_a_missing_id() {
    let mut store = RecordStore::new();
    let mut tx = store.begin();
    assert!(update_diary(&mut tx, 999, patch()).is_ok());
    tx.commit(&mut store);
    assert_eq!(store.diaries.len(), 0);
}

#[test]
fn update_of_missing_id_is_not_found() {
    let mut store = RecordStore::new();
    let mut tx = store.begin();
    let mut p = patch();
    p.summary = Some("S".to_string());
    assert!(matches!(update_diary(&mut tx, 3, p), Err(StoreError::NotFound)));
    tx.rollback();
}

#[test]
fn rollback_discards_writes() {
    let mut store = RecordStore::new();
    let id = seed(&mut store, 5, at(2024, 2, 10));
    let mut tx = store.begin();
    let mut p = patch();
    p.summary = Some("draft".to_string());
    update_diary(&mut tx, id, p).unwrap();
    tx.rollback();
    let d = get_diary(&store, 5, id).unwrap();
    assert!(d.summary.is_none());
}

#[test]
fn get_diary_of_another_owner_is_not_found() {
    let mut store = RecordStore::new();
    let id = seed(&mut store, 5, at(2024, 2, 10));
    assert!(matches!(get_diary(&store, 6, id), Err(StoreError::NotFound)));
}

#[test]
fn get_diaries_filters_by_owner_and_ids() {
    let mut store = RecordStore::new();
    let a = seed(&mut store, 5, at(2024, 2, 10));
    let b = seed(&mut store, 5, at(2024, 2, 11));
    let c = seed(&mut store, 8, at(2024, 2, 12));
    let got = get_diaries(&store, 5, vec![a, c, 77]);
    assert_eq!(got.len(), 1);
    assert_eq!(got[0].id, a);
    let got = get_diaries(&store, 5, vec![a, b]);
    assert_eq!(got.len(), 2);
    assert_eq!((got[0].id, got[1].id), (a, b));
}

#[test]
fn get_diaries_of_month_filters_by_creation_month_and_owner() {
    let mut store = RecordStore::new();
    let feb = seed(&mut store, 5, at(2024, 2, 10));
    let _mar = seed(&mut store, 5, at(2024, 3, 1));
    let _other = seed(&mut store, 6, at(2024, 2, 20));
    let got = get_diaries_of_month(&store, 2024, 2, 5);
    assert_eq!(got.len(), 1);
    assert_eq!(got[0].id, feb);
}

#[test]
fn calendar_pairs_each_record_with_its_creation_instant() {
    let mut store = RecordStore::new();
    let when = at(2024, 7, 4);
    let id = seed(&mut store, 5, when);
    let entries = get_calendar(&store, 5, 2024, 7);
    assert_eq!(entries.len(), 1);
    assert_eq!(entries[0].diary.id, id);
    assert_eq!(entries[0].created_at, when);
    assert_eq!(entries[0].created_at, entries[0].diary.created_at);
}
