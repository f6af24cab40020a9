use recordiary::date::{CivilDate, CivilDateTime};
use recordiary::emotion::Emotion;
use recordiary::enrich::{
    apply_transcription, sentiment_prompt, summarize_diary, summarize_prompt,
};
use recordiary::errors::{EnrichError, ProviderError};
use recordiary::record::DiaryParams;
use recordiary::store::{get_diary, insert_diary, RecordStore, StoreError};

fn seeded_store(owner: u128) -> (RecordStore, i64) {
    let mut store = RecordStore::new();
    let now = CivilDateTime::new(CivilDate::new(2024, 4, 5).unwrap(), 0).unwrap();
    let mut tx = store.begin();
    let id = insert_diary(
        &mut tx,
        DiaryParams::new(owner, Some("https://x/a".to_string()), None, false),
        now,
    );
    tx.commit(&mut store);
    (store, id)
}

fn fail(msg: &str) -> ProviderError {
    ProviderError::new(msg.to_string())
}

#[test]
fn transcription_survives_failed_summarize_stage() {
    let (mut store, id) = seeded_store(11);
    apply_transcription(&mut store, id, Ok("T".to_string())).unwrap();
    summarize_diary(&mut store, id, Err(fail("summarize down")), Err(fail("classify down")))
        .unwrap();
    let d = get_diary(&store, 11, id).unwrap();
    assert_eq!(d.transcription.as_deref(), Some("T"));
    assert!(d.summary.is_none());
    assert!(d.emotion.is_none());
}

#[test]
fn classify_failure_does_not_block_summary() {
    let (mut store, id) = seeded_store(11);
    apply_transcription(&mut store, id, Ok("T".to_string())).unwrap();
    summarize_diary(&mut store, id, Ok("S".to_string()), Err(fail("classify down"))).unwrap();
    let d = get_diary(&store, 11, id).unwrap();
    assert_eq!(d.summary.as_deref(), Some("S"));
    assert!(d.emotion.is_none());
}

#[test]
fn summary_failure_does_not_block_emotion() {
    let (mut store, id) = seeded_store(11);
    apply_transcription(&mut store, id, Ok("T".to_string())).unwrap();
    summarize_diary(&mut store, id, Err(fail("summarize down")), Ok(Emotion::Anger)).unwrap();
    let d = get_diary(&store, 11, id).unwrap();
    assert!(d.summary.is_none());
    assert_eq!(d.emotion, Some(Emotion::Anger));
    assert_eq!(d.transcription.as_deref(), Some("T"));
}

#[test]
fn failed_transcribe_writes_nothing() {
    let (mut store, id) = seeded_store(11);
    let r = apply_transcription(&mut store, id, Err(fail("whisper down")));
    match r {
        Err(EnrichError::Provider(e)) => assert_eq!(e.message, "whisper down"),
        _ => panic!("a failed transcribe call must surface the provider error"),
    }
    let d = get_diary(&store, 11, id).unwrap();
    assert!(d.transcription.is_none());
}

#[test]
fn enrichment_of_missing_record_is_not_found() {
    let mut store = RecordStore::new();
    let r = apply_transcription(&mut store, 1, Ok("T".to_string()));
    assert!(matches!(r, Err(EnrichError::Store(StoreError::NotFound))));
}

#[test]
fn prompts_carry_the_transcription_verbatim() {
    assert_eq!(
        summarize_prompt("great day"),
        "Summarize the following text in korean: great day"
    );
    let p = sentiment_prompt("great day");
    assert!(p.starts_with("Analyze the sentiment of the following korean text."));
    assert!(p.ends_with("Target text: great day"));
    assert!(p.contains("anger, sadness, happiness, neutral"));
}
