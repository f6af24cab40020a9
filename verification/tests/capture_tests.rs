use recordiary::capture::{begin_capture, create_diary, finish_capture};
use recordiary::date::{CivilDate, CivilDateTime};
use recordiary::errors::{CaptureError, StorageError};
use recordiary::multipart::MultipartMetadata;
use recordiary::store::{get_diary, RecordStore, StoreError};

fn noon(year: i32, month: u8, day: u8) -> CivilDateTime {
    CivilDateTime::new(CivilDate::new(year, month, day).unwrap(), 43200).unwrap()
}

fn attachment(bytes: &[u8]) -> Option<(Vec<u8>, MultipartMetadata)> {
    let meta = MultipartMetadata::from_fields(
        Some("file".to_string()),
        Some("voice.m4a".to_string()),
        Some("audio/mp4".to_string()),
    );
    Some((bytes.to_vec(), meta))
}

#[test]
fn capture_success_links_audio_and_leaves_enrichment_null() {
    let mut store = RecordStore::new();
    let owner: u128 = 0x1234_5678_9abc_def0_1122_3344_5566_7788;
    let audio = vec![1u8, 2, 3, 4];
    let handoff = create_diary(
        &mut store,
        owner,
        Some(false),
        attachment(&audio),
        noon(2024, 3, 9),
        Ok("https://example.org/storage/v1/object/sign/diary/x.m4a".to_string()),
    )
    .unwrap();
    assert_eq!(handoff.diary_id, 1);
    assert_eq!(handoff.audio_bytes, audio);

    let d = get_diary(&store, owner, handoff.diary_id).unwrap();
    assert!(d.audio_link.is_some());
    assert!(d.transcription.is_none());
    assert!(d.summary.is_none());
    assert!(d.emotion.is_none());
    assert!(!d.is_private);
    assert_eq!(d.user_id, owner);

    // Eventually the detached worker merges the provider's transcription of
    // the captured audio.
    let provider_text = "the provider's transcription of the audio".to_string();
    recordiary::enrich::apply_transcription(&mut store, handoff.diary_id, Ok(provider_text.clone()))
        .unwrap();
    let d = get_diary(&store, owner, handoff.diary_id).unwrap();
    assert_eq!(d.transcription, Some(provider_text));
    assert!(d.audio_link.is_some());
}

#[test]
fn capture_upload_failure_rolls_back_and_id_is_not_found() {
    let mut store = RecordStore::new();
    let owner: u128 = 42;
    let r = create_diary(
        &mut store,
        owner,
        None,
        attachment(&[9u8; 16]),
        noon(2024, 3, 9),
        Err(StorageError::new("storage down".to_string())),
    );
    match r {
        Err(CaptureError::Storage(e)) => assert_eq!(e.message, "storage down"),
        _ => panic!("capture must fail with the storage error"),
    }
    assert_eq!(store.diaries.len(), 0);
    // The id that would have been returned does not exist for readers.
    assert!(matches!(get_diary(&store, owner, 1), Err(StoreError::NotFound)));
}

#[test]
fn capture_every_upload_failing_never_leaves_a_record() {
    let mut store = RecordStore::new();
    let owner: u128 = 7;
    for i in 0..5u8 {
        let r = create_diary(
            &mut store,
            owner,
            Some(true),
            attachment(&[i]),
            noon(2024, 3, 9),
            Err(StorageError::new("quota".to_string())),
        );
        assert!(matches!(r, Err(CaptureError::Storage(_))));
        assert_eq!(store.diaries.len(), 0);
        assert!(matches!(get_diary(&store, owner, 1), Err(StoreError::NotFound)));
    }
}

#[test]
fn capture_without_attachment_is_an_input_error() {
    let mut store = RecordStore::new();
    let r = create_diary(
        &mut store,
        1,
        None,
        None,
        noon(2024, 3, 9),
        Ok("unused".to_string()),
    );
    match r {
        Err(e @ CaptureError::Input(_)) => assert_eq!(e.message(), "No file uploaded"),
        _ => panic!("a capture without attachment must be an input error"),
    }
    assert_eq!(store.diaries.len(), 0);
}

#[test]
fn two_phase_capture_matches_one_shot() {
    let mut store = RecordStore::new();
    let owner: u128 = 0xabcd;
    let pending = begin_capture(
        &store,
        owner,
        Some(true),
        attachment(b"abc"),
        noon(2025, 1, 2),
    )
    .unwrap();
    // Nothing visible before the scope commits.
    assert_eq!(store.diaries.len(), 0);
    let key = pending.audio_title.clone();
    let handoff = finish_capture(&mut store, pending, Ok("https://x/u".to_string())).unwrap();
    assert_eq!(handoff.diary_id, 1);
    assert_eq!(handoff.audio_title, key);
    assert_eq!(handoff.audio_bytes, b"abc".to_vec());
    let d = get_diary(&store, owner, 1).unwrap();
    assert_eq!(d.audio_link.as_deref(), Some("https://x/u"));
    assert!(d.is_private);
}

#[test]
fn ids_grow_by_one_per_committed_capture() {
    let mut store = RecordStore::new();
    let owner: u128 = 3;
    for expect in 1..=3i64 {
        let h = create_diary(
            &mut store,
            owner,
            None,
            attachment(&[0u8]),
            noon(2024, 6, 1),
            Ok(format!("https://x/{expect}")),
        )
        .unwrap();
        assert_eq!(h.diary_id, expect);
    }
    assert_eq!(store.diaries.len(), 3);
}
