//! The capture orchestrator: the synchronous path of a new diary entry.
//!
//! One capture runs `Received -> RecordCreated -> BlobUploaded -> Linked ->
//! Committed`, with rollback from any earlier state. The record is created
//! first so the blob key can embed its id; the upload is a side effect
//! against a second system of record, so when it fails the whole scope is
//! rolled back and no record remains visible. Only after the link-update
//! commits is the enrichment worker handed its arguments — a value copy, so
//! the worker can only ever observe a committed, linked record.

use vstd::prelude::*;
use crate::date::CivilDateTime;
use crate::errors::{CaptureError, InputError, StorageError};
use crate::multipart::MultipartMetadata;
use crate::record::{apply_patch, DiaryParams, DiaryPatch, DiaryView, PatchView};
use crate::store::{
    contains_id, insert_diary, spec_new_diary, store_update, update_diary, RecordStore, StoreError,
    Transaction,
};
use crate::text::{get_diary_filename, spec_diary_filename};

verus! {

/// The privacy flag as stored: the caller's choice, defaulting to public.
pub open spec fn spec_privacy_flag(is_private: Option<bool>) -> bool {
    match is_private {
        Some(b) => b,
        None => false,
    }
}

/// The patch that links a record to its uploaded blob, and nothing else.
pub open spec fn spec_audio_link_patch(url: Seq<char>) -> PatchView {
    PatchView {
        audio_link: Some(url),
        summary: None,
        transcription: None,
        emotion: None,
        is_private: None,
    }
}

/// A committed capture's record: linked to its blob, enrichment fields still
/// null, stamped with its creation instant.
pub open spec fn spec_captured_diary(
    id: i64,
    user_id: u128,
    is_private: bool,
    url: Seq<char>,
    now: CivilDateTime,
) -> DiaryView {
    DiaryView {
        id,
        created_at: now,
        local_date: now.date,
        user_id,
        audio_link: Some(url),
        summary: None,
        transcription: None,
        emotion: None,
        is_private,
    }
}

/// A capture that has created its record but not yet uploaded the blob: the
/// open transactional scope, the fresh id, the blob key derived from it, and
/// the audio still in memory.
pub struct PendingCapture {
    pub tx: Transaction,
    pub diary_id: i64,
    pub audio_title: String,
    pub audio_bytes: Vec<u8>,
}

/// What a committed capture hands to the detached enrichment worker: an
/// owned copy of the id, the blob key, and the raw audio — no reference back
/// into the request's scope.
pub struct CaptureHandoff {
    pub diary_id: i64,
    pub audio_title: String,
    pub audio_bytes: Vec<u8>,
}

/// Opens the capture: consumes the parsed attachment, creates the record
/// inside a fresh transactional scope, and derives the blob key from the new
/// id. The store itself is untouched until the scope commits. Fails only on
/// a missing attachment.
pub fn begin_capture(
    store: &RecordStore,
    user_id: u128,
    is_private: Option<bool>,
    attachment: Option<(Vec<u8>, MultipartMetadata)>,
    now: CivilDateTime,
) -> (r: Result<PendingCapture, CaptureError>)
    requires
        store.wf(),
        now.wf(),
        store@.len() < i64::MAX,
    ensures
        match r {
            Ok(p) => {
                &&& attachment matches Some(att) && p.audio_bytes@ == att.0@
                &&& p.diary_id == store@.len() + 1
                &&& p.tx@ == store@.push(
                    spec_new_diary(
                        p.diary_id,
                        user_id,
                        None,
                        None,
                        spec_privacy_flag(is_private),
                        now,
                    ),
                )
                &&& p.tx.wf()
                &&& p.audio_title@ == spec_diary_filename(user_id, p.diary_id as int)
            },
            Err(e) => e matches CaptureError::Input(InputError::NoFileUploaded) && attachment
                is None,
        },
{
    let (audio_bytes, _metadata) = match attachment {
        Some(att) => att,
        None => {
            return Err(CaptureError::Input(InputError::NoFileUploaded));
        },
    };
    let mut tx = store.begin();
    let flag = match is_private {
        Some(b) => b,
        None => false,
    };
    let diary_id = insert_diary(&mut tx, DiaryParams::new(user_id, None, None, flag), now);
    let audio_title = get_diary_filename(user_id, diary_id);
    Ok(PendingCapture { tx, diary_id, audio_title, audio_bytes })
}

/// Closes the capture once the blob gateway has answered. A successful
/// upload links the record to the returned URL and commits the scope in one
/// atomic switch; any failure rolls the scope back, leaving the store
/// exactly as it was before the capture — no partial record remains visible.
pub fn finish_capture(
    store: &mut RecordStore,
    pending: PendingCapture,
    upload: Result<String, StorageError>,
) -> (r: Result<CaptureHandoff, CaptureError>)
    requires
        old(store).wf(),
        pending.tx.wf(),
    ensures
        final(store).wf(),
        r is Err ==> final(store)@ == old(store)@,
        match r {
            Ok(h) => {
                &&& upload matches Ok(url)
                &&& contains_id(pending.tx@, pending.diary_id)
                &&& final(store)@ == store_update(
                    pending.tx@,
                    pending.diary_id,
                    spec_audio_link_patch(url@),
                )
                &&& h.diary_id == pending.diary_id
                &&& h.audio_title@ == pending.audio_title@
                &&& h.audio_bytes@ == pending.audio_bytes@
            },
            Err(CaptureError::Storage(se)) => upload matches Err(ue) && se == ue,
            Err(CaptureError::Store(e)) => e == StoreError::NotFound && upload is Ok
                && !contains_id(pending.tx@, pending.diary_id),
            Err(CaptureError::Input(_)) => false,
        },
{
    let PendingCapture { tx: tx0, diary_id, audio_title, audio_bytes } = pending;
    let mut tx = tx0;
    match upload {
        Err(e) => {
            tx.rollback();
            Err(CaptureError::Storage(e))
        },
        Ok(url) => {
            let patch = DiaryPatch {
                audio_link: Some(url),
                summary: None,
                transcription: None,
                emotion: None,
                is_private: None,
            };
            assert(!patch@.is_empty());
            match update_diary(&mut tx, diary_id, patch) {
                Ok(()) => {
                    tx.commit(store);
                    Ok(CaptureHandoff { diary_id, audio_title, audio_bytes })
                },
                Err(e) => {
                    tx.rollback();
                    Err(CaptureError::Store(e))
                },
            }
        },
    }
}

/// The whole synchronous capture, given the blob gateway's answer for the
/// derived key: parse the attachment, create the record, link the blob,
/// commit — or roll back on the first failure, leaving no trace. The `Ok`
/// value is exactly what the detached enrichment worker is handed.
pub fn create_diary(
    store: &mut RecordStore,
    user_id: u128,
    is_private: Option<bool>,
    attachment: Option<(Vec<u8>, MultipartMetadata)>,
    now: CivilDateTime,
    upload: Result<String, StorageError>,
) -> (r: Result<CaptureHandoff, CaptureError>)
    requires
        old(store).wf(),
        now.wf(),
        old(store)@.len() < i64::MAX,
    ensures
        final(store).wf(),
        r is Err ==> final(store)@ == old(store)@,
        match r {
            Ok(h) => {
                &&& attachment matches Some(att) && h.audio_bytes@ == att.0@
                &&& upload matches Ok(url) && final(store)@ == old(store)@.push(
                    spec_captured_diary(
                        h.diary_id,
                        user_id,
                        spec_privacy_flag(is_private),
                        url@,
                        now,
                    ),
                )
                &&& h.diary_id == old(store)@.len() + 1
                &&& h.audio_title@ == spec_diary_filename(user_id, h.diary_id as int)
            },
            Err(CaptureError::Input(InputError::NoFileUploaded)) => attachment is None,
            Err(CaptureError::Storage(se)) => attachment is Some && (upload matches Err(ue) && se
                == ue),
            Err(CaptureError::Store(_)) => false,
        },
{
    let pending = match begin_capture(store, user_id, is_private, attachment, now) {
        Ok(p) => p,
        Err(e) => {
            return Err(e);
        },
    };
    let ghost pre = store@;
    let ghost fresh = spec_new_diary(
        pending.diary_id,
        user_id,
        None,
        None,
        spec_privacy_flag(is_private),
        now,
    );
    let ghost id = pending.diary_id;
    match finish_capture(store, pending, upload) {
        Ok(h) => {
            proof {
                let url = upload->Ok_0@;
                assert(apply_patch(fresh, spec_audio_link_patch(url)) =~= spec_captured_diary(
                    id,
                    user_id,
                    spec_privacy_flag(is_private),
                    url,
                    now,
                ));
                assert(store_update(pre.push(fresh), id, spec_audio_link_patch(url)) =~= pre.push(
                    spec_captured_diary(id, user_id, spec_privacy_flag(is_private), url, now),
                ));
            }
            Ok(h)
        },
        Err(e) => Err(e),
    }
}

/// Ordering of the pipeline: a record the capture path has committed always
/// carries its audio link, so the enrichment worker — spawned only after the
/// commit, with the committed id — never observes a record lacking one.
pub proof fn lemma_enrichment_observes_audio_link(
    pre: Seq<DiaryView>,
    id: i64,
    user_id: u128,
    is_private: bool,
    url: Seq<char>,
    now: CivilDateTime,
)
    requires
        id == pre.len() + 1,
        id <= i64::MAX,
    ensures
        contains_id(pre.push(spec_captured_diary(id, user_id, is_private, url, now)), id),
        pre.push(spec_captured_diary(id, user_id, is_private, url, now))[id - 1].audio_link
            is Some,
{
}

} // verus!
