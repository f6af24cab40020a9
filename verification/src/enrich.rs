//! The enrichment worker: the asynchronous path of a diary entry.
//!
//! The worker runs detached, long after the capture's scope has committed
//! and gone, so each stage opens its own transactional scope. The stages are
//! independently fallible: a committed transcription is never lost to a
//! later summarize failure, and a classify failure never blocks the summary
//! from being persisted, or the other way round. Worker failures write
//! nothing and are only ever logged — no caller is waiting.

use vstd::prelude::*;
use vstd::string::StringExecFns;
use crate::emotion::Emotion;
use crate::errors::{EnrichError, ProviderError};
use crate::record::{DiaryPatch, DiaryView, PatchView};
use crate::store::{contains_id, store_update, update_diary, RecordStore, StoreError};

verus! {

/// The patch of the first stage: the transcription, and nothing else.
pub open spec fn spec_transcription_patch(t: Seq<char>) -> PatchView {
    PatchView {
        audio_link: None,
        summary: None,
        transcription: Some(t),
        emotion: None,
        is_private: None,
    }
}

/// The patch of the second stage: whichever of summary and emotion its
/// provider calls produced, and nothing else.
pub open spec fn spec_summary_emotion_patch(
    summary: Option<Seq<char>>,
    emotion: Option<Emotion>,
) -> PatchView {
    PatchView { audio_link: None, summary, transcription: None, emotion, is_private: None }
}

/// The text a provider call produced, if it succeeded.
pub open spec fn spec_ok_text(r: Result<String, ProviderError>) -> Option<Seq<char>> {
    match r {
        Ok(s) => Some(s@),
        Err(_) => None,
    }
}

/// The emotion a provider call produced, if it succeeded.
pub open spec fn spec_ok_emotion(r: Result<Emotion, ProviderError>) -> Option<Emotion> {
    match r {
        Ok(e) => Some(e),
        Err(_) => None,
    }
}

/// Stage one: merges the transcription into the record, in a scope of the
/// worker's own, committed immediately and independently of the later
/// stages. A failed transcribe call writes nothing at all; the record simply
/// stays without a transcription.
pub fn apply_transcription(
    store: &mut RecordStore,
    diary_id: i64,
    transcription: Result<String, ProviderError>,
) -> (r: Result<(), EnrichError>)
    requires
        old(store).wf(),
    ensures
        final(store).wf(),
        r is Err ==> final(store)@ == old(store)@,
        match r {
            Ok(()) => transcription matches Ok(t) && contains_id(old(store)@, diary_id)
                && final(store)@ == store_update(
                old(store)@,
                diary_id,
                spec_transcription_patch(t@),
            ),
            Err(EnrichError::Provider(pe)) => transcription matches Err(pe0) && pe == pe0,
            Err(EnrichError::Store(e)) => e == StoreError::NotFound && transcription is Ok
                && !contains_id(old(store)@, diary_id),
        },
{
    let text = match transcription {
        Ok(t) => t,
        Err(e) => {
            return Err(EnrichError::Provider(e));
        },
    };
    let mut tx = store.begin();
    let patch = DiaryPatch {
        audio_link: None,
        summary: None,
        transcription: Some(text),
        emotion: None,
        is_private: None,
    };
    assert(!patch@.is_empty());
    match update_diary(&mut tx, diary_id, patch) {
        Ok(()) => {
            tx.commit(store);
            Ok(())
        },
        Err(e) => {
            tx.rollback();
            Err(EnrichError::Store(e))
        },
    }
}

/// Stage two: merges whichever of summary and emotion its provider calls
/// produced, as one partial update in a scope of the worker's own. When both
/// calls failed there is nothing to write and the stage succeeds trivially,
/// touching nothing.
pub fn summarize_diary(
    store: &mut RecordStore,
    diary_id: i64,
    summary: Result<String, ProviderError>,
    emotion: Result<Emotion, ProviderError>,
) -> (r: Result<(), EnrichError>)
    requires
        old(store).wf(),
    ensures
        final(store).wf(),
        r is Err ==> final(store)@ == old(store)@,
        match r {
            Ok(()) => {
                if summary is Err && emotion is Err {
                    final(store)@ == old(store)@
                } else {
                    contains_id(old(store)@, diary_id) && final(store)@ == store_update(
                        old(store)@,
                        diary_id,
                        spec_summary_emotion_patch(spec_ok_text(summary), spec_ok_emotion(emotion)),
                    )
                }
            },
            Err(EnrichError::Store(e)) => e == StoreError::NotFound && !(summary is Err && emotion
                is Err) && !contains_id(old(store)@, diary_id),
            Err(EnrichError::Provider(_)) => false,
        },
{
    let patch = DiaryPatch {
        audio_link: None,
        summary: match summary {
            Ok(s) => Some(s),
            Err(_) => None,
        },
        transcription: None,
        emotion: match emotion {
            Ok(e) => Some(e),
            Err(_) => None,
        },
        is_private: None,
    };
    let mut tx = store.begin();
    match update_diary(&mut tx, diary_id, patch) {
        Ok(()) => {
            tx.commit(store);
            Ok(())
        },
        Err(e) => {
            tx.rollback();
            Err(EnrichError::Store(e))
        },
    }
}

/// The instruction handed to the summarize provider for a transcription.
pub fn summarize_prompt(content: &str) -> (r: String)
    ensures
        r@ == "Summarize the following text in korean: "@ + content@,
{
    let mut s = "Summarize the following text in korean: ".to_owned();
    s.append(content);
    s
}

/// The instruction handed to the classify provider for a transcription. The
/// provider is told to answer from the closed emotion vocabulary alone.
pub fn sentiment_prompt(content: &str) -> (r: String)
    ensures
        r@
            == "Analyze the sentiment of the following korean text. Only respond with one of the following choices: anger, sadness, happiness, neutral. Target text: "@
            + content@,
{
    let mut s =
        "Analyze the sentiment of the following korean text. Only respond with one of the following choices: anger, sadness, happiness, neutral. Target text: ".to_owned();
    s.append(content);
    s
}

/// Independence of the enrichment stages: once stage one has committed a
/// transcription, a stage two whose summarize call failed — whatever its
/// classify call did — leaves the transcription in place and the summary
/// exactly as it was before enrichment; in particular a null summary stays
/// null.
pub proof fn lemma_independent_enrichment_stages(
    pre: Seq<DiaryView>,
    diary_id: i64,
    t: Seq<char>,
    emotion: Option<Emotion>,
)
    requires
        contains_id(pre, diary_id),
    ensures
        ({
            let s1 = store_update(pre, diary_id, spec_transcription_patch(t));
            let s2 = store_update(s1, diary_id, spec_summary_emotion_patch(None, emotion));
            &&& s1[diary_id - 1].transcription == Some(t)
            &&& s2[diary_id - 1].transcription == Some(t)
            &&& s2[diary_id - 1].summary == pre[diary_id - 1].summary
            &&& s2.len() == pre.len()
        }),
{
}

} // verus!
