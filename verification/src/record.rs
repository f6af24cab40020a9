//! The diary record, its mathematical view, and the field-set partial update.
//!
//! A partial update is a patch naming only the fields it sets; applying it
//! never touches a field the patch leaves out. This is what lets the capture
//! path and the enrichment stages write to the same record without losing
//! each other's work.

use vstd::prelude::*;
use crate::date::{CivilDate, CivilDateTime};
use crate::emotion::Emotion;

verus! {

/// One diary entry as the store holds it.
pub struct Diary {
    pub id: i64,
    pub created_at: CivilDateTime,
    pub local_date: CivilDate,
    pub user_id: u128,
    pub audio_link: Option<String>,
    pub summary: Option<String>,
    pub transcription: Option<String>,
    pub emotion: Option<Emotion>,
    pub is_private: bool,
}

/// The mathematical value of a record: the same fields over sequences of
/// characters.
pub struct DiaryView {
    pub id: i64,
    pub created_at: CivilDateTime,
    pub local_date: CivilDate,
    pub user_id: u128,
    pub audio_link: Option<Seq<char>>,
    pub summary: Option<Seq<char>>,
    pub transcription: Option<Seq<char>>,
    pub emotion: Option<Emotion>,
    pub is_private: bool,
}

/// The view of an optional text field.
pub open spec fn opt_text_view(o: Option<String>) -> Option<Seq<char>> {
    match o {
        Some(s) => Some(s@),
        None => None,
    }
}

impl View for Diary {
    type V = DiaryView;

    open spec fn view(&self) -> DiaryView {
        DiaryView {
            id: self.id,
            created_at: self.created_at,
            local_date: self.local_date,
            user_id: self.user_id,
            audio_link: opt_text_view(self.audio_link),
            summary: opt_text_view(self.summary),
            transcription: opt_text_view(self.transcription),
            emotion: self.emotion,
            is_private: self.is_private,
        }
    }
}

impl DiaryView {
    pub open spec fn wf(self) -> bool {
        &&& self.id >= 1
        &&& self.created_at.wf()
        &&& self.local_date.wf()
    }
}

pub(crate) fn clone_opt_string(o: &Option<String>) -> (r: Option<String>)
    ensures
        opt_text_view(r) == opt_text_view(*o),
{
    match o {
        Some(s) => Some(s.clone()),
        None => None,
    }
}

impl Clone for Diary {
    /// A working copy of a record holds the same value.
    fn clone(&self) -> (r: Self)
        ensures
            r@ == self@,
    {
        let r = Diary {
            id: self.id,
            created_at: self.created_at,
            local_date: self.local_date,
            user_id: self.user_id,
            audio_link: clone_opt_string(&self.audio_link),
            summary: clone_opt_string(&self.summary),
            transcription: clone_opt_string(&self.transcription),
            emotion: self.emotion,
            is_private: self.is_private,
        };
        assert(r@ =~= self@);
        r
    }
}

/// What a caller supplies when a record is created. The enrichment fields
/// do not appear: they are only ever written later, by partial updates.
pub struct DiaryParams {
    pub user_id: u128,
    pub audio_link: Option<String>,
    pub summary: Option<String>,
    pub is_private: bool,
}

impl DiaryParams {
    pub fn new(
        user_id: u128,
        audio_link: Option<String>,
        summary: Option<String>,
        is_private: bool,
    ) -> (r: Self)
        ensures
            r.user_id == user_id,
            opt_text_view(r.audio_link) == opt_text_view(audio_link),
            opt_text_view(r.summary) == opt_text_view(summary),
            r.is_private == is_private,
    {
        Self { user_id, audio_link, summary, is_private }
    }
}

/// A field-set partial update: each field is either absent (leave the stored
/// value alone) or present (set it).
pub struct DiaryPatch {
    pub audio_link: Option<String>,
    pub summary: Option<String>,
    pub transcription: Option<String>,
    pub emotion: Option<Emotion>,
    pub is_private: Option<bool>,
}

/// The mathematical value of a patch.
pub struct PatchView {
    pub audio_link: Option<Seq<char>>,
    pub summary: Option<Seq<char>>,
    pub transcription: Option<Seq<char>>,
    pub emotion: Option<Emotion>,
    pub is_private: Option<bool>,
}

impl View for DiaryPatch {
    type V = PatchView;

    open spec fn view(&self) -> PatchView {
        PatchView {
            audio_link: opt_text_view(self.audio_link),
            summary: opt_text_view(self.summary),
            transcription: opt_text_view(self.transcription),
            emotion: self.emotion,
            is_private: self.is_private,
        }
    }
}

impl PatchView {
    /// A patch that names no field at all.
    pub open spec fn is_empty(self) -> bool {
        &&& self.audio_link is None
        &&& self.summary is None
        &&& self.transcription is None
        &&& self.emotion is None
        &&& self.is_private is None
    }
}

impl DiaryPatch {
    /// The patch that sets nothing.
    pub fn empty() -> (r: Self)
        ensures
            r@.is_empty(),
    {
        DiaryPatch {
            audio_link: None,
            summary: None,
            transcription: None,
            emotion: None,
            is_private: None,
        }
    }

    /// Whether this patch names no field; such an update is a no-op.
    pub fn is_empty(&self) -> (r: bool)
        ensures
            r == self@.is_empty(),
    {
        self.audio_link.is_none() && self.summary.is_none() && self.transcription.is_none()
            && self.emotion.is_none() && self.is_private.is_none()
    }
}

/// The record after a patch: a present patch field replaces the stored one,
/// an absent patch field leaves it untouched. Identity, ownership and the
/// creation instant are never patched.
pub open spec fn apply_patch(d: DiaryView, p: PatchView) -> DiaryView {
    DiaryView {
        audio_link: if p.audio_link is Some {
            p.audio_link
        } else {
            d.audio_link
        },
        summary: if p.summary is Some {
            p.summary
        } else {
            d.summary
        },
        transcription: if p.transcription is Some {
            p.transcription
        } else {
            d.transcription
        },
        emotion: if p.emotion is Some {
            p.emotion
        } else {
            d.emotion
        },
        is_private: if p.is_private is Some {
            p.is_private->0
        } else {
            d.is_private
        },
        ..d
    }
}

/// Partial updates are non-destructive: a field the patch does not name
/// keeps its stored value, and a field the patch names takes exactly the
/// patched value. In particular an update that only sets the emotion leaves
/// an existing summary in place.
pub proof fn lemma_partial_update_non_destructive(d: DiaryView, p: PatchView)
    ensures
        p.audio_link is None ==> apply_patch(d, p).audio_link == d.audio_link,
        p.summary is None ==> apply_patch(d, p).summary == d.summary,
        p.transcription is None ==> apply_patch(d, p).transcription == d.transcription,
        p.emotion is None ==> apply_patch(d, p).emotion == d.emotion,
        p.is_private is None ==> apply_patch(d, p).is_private == d.is_private,
        p.audio_link is Some ==> apply_patch(d, p).audio_link == p.audio_link,
        p.summary is Some ==> apply_patch(d, p).summary == p.summary,
        p.transcription is Some ==> apply_patch(d, p).transcription == p.transcription,
        p.emotion is Some ==> apply_patch(d, p).emotion == p.emotion,
        p.is_private is Some ==> Some(apply_patch(d, p).is_private) == p.is_private,
        apply_patch(d, p).id == d.id,
        apply_patch(d, p).user_id == d.user_id,
        apply_patch(d, p).created_at == d.created_at,
        apply_patch(d, p).local_date == d.local_date,
{
}

/// An empty patch changes nothing at all.
pub proof fn lemma_empty_patch_identity(d: DiaryView, p: PatchView)
    requires
        p.is_empty(),
    ensures
        apply_patch(d, p) == d,
{
    assert(apply_patch(d, p) =~= d);
}

} // verus!
