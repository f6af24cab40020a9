//! The record store: the durable table of diary records, and the
//! transactional scope every write runs under.
//!
//! The store owns all persisted state. A writer never mutates it directly:
//! it begins a transaction (a working copy), writes there, and either commits
//! the copy back — one atomic switch — or rolls it back, leaving the store
//! exactly as it was. Ids are server assigned, starting at 1 and growing by
//! one per created record, so the record with id `n` sits at position `n - 1`.

use vstd::prelude::*;
use crate::date::CivilDateTime;
use crate::record::{apply_patch, opt_text_view, Diary, DiaryParams, DiaryPatch, DiaryView, PatchView};

verus! {

/// How a store operation can fail: the record named does not exist, or the
/// underlying persistence layer failed.
#[derive(Clone, Copy, Debug, PartialEq, Eq, Structural)]
pub enum StoreError {
    NotFound,
    Persistence,
}

/// The views of a sequence of records.
pub open spec fn diary_views(s: Seq<Diary>) -> Seq<DiaryView> {
    s.map_values(|d: Diary| d@)
}

/// A well-formed table: the record at position `i` carries id `i + 1`, and
/// every record is itself well formed.
pub open spec fn wf_records(s: Seq<DiaryView>) -> bool {
    forall|i: int| 0 <= i < s.len() ==> ((#[trigger] s[i]).id == i + 1 && s[i].wf())
}

/// Whether the table holds a record with the given id.
pub open spec fn contains_id(s: Seq<DiaryView>, id: i64) -> bool {
    1 <= id && id <= s.len()
}

/// The table after a partial update of one record.
pub open spec fn store_update(s: Seq<DiaryView>, id: i64, p: PatchView) -> Seq<DiaryView> {
    s.update(id - 1, apply_patch(s[id - 1], p))
}

/// The freshly created record: blob link and enrichment fields as the caller
/// supplied them (null on the capture path), stamped with the creation
/// instant and its calendar day.
pub open spec fn spec_new_diary(
    id: i64,
    user_id: u128,
    audio_link: Option<Seq<char>>,
    summary: Option<Seq<char>>,
    is_private: bool,
    now: CivilDateTime,
) -> DiaryView {
    DiaryView {
        id,
        created_at: now,
        local_date: now.date,
        user_id,
        audio_link,
        summary,
        transcription: None,
        emotion: None,
        is_private,
    }
}

/// The durable table of diary records.
pub struct RecordStore {
    pub diaries: Vec<Diary>,
}

/// A transactional scope: a working copy of the table. Writes land here and
/// reach the store only on commit.
pub struct Transaction {
    pub working: Vec<Diary>,
}

impl View for RecordStore {
    type V = Seq<DiaryView>;

    open spec fn view(&self) -> Seq<DiaryView> {
        diary_views(self.diaries@)
    }
}

impl View for Transaction {
    type V = Seq<DiaryView>;

    open spec fn view(&self) -> Seq<DiaryView> {
        diary_views(self.working@)
    }
}

fn clone_diaries(v: &Vec<Diary>) -> (r: Vec<Diary>)
    ensures
        diary_views(r@) == diary_views(v@),
{
    let mut r: Vec<Diary> = Vec::new();
    let mut i: usize = 0;
    while i < v.len()
        invariant
            i <= v@.len(),
            r@.len() == i,
            forall|j: int| 0 <= j < i ==> (#[trigger] r@[j])@ == v@[j]@,
        decreases v@.len() - i,
    {
        r.push(v[i].clone());
        i += 1;
    }
    assert(diary_views(r@) =~= diary_views(v@));
    r
}

impl RecordStore {
    pub open spec fn wf(self) -> bool {
        wf_records(self@)
    }

    /// An empty table.
    pub fn new() -> (r: RecordStore)
        ensures
            r.wf(),
            r@ == Seq::<DiaryView>::empty(),
    {
        let r = RecordStore { diaries: Vec::new() };
        assert(r@ =~= Seq::<DiaryView>::empty());
        r
    }

    /// Opens a transactional scope: a working copy of the table.
    pub fn begin(&self) -> (tx: Transaction)
        requires
            self.wf(),
        ensures
            tx@ == self@,
            tx.wf(),
    {
        Transaction { working: clone_diaries(&self.diaries) }
    }
}

impl Transaction {
    pub open spec fn wf(self) -> bool {
        wf_records(self@)
    }

    /// Commits the scope: the store takes the working copy, atomically.
    pub fn commit(self, store: &mut RecordStore)
        ensures
            final(store)@ == self@,
            final(store).wf() == self.wf(),
    {
        store.diaries = self.working;
    }

    /// Discards the scope. The store it was begun from is untouched; every
    /// write made under the scope is gone.
    pub fn rollback(self) {
    }
}

/// Creates a record inside the scope and returns its freshly assigned id.
/// Ids are assigned at creation, before any blob or enrichment data exists,
/// which is what lets the blob key embed the id.
pub fn insert_diary(tx: &mut Transaction, diary: DiaryParams, now: CivilDateTime) -> (id: i64)
    requires
        old(tx).wf(),
        now.wf(),
        old(tx)@.len() < i64::MAX,
    ensures
        final(tx).wf(),
        id == old(tx)@.len() + 1,
        final(tx)@ == old(tx)@.push(
            spec_new_diary(
                id,
                diary.user_id,
                opt_text_view(diary.audio_link),
                opt_text_view(diary.summary),
                diary.is_private,
                now,
            ),
        ),
{
    let id = (tx.working.len() as i64) + 1;
    let d = Diary {
        id,
        created_at: now,
        local_date: now.date,
        user_id: diary.user_id,
        audio_link: diary.audio_link,
        summary: diary.summary,
        transcription: None,
        emotion: None,
        is_private: diary.is_private,
    };
    tx.working.push(d);
    assert(final(tx)@ =~= old(tx)@.push(
        spec_new_diary(
            id,
            diary.user_id,
            opt_text_view(diary.audio_link),
            opt_text_view(diary.summary),
            diary.is_private,
            now,
        ),
    ));
    id
}

/// Applies a partial update to one record inside the scope. Only the fields
/// the patch names are written; the rest keep their stored values. An empty
/// patch is a no-op that succeeds without touching anything; a missing id is
/// `NotFound`.
pub fn update_diary(tx: &mut Transaction, id: i64, patch: DiaryPatch) -> (r: Result<
    (),
    StoreError,
>)
    requires
        old(tx).wf(),
    ensures
        final(tx).wf(),
        match r {
            Ok(()) => {
                if patch@.is_empty() {
                    final(tx)@ == old(tx)@
                } else {
                    contains_id(old(tx)@, id) && final(tx)@ == store_update(old(tx)@, id, patch@)
                }
            },
            Err(e) => e == StoreError::NotFound && !patch@.is_empty() && !contains_id(old(tx)@, id)
                && final(tx)@ == old(tx)@,
        },
{
    if patch.is_empty() {
        return Ok(());
    }
    if id < 1 {
        return Err(StoreError::NotFound);
    }
    let len = tx.working.len();
    if id as u64 > len as u64 {
        return Err(StoreError::NotFound);
    }
    let idx = (id as u64 - 1) as usize;
    assert(idx == id - 1);
    assert(idx < tx.working@.len());
    let stored = tx.working[idx].clone();
    assert(stored@ == old(tx)@[id - 1]);
    let updated = Diary {
        id: stored.id,
        created_at: stored.created_at,
        local_date: stored.local_date,
        user_id: stored.user_id,
        audio_link: match patch.audio_link {
            Some(s) => Some(s),
            None => stored.audio_link,
        },
        summary: match patch.summary {
            Some(s) => Some(s),
            None => stored.summary,
        },
        transcription: match patch.transcription {
            Some(s) => Some(s),
            None => stored.transcription,
        },
        emotion: match patch.emotion {
            Some(e) => Some(e),
            None => stored.emotion,
        },
        is_private: match patch.is_private {
            Some(b) => b,
            None => stored.is_private,
        },
    };
    assert(updated@ =~= apply_patch(old(tx)@[id - 1], patch@));
    tx.working[idx] = updated;
    assert(final(tx)@ =~= store_update(old(tx)@, id, patch@));
    Ok(())
}

/// A partial update is scoped to one record: however two writers interleave
/// their transactions, an update for one id never touches any other record,
/// and never grows or shrinks the table.
pub proof fn lemma_update_scoped_to_one_record(s: Seq<DiaryView>, id: i64, p: PatchView, j: int)
    requires
        contains_id(s, id),
        0 <= j < s.len(),
        j != id - 1,
    ensures
        store_update(s, id, p).len() == s.len(),
        store_update(s, id, p)[j] == s[j],
{
}

/// Whether a record belongs to the owner and is one of the requested ids.
pub open spec fn diary_matches_ids(d: DiaryView, user_id: u128, ids: Seq<i64>) -> bool {
    d.user_id == user_id && ids.contains(d.id)
}

/// Whether a record belongs to the owner and was created in the given month.
pub open spec fn diary_in_month(d: DiaryView, user_id: u128, year: u32, month: u32) -> bool {
    &&& d.user_id == user_id
    &&& d.created_at.date.year as int == year as int
    &&& d.created_at.date.month as int == month as int
}

fn contains_i64(v: &Vec<i64>, x: i64) -> (r: bool)
    ensures
        r == v@.contains(x),
{
    let mut i: usize = 0;
    while i < v.len()
        invariant
            i <= v@.len(),
            forall|j: int| 0 <= j < i ==> v@[j] != x,
        decreases v@.len() - i,
    {
        if v[i] == x {
            return true;
        }
        i += 1;
    }
    false
}

/// Reads one record by id, scoped to its owner. `NotFound` exactly when no
/// record with that id exists or the record belongs to someone else.
pub fn get_diary(store: &RecordStore, user_id: u128, diary_id: i64) -> (r: Result<
    Diary,
    StoreError,
>)
    requires
        store.wf(),
    ensures
        match r {
            Ok(d) => contains_id(store@, diary_id) && store@[diary_id - 1].user_id == user_id
                && d@ == store@[diary_id - 1],
            Err(e) => {
                let present = contains_id(store@, diary_id) && store@[diary_id - 1].user_id
                    == user_id;
                e == StoreError::NotFound && !present
            },
        },
{
    if diary_id < 1 {
        return Err(StoreError::NotFound);
    }
    let len = store.diaries.len();
    if diary_id as u64 > len as u64 {
        return Err(StoreError::NotFound);
    }
    let idx = (diary_id as u64 - 1) as usize;
    assert(idx == diary_id - 1);
    let d = store.diaries[idx].clone();
    assert(d@ == store@[diary_id - 1]);
    if d.user_id == user_id {
        Ok(d)
    } else {
        Err(StoreError::NotFound)
    }
}

/// Reads the owner's records among the requested ids. Exactly the stored
/// records that match come back, in store order; a requested id that matches
/// nothing is simply absent from the result.
pub fn get_diaries(store: &RecordStore, user_id: u128, diary_ids: Vec<i64>) -> (r: Vec<Diary>)
    requires
        store.wf(),
    ensures
        diary_views(r@) == store@.filter(
            (|d: DiaryView| diary_matches_ids(d, user_id, diary_ids@)),
        ),
{
    let ghost pred = |d: DiaryView| diary_matches_ids(d, user_id, diary_ids@);
    let mut r: Vec<Diary> = Vec::new();
    let mut i: usize = 0;
    assert(diary_views(r@) =~= store@.subrange(0, 0).filter(pred));
    while i < store.diaries.len()
        invariant
            store.wf(),
            i <= store@.len(),
            diary_views(r@) == store@.subrange(0, i as int).filter(pred),
            pred == (|d: DiaryView| diary_matches_ids(d, user_id, diary_ids@)),
        decreases store@.len() - i,
    {
        let d = &store.diaries[i];
        proof {
            let sub = store@.subrange(0, i as int);
            let elt = store@[i as int];
            sub.lemma_filter_push(elt, pred);
            assert(store@.subrange(0, i + 1) =~= sub.push(elt));
            assert(elt == d@);
        }
        if d.user_id == user_id && contains_i64(&diary_ids, d.id) {
            assert(pred(store@[i as int]));
            let ghost prev = diary_views(r@);
            r.push(d.clone());
            assert(diary_views(r@) =~= prev.push(d@));
            assert(diary_views(r@) == store@.subrange(0, i + 1).filter(pred));
        } else {
            assert(!pred(store@[i as int]));
            assert(diary_views(r@) == store@.subrange(0, i + 1).filter(pred));
        }
        i += 1;
    }
    assert(store@.subrange(0, store@.len() as int) =~= store@);
    r
}

/// Reads the owner's records created in the given year and month, by the
/// record's own creation timestamp.
pub fn get_diaries_of_month(store: &RecordStore, year: u32, month: u32, user_id: u128) -> (r: Vec<
    Diary,
>)
    requires
        store.wf(),
    ensures
        diary_views(r@) == store@.filter((|d: DiaryView| diary_in_month(d, user_id, year, month))),
{
    let ghost pred = |d: DiaryView| diary_in_month(d, user_id, year, month);
    let mut r: Vec<Diary> = Vec::new();
    let mut i: usize = 0;
    assert(diary_views(r@) =~= store@.subrange(0, 0).filter(pred));
    while i < store.diaries.len()
        invariant
            store.wf(),
            i <= store@.len(),
            diary_views(r@) == store@.subrange(0, i as int).filter(pred),
            pred == (|d: DiaryView| diary_in_month(d, user_id, year, month)),
        decreases store@.len() - i,
    {
        let d = &store.diaries[i];
        proof {
            let sub = store@.subrange(0, i as int);
            let elt = store@[i as int];
            sub.lemma_filter_push(elt, pred);
            assert(store@.subrange(0, i + 1) =~= sub.push(elt));
            assert(elt == d@);
        }
        if d.user_id == user_id && (d.created_at.date.year as i64) == (year as i64)
            && (d.created_at.date.month as u32) == month {
            assert(pred(store@[i as int]));
            let ghost prev = diary_views(r@);
            r.push(d.clone());
            assert(diary_views(r@) =~= prev.push(d@));
            assert(diary_views(r@) == store@.subrange(0, i + 1).filter(pred));
        } else {
            assert(!pred(store@[i as int]));
            assert(diary_views(r@) == store@.subrange(0, i + 1).filter(pred));
        }
        i += 1;
    }
    assert(store@.subrange(0, store@.len() as int) =~= store@);
    r
}

} // verus!
