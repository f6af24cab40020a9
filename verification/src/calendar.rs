//! The calendar aggregation: a month's records, each paired with its
//! creation instant.

use vstd::prelude::*;
use crate::record::{Diary, DiaryView};
use crate::date::CivilDateTime;
use crate::store::{diary_in_month, get_diaries_of_month, RecordStore};

verus! {

/// One calendar entry: the record and, alongside, its creation instant.
pub struct CalendarData {
    pub created_at: CivilDateTime,
    pub diary: Diary,
}

/// The mathematical value of a calendar entry.
pub struct CalendarDataView {
    pub created_at: CivilDateTime,
    pub diary: DiaryView,
}

impl View for CalendarData {
    type V = CalendarDataView;

    open spec fn view(&self) -> CalendarDataView {
        CalendarDataView { created_at: self.created_at, diary: self.diary@ }
    }
}

/// The calendar entry a record projects to.
pub open spec fn spec_calendar_entry(d: DiaryView) -> CalendarDataView {
    CalendarDataView { created_at: d.created_at, diary: d }
}

/// The views of a sequence of calendar entries.
pub open spec fn calendar_views(s: Seq<CalendarData>) -> Seq<CalendarDataView> {
    s.map_values(|c: CalendarData| c@)
}

/// Fetches all calendar entries of the given owner, year and month: exactly
/// the owner's records created in that month, each paired with its creation
/// instant.
pub fn get_calendar(store: &RecordStore, user_id: u128, year: u32, month: u32) -> (r: Vec<
    CalendarData,
>)
    requires
        store.wf(),
    ensures
        calendar_views(r@) == store@.filter(
            (|d: DiaryView| diary_in_month(d, user_id, year, month)),
        ).map_values(|d: DiaryView| spec_calendar_entry(d)),
{
    let diaries = get_diaries_of_month(store, year, month, user_id);
    let ghost filtered = store@.filter((|d: DiaryView| diary_in_month(d, user_id, year, month)));
    let mut r: Vec<CalendarData> = Vec::new();
    let mut i: usize = 0;
    while i < diaries.len()
        invariant
            crate::store::diary_views(diaries@) == filtered,
            i <= diaries@.len(),
            r@.len() == i,
            forall|j: int| 0 <= j < i ==> (#[trigger] r@[j])@ == spec_calendar_entry(filtered[j]),
        decreases diaries@.len() - i,
    {
        let d = diaries[i].clone();
        let entry = CalendarData { created_at: d.created_at, diary: d };
        assert(entry@ == spec_calendar_entry(filtered[i as int]));
        r.push(entry);
        i += 1;
    }
    assert(calendar_views(r@) =~= filtered.map_values(|d: DiaryView| spec_calendar_entry(d)));
    r
}

} // verus!
