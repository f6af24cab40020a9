//! Room placement: which decorations a user placed on which diary entries,
//! and the month view joining placements with the catalog and the records.

use vstd::prelude::*;
use crate::date::{CivilDate, CivilDateTime};
use crate::deco::{contains_deco_id, DecoCatalog, DecoView};
use crate::record::{clone_opt_string, opt_text_view, DiaryView};
use crate::store::{contains_id, RecordStore};

verus! {

/// Where a decoration stands in the room, and which way it faces.
#[derive(Clone, Copy, Debug, PartialEq, Eq, Structural)]
pub struct Coordinates {
    pub x: i64,
    pub y: i64,
    pub z: i64,
    pub orientation: i32,
}

impl Coordinates {
    /// Orientation is one of the four cardinal directions.
    pub open spec fn wf(self) -> bool {
        0 <= self.orientation < 4
    }

    /// Builds a position, rejecting an orientation outside the four
    /// directions.
    pub fn new(x: i64, y: i64, z: i64, orientation: i32) -> (r: Option<Coordinates>)
        ensures
            r matches Some(c) ==> c == (Coordinates { x, y, z, orientation }) && c.wf(),
            r is None ==> !(Coordinates { x, y, z, orientation }).wf(),
    {
        if 0 <= orientation && orientation < 4 {
            Some(Coordinates { x, y, z, orientation })
        } else {
            None
        }
    }
}

/// One placement row: a user's decoration on one diary entry, placed or
/// still in inventory.
#[derive(Clone, Copy)]
pub struct UserDecoRow {
    pub user_id: u128,
    pub diary_id: i64,
    pub deco_id: i64,
    pub is_placed: bool,
    pub coordinates: Option<Coordinates>,
}

/// The placement table.
pub struct PlacementStore {
    pub rows: Vec<UserDecoRow>,
}

impl View for PlacementStore {
    type V = Seq<UserDecoRow>;

    open spec fn view(&self) -> Seq<UserDecoRow> {
        self.rows@
    }
}

impl PlacementStore {
    /// An empty placement table.
    pub fn new() -> (r: PlacementStore)
        ensures
            r@ == Seq::<UserDecoRow>::empty(),
    {
        PlacementStore { rows: Vec::new() }
    }
}

/// Grants a user a decoration on a diary entry: a fresh row, not yet placed
/// and without coordinates.
pub fn create_user_deco(placements: &mut PlacementStore, user_id: u128, diary_id: i64, deco_id: i64)
    ensures
        final(placements)@ == old(placements)@.push(
            UserDecoRow { user_id, diary_id, deco_id, is_placed: false, coordinates: None },
        ),
{
    placements.rows.push(
        UserDecoRow { user_id, diary_id, deco_id, is_placed: false, coordinates: None },
    );
}

/// A row after a placement write: rows keyed by the triple take the new
/// placement state and coordinates, every other row is untouched.
pub open spec fn spec_place_row(
    row: UserDecoRow,
    user_id: u128,
    diary_id: i64,
    deco_id: i64,
    is_placed: bool,
    coordinates: Option<Coordinates>,
) -> UserDecoRow {
    if row.user_id == user_id && row.diary_id == diary_id && row.deco_id == deco_id {
        UserDecoRow { user_id, diary_id, deco_id, is_placed, coordinates }
    } else {
        row
    }
}

/// Writes a placement: every row of the `(user, diary, deco)` triple takes
/// the given placement state and coordinates; no other row changes. Writing
/// a triple that has no row changes nothing and still succeeds.
pub fn update_user_deco(
    placements: &mut PlacementStore,
    user_id: u128,
    diary_id: i64,
    deco_id: i64,
    is_placed: bool,
    coordinates: Option<Coordinates>,
)
    ensures
        final(placements)@ == old(placements)@.map_values(
            (|row: UserDecoRow|
                spec_place_row(row, user_id, diary_id, deco_id, is_placed, coordinates)),
        ),
{
    let ghost f = |row: UserDecoRow|
        spec_place_row(row, user_id, diary_id, deco_id, is_placed, coordinates);
    let mut i: usize = 0;
    while i < placements.rows.len()
        invariant
            placements@.len() == old(placements)@.len(),
            i <= placements@.len(),
            forall|j: int| 0 <= j < i ==> placements@[j] == f(old(placements)@[j]),
            forall|j: int| i <= j < placements@.len() ==> placements@[j] == old(placements)@[j],
            f == (|row: UserDecoRow|
                spec_place_row(row, user_id, diary_id, deco_id, is_placed, coordinates)),
        decreases placements@.len() - i,
    {
        let row = placements.rows[i];
        if row.user_id == user_id && row.diary_id == diary_id && row.deco_id == deco_id {
            placements.rows[i] = UserDecoRow { user_id, diary_id, deco_id, is_placed, coordinates };
        }
        assert(placements@[i as int] == f(old(placements)@[i as int]));
        i += 1;
    }
    assert(final(placements)@ =~= old(placements)@.map_values(f));
}

/// One row of the month's room view: the placement joined with its catalog
/// entry and its diary record.
pub struct UserDeco {
    pub user_id: u128,
    pub deco_id: i64,
    pub name: String,
    pub asset_link: String,
    pub category: Option<String>,
    pub display_name: Option<String>,
    pub diary_id: i64,
    pub created_at: CivilDateTime,
    pub local_date: CivilDate,
    pub audio_link: Option<String>,
    pub summary: Option<String>,
    pub is_private: bool,
    pub is_placed: bool,
    pub coordinates: Option<Coordinates>,
}

/// The mathematical value of a room-view row.
pub struct UserDecoView {
    pub user_id: u128,
    pub deco_id: i64,
    pub name: Seq<char>,
    pub asset_link: Seq<char>,
    pub category: Option<Seq<char>>,
    pub display_name: Option<Seq<char>>,
    pub diary_id: i64,
    pub created_at: CivilDateTime,
    pub local_date: CivilDate,
    pub audio_link: Option<Seq<char>>,
    pub summary: Option<Seq<char>>,
    pub is_private: bool,
    pub is_placed: bool,
    pub coordinates: Option<Coordinates>,
}

impl View for UserDeco {
    type V = UserDecoView;

    open spec fn view(&self) -> UserDecoView {
        UserDecoView {
            user_id: self.user_id,
            deco_id: self.deco_id,
            name: self.name@,
            asset_link: self.asset_link@,
            category: opt_text_view(self.category),
            display_name: opt_text_view(self.display_name),
            diary_id: self.diary_id,
            created_at: self.created_at,
            local_date: self.local_date,
            audio_link: opt_text_view(self.audio_link),
            summary: opt_text_view(self.summary),
            is_private: self.is_private,
            is_placed: self.is_placed,
            coordinates: self.coordinates,
        }
    }
}

/// The views of a sequence of room-view rows.
pub open spec fn user_deco_views(s: Seq<UserDeco>) -> Seq<UserDecoView> {
    s.map_values(|u: UserDeco| u@)
}

/// Whether a placement row shows up in the month's room view: it belongs to
/// the user, its decoration and diary exist, the diary is the user's own,
/// and the diary's calendar day falls in the month.
pub open spec fn placement_visible(
    p: UserDecoRow,
    decos: Seq<DecoView>,
    diaries: Seq<DiaryView>,
    user_id: u128,
    year: i32,
    month: u32,
) -> bool {
    &&& p.user_id == user_id
    &&& contains_deco_id(decos, p.deco_id)
    &&& contains_id(diaries, p.diary_id)
    &&& diaries[p.diary_id - 1].user_id == user_id
    &&& diaries[p.diary_id - 1].local_date.year as int == year as int
    &&& diaries[p.diary_id - 1].local_date.month as int == month as int
}

/// The row a visible placement joins to.
pub open spec fn spec_join_row(
    p: UserDecoRow,
    decos: Seq<DecoView>,
    diaries: Seq<DiaryView>,
) -> UserDecoView {
    let deco = decos[p.deco_id - 1];
    let diary = diaries[p.diary_id - 1];
    UserDecoView {
        user_id: p.user_id,
        deco_id: deco.id,
        name: deco.name,
        asset_link: deco.asset_link,
        category: deco.category,
        display_name: deco.display_name,
        diary_id: diary.id,
        created_at: diary.created_at,
        local_date: diary.local_date,
        audio_link: diary.audio_link,
        summary: diary.summary,
        is_private: diary.is_private,
        is_placed: p.is_placed,
        coordinates: p.coordinates,
    }
}

/// Fetches the month's room view for a user: exactly the visible placements,
/// in placement order, each joined with its catalog entry and diary record.
pub fn get_user_deco_of_month(
    placements: &PlacementStore,
    catalog: &DecoCatalog,
    store: &RecordStore,
    user_id: u128,
    year: i32,
    month: u32,
) -> (r: Vec<UserDeco>)
    requires
        catalog.wf(),
        store.wf(),
    ensures
        user_deco_views(r@) == placements@.filter(
            (|p: UserDecoRow| placement_visible(p, catalog@, store@, user_id, year, month)),
        ).map_values((|p: UserDecoRow| spec_join_row(p, catalog@, store@))),
{
    let ghost pred = |p: UserDecoRow| placement_visible(p, catalog@, store@, user_id, year, month);
    let ghost joinf = |p: UserDecoRow| spec_join_row(p, catalog@, store@);
    let mut r: Vec<UserDeco> = Vec::new();
    let mut i: usize = 0;
    assert(user_deco_views(r@) =~= placements@.subrange(0, 0).filter(pred).map_values(joinf));
    while i < placements.rows.len()
        invariant
            catalog.wf(),
            store.wf(),
            i <= placements@.len(),
            user_deco_views(r@) == placements@.subrange(0, i as int).filter(pred).map_values(
                joinf,
            ),
            pred == (|p: UserDecoRow|
                placement_visible(p, catalog@, store@, user_id, year, month)),
            joinf == (|p: UserDecoRow| spec_join_row(p, catalog@, store@)),
        decreases placements@.len() - i,
    {
        let p = placements.rows[i];
        proof {
            let sub = placements@.subrange(0, i as int);
            sub.lemma_filter_push(p, pred);
            assert(placements@.subrange(0, i + 1) =~= sub.push(p));
        }
        let visible = p.user_id == user_id && p.deco_id >= 1 && (p.deco_id as u64)
            <= (catalog.decos.len() as u64) && p.diary_id >= 1 && (p.diary_id as u64)
            <= (store.diaries.len() as u64);
        if visible {
            let deco_idx = (p.deco_id as u64 - 1) as usize;
            let diary_idx = (p.diary_id as u64 - 1) as usize;
            assert(deco_idx == p.deco_id - 1);
            assert(diary_idx == p.diary_id - 1);
            let deco = &catalog.decos[deco_idx];
            let diary = &store.diaries[diary_idx];
            if diary.user_id == user_id && (diary.local_date.year as i64) == (year as i64) && (
            diary.local_date.month as u32) == month {
                assert(pred(p));
                let row = UserDeco {
                    user_id: p.user_id,
                    deco_id: deco.id,
                    name: deco.name.clone(),
                    asset_link: deco.asset_link.clone(),
                    category: clone_opt_string(&deco.category),
                    display_name: clone_opt_string(&deco.display_name),
                    diary_id: diary.id,
                    created_at: diary.created_at,
                    local_date: diary.local_date,
                    audio_link: clone_opt_string(&diary.audio_link),
                    summary: clone_opt_string(&diary.summary),
                    is_private: diary.is_private,
                    is_placed: p.is_placed,
                    coordinates: p.coordinates,
                };
                assert(row@ =~= joinf(p));
                let ghost prev = user_deco_views(r@);
                r.push(row);
                assert(user_deco_views(r@) =~= prev.push(joinf(p)));
                assert(user_deco_views(r@) =~= placements@.subrange(0, i + 1).filter(
                    pred,
                ).map_values(joinf));
            } else {
                assert(!pred(p));
                assert(user_deco_views(r@) =~= placements@.subrange(0, i + 1).filter(
                    pred,
                ).map_values(joinf));
            }
        } else {
            assert(!pred(p));
            assert(user_deco_views(r@) =~= placements@.subrange(0, i + 1).filter(pred).map_values(
                joinf,
            ));
        }
        i += 1;
    }
    assert(placements@.subrange(0, placements@.len() as int) =~= placements@);
    r
}

} // verus!
