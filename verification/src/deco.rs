//! The decoration catalog: simple reads and writes around the core pipeline.
//!
//! A catalog entry is created the way a diary is captured: its asset is
//! uploaded to object storage first, and the row is only committed once the
//! upload succeeded — a failed upload leaves the catalog untouched.

use vstd::prelude::*;
use crate::date::CivilDateTime;
use crate::errors::{CaptureError, InputError, StorageError};
use crate::multipart::MultipartMetadata;
use crate::record::{clone_opt_string, opt_text_view};
use crate::store::StoreError;

verus! {

/// One decoration the catalog offers.
pub struct Deco {
    pub id: i64,
    pub created_at: CivilDateTime,
    pub updated_at: CivilDateTime,
    pub name: String,
    pub asset_link: String,
    pub category: Option<String>,
    pub is_valid: bool,
    pub display_name: Option<String>,
}

/// The mathematical value of a catalog entry.
pub struct DecoView {
    pub id: i64,
    pub created_at: CivilDateTime,
    pub updated_at: CivilDateTime,
    pub name: Seq<char>,
    pub asset_link: Seq<char>,
    pub category: Option<Seq<char>>,
    pub is_valid: bool,
    pub display_name: Option<Seq<char>>,
}

impl View for Deco {
    type V = DecoView;

    open spec fn view(&self) -> DecoView {
        DecoView {
            id: self.id,
            created_at: self.created_at,
            updated_at: self.updated_at,
            name: self.name@,
            asset_link: self.asset_link@,
            category: opt_text_view(self.category),
            is_valid: self.is_valid,
            display_name: opt_text_view(self.display_name),
        }
    }
}

impl Clone for Deco {
    /// A copy of a catalog entry holds the same value.
    fn clone(&self) -> (r: Self)
        ensures
            r@ == self@,
    {
        let r = Deco {
            id: self.id,
            created_at: self.created_at,
            updated_at: self.updated_at,
            name: self.name.clone(),
            asset_link: self.asset_link.clone(),
            category: clone_opt_string(&self.category),
            is_valid: self.is_valid,
            display_name: clone_opt_string(&self.display_name),
        };
        assert(r@ =~= self@);
        r
    }
}

/// What a caller supplies to create a catalog entry; the asset link is the
/// URL its uploaded asset came back under.
pub struct CreateDecoParams {
    pub name: String,
    pub display_name: Option<String>,
    pub category: Option<String>,
    pub asset_link: String,
    pub is_valid: bool,
}

/// A catalog read request.
pub struct GetDecoParams {
    pub deco_id: i64,
}

/// The views of a sequence of catalog entries.
pub open spec fn deco_views(s: Seq<Deco>) -> Seq<DecoView> {
    s.map_values(|d: Deco| d@)
}

/// Whether the catalog holds an entry with the given id.
pub open spec fn contains_deco_id(s: Seq<DecoView>, id: i64) -> bool {
    1 <= id && id <= s.len()
}

/// The freshly created catalog entry.
pub open spec fn spec_new_deco(
    id: i64,
    name: Seq<char>,
    display_name: Option<Seq<char>>,
    category: Option<Seq<char>>,
    asset_link: Seq<char>,
    is_valid: bool,
    now: CivilDateTime,
) -> DecoView {
    DecoView {
        id,
        created_at: now,
        updated_at: now,
        name,
        asset_link,
        category,
        is_valid,
        display_name,
    }
}

/// The table of catalog entries. Ids are server assigned, dense from 1.
pub struct DecoCatalog {
    pub decos: Vec<Deco>,
}

impl View for DecoCatalog {
    type V = Seq<DecoView>;

    open spec fn view(&self) -> Seq<DecoView> {
        deco_views(self.decos@)
    }
}

impl DecoCatalog {
    pub open spec fn wf(self) -> bool {
        forall|i: int|
            0 <= i < self@.len() ==> ((#[trigger] self@[i]).id == i + 1 && self@[i].created_at.wf()
                && self@[i].updated_at.wf())
    }

    /// An empty catalog.
    pub fn new() -> (r: DecoCatalog)
        ensures
            r.wf(),
            r@ == Seq::<DecoView>::empty(),
    {
        let r = DecoCatalog { decos: Vec::new() };
        assert(r@ =~= Seq::<DecoView>::empty());
        r
    }
}

/// Creates a catalog entry and returns the stored row, fresh id included.
pub fn create_deco(catalog: &mut DecoCatalog, params: CreateDecoParams, now: CivilDateTime) -> (r:
    Deco)
    requires
        old(catalog).wf(),
        now.wf(),
        old(catalog)@.len() < i64::MAX,
    ensures
        final(catalog).wf(),
        r@ == spec_new_deco(
            r.id,
            params.name@,
            opt_text_view(params.display_name),
            opt_text_view(params.category),
            params.asset_link@,
            params.is_valid,
            now,
        ),
        r.id == old(catalog)@.len() + 1,
        final(catalog)@ == old(catalog)@.push(r@),
{
    let id = (catalog.decos.len() as i64) + 1;
    let d = Deco {
        id,
        created_at: now,
        updated_at: now,
        name: params.name,
        asset_link: params.asset_link,
        category: params.category,
        is_valid: params.is_valid,
        display_name: params.display_name,
    };
    let r = d.clone();
    catalog.decos.push(d);
    assert(final(catalog)@ =~= old(catalog)@.push(r@));
    r
}

/// Reads one catalog entry by id; `NotFound` exactly when no entry carries
/// that id.
pub fn get_deco(catalog: &DecoCatalog, deco_id: i64) -> (r: Result<Deco, StoreError>)
    requires
        catalog.wf(),
    ensures
        match r {
            Ok(d) => contains_deco_id(catalog@, deco_id) && d@ == catalog@[deco_id - 1],
            Err(e) => e == StoreError::NotFound && !contains_deco_id(catalog@, deco_id),
        },
{
    if deco_id < 1 {
        return Err(StoreError::NotFound);
    }
    let len = catalog.decos.len();
    if deco_id as u64 > len as u64 {
        return Err(StoreError::NotFound);
    }
    let idx = (deco_id as u64 - 1) as usize;
    assert(idx == deco_id - 1);
    Ok(catalog.decos[idx].clone())
}

/// Whether an entry is offered to users at all.
pub open spec fn deco_available(d: DecoView) -> bool {
    d.is_valid
}

/// Reads every catalog entry currently offered: exactly the valid ones, in
/// catalog order.
pub fn get_available_decos(catalog: &DecoCatalog) -> (r: Vec<Deco>)
    requires
        catalog.wf(),
    ensures
        deco_views(r@) == catalog@.filter((|d: DecoView| deco_available(d))),
{
    let ghost pred = |d: DecoView| deco_available(d);
    let mut r: Vec<Deco> = Vec::new();
    let mut i: usize = 0;
    assert(deco_views(r@) =~= catalog@.subrange(0, 0).filter(pred));
    while i < catalog.decos.len()
        invariant
            catalog.wf(),
            i <= catalog@.len(),
            deco_views(r@) == catalog@.subrange(0, i as int).filter(pred),
            pred == (|d: DecoView| deco_available(d)),
        decreases catalog@.len() - i,
    {
        let d = &catalog.decos[i];
        proof {
            let sub = catalog@.subrange(0, i as int);
            let elt = catalog@[i as int];
            sub.lemma_filter_push(elt, pred);
            assert(catalog@.subrange(0, i + 1) =~= sub.push(elt));
            assert(elt == d@);
        }
        if d.is_valid {
            assert(pred(catalog@[i as int]));
            let ghost prev = deco_views(r@);
            r.push(d.clone());
            assert(deco_views(r@) =~= prev.push(d@));
            assert(deco_views(r@) == catalog@.subrange(0, i + 1).filter(pred));
        } else {
            assert(!pred(catalog@[i as int]));
            assert(deco_views(r@) == catalog@.subrange(0, i + 1).filter(pred));
        }
        i += 1;
    }
    assert(catalog@.subrange(0, catalog@.len() as int) =~= catalog@);
    r
}

/// The whole synchronous catalog creation: consume the one attachment,
/// upload it, and only then insert the row carrying the asset's URL — or
/// fail without touching the catalog at all.
pub fn create_deco_with_upload(
    catalog: &mut DecoCatalog,
    name: String,
    display_name: Option<String>,
    category: Option<String>,
    is_valid: bool,
    attachment: Option<(Vec<u8>, MultipartMetadata)>,
    now: CivilDateTime,
    upload: Result<String, StorageError>,
) -> (r: Result<Deco, CaptureError>)
    requires
        old(catalog).wf(),
        now.wf(),
        old(catalog)@.len() < i64::MAX,
    ensures
        final(catalog).wf(),
        r is Err ==> final(catalog)@ == old(catalog)@,
        match r {
            Ok(d) => {
                &&& attachment is Some
                &&& upload matches Ok(url) && d@ == spec_new_deco(
                    d.id,
                    name@,
                    opt_text_view(display_name),
                    opt_text_view(category),
                    url@,
                    is_valid,
                    now,
                )
                &&& d.id == old(catalog)@.len() + 1
                &&& final(catalog)@ == old(catalog)@.push(d@)
            },
            Err(CaptureError::Input(InputError::NoFileUploaded)) => attachment is None,
            Err(CaptureError::Storage(se)) => attachment is Some && (upload matches Err(ue) && se
                == ue),
            Err(CaptureError::Store(_)) => false,
        },
{
    if attachment.is_none() {
        return Err(CaptureError::Input(InputError::NoFileUploaded));
    }
    let url = match upload {
        Ok(u) => u,
        Err(e) => {
            return Err(CaptureError::Storage(e));
        },
    };
    let params = CreateDecoParams { name, display_name, category, asset_link: url, is_valid };
    Ok(create_deco(catalog, params, now))
}

} // verus!
