use recordiary::date::{CivilDate, CivilDateTime};
use recordiary::deco::{
    create_deco, create_deco_with_upload, get_available_decos, get_deco, CreateDecoParams,
    DecoCatalog, GetDecoParams,
};
use recordiary::errors::{CaptureError, StorageError};
use recordiary::multipart::MultipartMetadata;
use recordiary::record::DiaryParams;
use recordiary::room::{
    create_user_deco, get_user_deco_of_month, update_user_deco, Coordinates, PlacementStore,
};
use recordiary::store::{insert_diary, RecordStore, StoreError};

fn at(year: i32, month: u8, day: u8) -> CivilDateTime {
    CivilDateTime::new(CivilDate::new(year, month, day).unwrap(), 0).unwrap()
}

fn params(name: &str, valid: bool) -> CreateDecoParams {
    CreateDecoParams {
        name: name.to_string(),
        display_name: None,
        category: Some("plant".to_string()),
        asset_link: format!("https://x/{name}.glb"),
        is_valid: valid,
    }
}

#[test]
fn catalog_create_then_get_returns_the_row() {
    let mut catalog = DecoCatalog::new();
    let created = create_deco(&mut catalog, params("fern", true), at(2024, 1, 1));
    assert_eq!(created.id, 1);
    let q = GetDecoParams { deco_id: created.id };
    let fetched = get_deco(&catalog, q.deco_id).unwrap();
    assert_eq!(fetched.name, "fern");
    assert_eq!(fetched.asset_link, "https://x/fern.glb");
    assert!(matches!(get_deco(&catalog, 2), Err(StoreError::NotFound)));
}

#[test]
fn only_valid_decos_are_available() {
    let mut catalog = DecoCatalog::new();
    create_deco(&mut catalog, params("fern", true), at(2024, 1, 1));
    create_deco(&mut catalog, params("broken", false), at(2024, 1, 1));
    create_deco(&mut catalog, params("lamp", true), at(2024, 1, 1));
    let avail = get_available_decos(&catalog);
    assert_eq!(avail.len(), 2);
    assert_eq!(avail[0].name, "fern");
    assert_eq!(avail[1].name, "lamp");
}

#[test]
fn deco_creation_rolls_back_on_upload_failure() {
    let mut catalog = DecoCatalog::new();
    let meta = MultipartMetadata::from_fields(None, None, None);
    let r = create_deco_with_upload(
        &mut catalog,
        "fern".to_string(),
        None,
        None,
        true,
        Some((vec![1u8], meta)),
        at(2024, 1, 1),
        Err(StorageError::new("storage down".to_string())),
    );
    assert!(matches!(r, Err(CaptureError::Storage(_))));
    assert_eq!(catalog.decos.len(), 0);
}

#[test]
fn deco_creation_stores_the_uploaded_asset_url() {
    let mut catalog = DecoCatalog::new();
    let meta = MultipartMetadata::from_fields(None, None, None);
    let d = create_deco_with_upload(
        &mut catalog,
        "fern".to_string(),
        Some("Fern".to_string()),
        Some("plant".to_string()),
        true,
        Some((vec![1u8], meta)),
        at(2024, 1, 1),
        Ok("https://x/fern.glb".to_string()),
    )
    .unwrap();
    assert_eq!(d.asset_link, "https://x/fern.glb");
    assert_eq!(catalog.decos.len(), 1);
}

#[test]
fn room_view_joins_placements_with_catalog_and_records() {
    let owner: u128 = 21;
    let mut catalog = DecoCatalog::new();
    let deco = create_deco(&mut catalog, params("fern", true), at(2024, 1, 1));

    let mut store = RecordStore::new();
    let mut tx = store.begin();
    let in_month = insert_diary(
        &mut tx,
        DiaryParams::new(owner, Some("https://x/a".to_string()), None, false),
        at(2024, 5, 10),
    );
    let out_of_month = insert_diary(
        &mut tx,
        DiaryParams::new(owner, Some("https://x/b".to_string()), None, false),
        at(2024, 6, 2),
    );
    tx.commit(&mut store);

    let mut placements = PlacementStore::new();
    create_user_deco(&mut placements, owner, in_month, deco.id);
    create_user_deco(&mut placements, owner, out_of_month, deco.id);
    create_user_deco(&mut placements, 99, in_month, deco.id);

    let room = get_user_deco_of_month(&placements, &catalog, &store, owner, 2024, 5);
    assert_eq!(room.len(), 1);
    assert_eq!(room[0].diary_id, in_month);
    assert_eq!(room[0].name, "fern");
    assert!(!room[0].is_placed);
    assert!(room[0].coordinates.is_none());
}

#[test]
fn placement_update_touches_only_the_named_triple() {
    let owner: u128 = 21;
    let mut placements = PlacementStore::new();
    create_user_deco(&mut placements, owner, 1, 1);
    create_user_deco(&mut placements, owner, 1, 2);
    let pos = Coordinates::new(3, 0, -2, 1).unwrap();
    update_user_deco(&mut placements, owner, 1, 2, true, Some(pos));
    assert!(!placements.rows[0].is_placed);
    assert!(placements.rows[0].coordinates.is_none());
    assert!(placements.rows[1].is_placed);
    assert_eq!(placements.rows[1].coordinates, Some(pos));
}
