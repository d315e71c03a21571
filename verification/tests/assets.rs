use sprite_scene::assets::{AssetCatalog, AssetError, TextureHandle};

#[test]
fn sheet_resolution_before_texture_load_is_refused() {
    let mut catalog = AssetCatalog::new();
    // A handle from nowhere: this catalog never issued it.
    let forged = TextureHandle { id: 0 };
    let r = catalog.load_sprite_sheet("sprites/fruits.ron", forged);
    assert_eq!(r, Err(AssetError::TextureNotLoaded));
}

#[test]
fn sheet_resolution_after_texture_load_succeeds() {
    let mut catalog = AssetCatalog::new();
    let texture = catalog.load_texture("sprites/fruits.png");
    let sheet = catalog.load_sprite_sheet("sprites/fruits.ron", texture).unwrap();
    assert_eq!(sheet.texture, texture);
}

#[test]
fn handles_are_issued_in_load_order() {
    let mut catalog = AssetCatalog::new();
    let first = catalog.load_texture("sprites/fruits.png");
    let second = catalog.load_texture("sprites/vegetables.png");
    assert_eq!(first.id, 0);
    assert_eq!(second.id, 1);

    let sheet_a = catalog.load_sprite_sheet("sprites/fruits.ron", first).unwrap();
    let sheet_b = catalog.load_sprite_sheet("sprites/vegetables.ron", second).unwrap();
    assert_eq!(sheet_a.id, 0);
    assert_eq!(sheet_b.id, 1);
}

#[test]
fn another_catalog_does_not_honor_foreign_handles() {
    let mut first_catalog = AssetCatalog::new();
    let texture = first_catalog.load_texture("sprites/fruits.png");

    let mut second_catalog = AssetCatalog::new();
    let r = second_catalog.load_sprite_sheet("sprites/fruits.ron", texture);
    assert_eq!(r, Err(AssetError::TextureNotLoaded));
}

#[test]
fn a_refused_sheet_load_changes_nothing() {
    let mut catalog = AssetCatalog::new();
    let texture = catalog.load_texture("sprites/fruits.png");
    let forged = TextureHandle { id: 5 };
    let r = catalog.load_sprite_sheet("sprites/fruits.ron", forged);
    assert_eq!(r, Err(AssetError::TextureNotLoaded));

    // The earlier texture is still the only asset: the next sheet load still
    // gets id 0 and still honors the old handle.
    let sheet = catalog.load_sprite_sheet("sprites/fruits.ron", texture).unwrap();
    assert_eq!(sheet.id, 0);
}
