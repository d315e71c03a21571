//! The scene initializer: given the screen dimensions, it computes the
//! camera entity and the three static sprite entities of the fruit scene.
//!
//! Coordinates are whole pixels. The camera sits at the screen center with
//! `z = 1` and its projection spans the whole screen; the sprites sit at
//! fixed offsets `(-100,-100)`, `(0,0)` and `(+100,+100)` from the center,
//! each at `z = 0` and marked transparent for back-to-front rendering. The
//! entity store that these descriptions are handed to is the host engine's.

use vstd::prelude::*;
use crate::assets::{AssetCatalog, SpriteSheetHandle};

verus! {

/// Sprite index of the banana rectangle in the fruit sheet.
pub const BANANA: usize = 0;

/// Sprite index of the cherries rectangle in the fruit sheet.
pub const CHERRIES: usize = 1;

/// Sprite index of the orange rectangle in the fruit sheet.
pub const ORANGE: usize = 2;

/// The screen size in whole pixels, read once at startup from the host
/// window. Both sides are expected positive.
#[derive(Clone, Copy, PartialEq, Eq, Structural, Debug)]
pub struct Dimensions {
    pub width: u32,
    pub height: u32,
}

impl Dimensions {
    /// A usable screen has a positive width and height.
    pub open spec fn wf(self) -> bool {
        self.width > 0 && self.height > 0
    }
}

/// A placement in the scene: pixel position and depth.
#[derive(Clone, Copy, PartialEq, Eq, Structural, Debug)]
pub struct Transform {
    pub x: i64,
    pub y: i64,
    pub z: i64,
}

/// The camera entity: a projection spanning `[0, view_width]` by
/// `[0, view_height]`, and a transform at the screen center.
#[derive(Clone, Copy, PartialEq, Eq, Structural, Debug)]
pub struct CameraEntity {
    pub view_width: u32,
    pub view_height: u32,
    pub transform: Transform,
}

/// A static sprite entity: which sheet rectangle to render, where, and the
/// transparent marker that asks the renderer for alpha blending.
#[derive(Clone, Copy, PartialEq, Eq, Structural, Debug)]
pub struct SpriteEntity {
    pub sheet: SpriteSheetHandle,
    pub sprite_number: usize,
    pub transform: Transform,
    pub transparent: bool,
}

/// The horizontal screen center in pixels (halving rounds down).
pub open spec fn center_x(d: Dimensions) -> int {
    d.width as int / 2
}

/// The vertical screen center in pixels (halving rounds down).
pub open spec fn center_y(d: Dimensions) -> int {
    d.height as int / 2
}

/// The camera stands at the screen center with depth 1 and sees the whole
/// screen.
pub open spec fn camera_placed(cam: CameraEntity, d: Dimensions) -> bool {
    &&& cam.view_width == d.width
    &&& cam.view_height == d.height
    &&& cam.transform.x == center_x(d)
    &&& cam.transform.y == center_y(d)
    &&& cam.transform.z == 1
}

/// A sprite showing rectangle `number`, offset `(dx, dy)` from the screen
/// center, at depth 0, carrying the transparent marker.
pub open spec fn well_placed_sprite(
    s: SpriteEntity,
    d: Dimensions,
    number: usize,
    dx: int,
    dy: int,
) -> bool {
    &&& s.sprite_number == number
    &&& s.transform.x == center_x(d) + dx
    &&& s.transform.y == center_y(d) + dy
    &&& s.transform.z == 0
    &&& s.transparent
}

/// The three fruit sprites: banana below-left of center, cherries at the
/// center, orange above-right, all sharing one sprite-sheet handle.
pub open spec fn sprites_placed(sprites: Seq<SpriteEntity>, d: Dimensions) -> bool {
    &&& sprites.len() == 3
    &&& well_placed_sprite(sprites[0], d, BANANA, -100, -100)
    &&& well_placed_sprite(sprites[1], d, CHERRIES, 0, 0)
    &&& well_placed_sprite(sprites[2], d, ORANGE, 100, 100)
    &&& sprites[1].sheet == sprites[0].sheet
    &&& sprites[2].sheet == sprites[0].sheet
}

/// The relative path of the sheet's backing image file.
pub open spec fn texture_path() -> Seq<char> {
    "sprites/fruits.png"@
}

/// The relative path of the sprite-sheet descriptor file.
pub open spec fn sheet_path() -> Seq<char> {
    "sprites/fruits.ron"@
}

/// Place the camera: centered on the screen, depth 1, projection covering
/// `[0, width]` by `[0, height]`.
pub fn place_camera(dims: &Dimensions) -> (cam: CameraEntity)
    requires
        dims.wf(),
    ensures
        camera_placed(cam, *dims),
{
    CameraEntity {
        view_width: dims.width,
        view_height: dims.height,
        transform: Transform {
            x: (dims.width / 2) as i64,
            y: (dims.height / 2) as i64,
            z: 1,
        },
    }
}

/// Describe one sprite entity at pixel position `(x, y)`, depth 0, with the
/// transparent marker.
pub fn sprite_at(sheet: &SpriteSheetHandle, sprite_number: usize, x: i64, y: i64) -> (s:
    SpriteEntity)
    ensures
        s.sheet == *sheet,
        s.sprite_number == sprite_number,
        s.transform == (Transform { x, y, z: 0 }),
        s.transparent,
{
    SpriteEntity {
        sheet: *sheet,
        sprite_number,
        transform: Transform { x, y, z: 0 },
        transparent: true,
    }
}

/// Resolve the fruit texture and its sprite sheet through `catalog`, in that
/// order, then describe the three sprite entities. The sheet resolution
/// cannot fail here, since the texture is loaded first.
pub fn place_sprites(catalog: &mut AssetCatalog, dims: &Dimensions) -> (sprites: Vec<SpriteEntity>)
    requires
        dims.wf(),
    ensures
        sprites_placed(sprites@, *dims),
        final(catalog).sheet_issued(sprites@[0].sheet),
        final(catalog).textures() == old(catalog).textures().push(texture_path()),
        final(catalog).sheets() == old(catalog).sheets().push(sheet_path()),
{
    let texture = catalog.load_texture("sprites/fruits.png");
    let sheet = match catalog.load_sprite_sheet("sprites/fruits.ron", texture) {
        Ok(handle) => handle,
        Err(_) => unreached(),
    };

    let cx: i64 = (dims.width / 2) as i64;
    let cy: i64 = (dims.height / 2) as i64;

    let mut sprites: Vec<SpriteEntity> = Vec::new();
    sprites.push(sprite_at(&sheet, BANANA, cx - 100, cy - 100));
    sprites.push(sprite_at(&sheet, CHERRIES, cx, cy));
    sprites.push(sprite_at(&sheet, ORANGE, cx + 100, cy + 100));
    sprites
}

/// Everything the startup callback creates: the camera and the three
/// sprites.
pub struct Scene {
    pub camera: CameraEntity,
    pub sprites: Vec<SpriteEntity>,
}

/// The one-shot startup step: place the camera, then resolve the assets and
/// place the sprites.
pub fn build_scene(catalog: &mut AssetCatalog, dims: &Dimensions) -> (scene: Scene)
    requires
        dims.wf(),
    ensures
        camera_placed(scene.camera, *dims),
        sprites_placed(scene.sprites@, *dims),
        final(catalog).sheet_issued(scene.sprites@[0].sheet),
        final(catalog).textures() == old(catalog).textures().push(texture_path()),
        final(catalog).sheets() == old(catalog).sheets().push(sheet_path()),
{
    let camera = place_camera(dims);
    let sprites = place_sprites(catalog, dims);
    Scene { camera, sprites }
}

} // verus!
