//! The asset catalog: the scene's view of the host engine's asset resolver.
//!
//! The resolver itself (file reading, image decoding, sheet parsing, caching)
//! belongs to the engine; this module models what the scene relies on: loads
//! hand out opaque handles in order, and a sprite sheet can only be resolved
//! against a texture handle that this catalog issued by a prior load, since
//! the sheet's descriptor references rectangles within that texture.

use vstd::prelude::*;
use vstd::string::StringExecFns;

verus! {

/// An opaque, shared handle to decoded image data. The backing data lives in
/// the engine's asset storage; the handle only records which load produced
/// it.
#[derive(Clone, Copy, PartialEq, Eq, Structural, Debug)]
pub struct TextureHandle {
    /// Position of the producing load in the catalog's texture load order.
    pub id: usize,
}

/// An opaque, shared handle to parsed sprite-sheet metadata. It holds the
/// handle of the texture whose rectangles the sheet describes.
#[derive(Clone, Copy, PartialEq, Eq, Structural, Debug)]
pub struct SpriteSheetHandle {
    /// Position of the producing load in the catalog's sheet load order.
    pub id: usize,
    /// The texture the sheet's rectangles index into.
    pub texture: TextureHandle,
}

/// Why an asset request was refused.
#[derive(Clone, Copy, PartialEq, Eq, Structural, Debug)]
pub enum AssetError {
    /// The texture handle given for a sprite sheet was not issued by a prior
    /// texture load of this catalog.
    TextureNotLoaded,
}

/// One scene's record of asset loads, in order. Handles index into these
/// records, so a handle is valid exactly when some prior load produced it.
pub struct AssetCatalog {
    texture_paths: Vec<String>,
    sheet_paths: Vec<String>,
}

impl AssetCatalog {
    /// The paths of the textures loaded so far, in load order.
    pub closed spec fn textures(self) -> Seq<Seq<char>> {
        self.texture_paths@.map_values(|p: String| p@)
    }

    /// The paths of the sprite sheets loaded so far, in load order.
    pub closed spec fn sheets(self) -> Seq<Seq<char>> {
        self.sheet_paths@.map_values(|p: String| p@)
    }

    /// A texture handle is valid for this catalog exactly when a prior
    /// texture load produced it.
    pub open spec fn texture_issued(self, handle: TextureHandle) -> bool {
        handle.id < self.textures().len()
    }

    /// A sheet handle is valid for this catalog exactly when a prior sheet
    /// load produced it, against a texture this catalog had issued.
    pub open spec fn sheet_issued(self, handle: SpriteSheetHandle) -> bool {
        handle.id < self.sheets().len() && self.texture_issued(handle.texture)
    }

    /// A fresh catalog with no assets loaded.
    pub fn new() -> (catalog: AssetCatalog)
        ensures
            catalog.textures() == Seq::<Seq<char>>::empty(),
            catalog.sheets() == Seq::<Seq<char>>::empty(),
    {
        let catalog = AssetCatalog { texture_paths: Vec::new(), sheet_paths: Vec::new() };
        proof {
            assert(catalog.textures() =~= Seq::<Seq<char>>::empty());
            assert(catalog.sheets() =~= Seq::<Seq<char>>::empty());
        }
        catalog
    }

    /// Load the image file at `path` and hand out a texture handle. The
    /// decoding itself is the engine's business and may complete lazily; the
    /// handle is valid for this catalog from here on.
    pub fn load_texture(&mut self, path: &str) -> (handle: TextureHandle)
        ensures
            final(self).textures() == old(self).textures().push(path@),
            final(self).sheets() == old(self).sheets(),
            handle.id == old(self).textures().len(),
            final(self).texture_issued(handle),
    {
        let handle = TextureHandle { id: self.texture_paths.len() };
        self.texture_paths.push(String::from_str(path));
        proof {
            assert(self.textures() =~= old(self).textures().push(path@));
        }
        handle
    }

    /// Load the sprite-sheet descriptor at `path`, whose rectangles index
    /// into `texture`. Succeeds exactly when `texture` came from a prior
    /// `load_texture` on this catalog; a handle from nowhere is refused, so a
    /// sheet can never be resolved before its texture.
    pub fn load_sprite_sheet(&mut self, path: &str, texture: TextureHandle) -> (r: Result<
        SpriteSheetHandle,
        AssetError,
    >)
        ensures
            r is Ok <==> old(self).texture_issued(texture),
            r matches Ok(handle) ==> {
                &&& handle.texture == texture
                &&& handle.id == old(self).sheets().len()
                &&& final(self).sheet_issued(handle)
                &&& final(self).sheets() == old(self).sheets().push(path@)
                &&& final(self).textures() == old(self).textures()
            },
            r matches Err(e) ==> e == AssetError::TextureNotLoaded && *final(self) == *old(self),
    {
        if texture.id < self.texture_paths.len() {
            let handle = SpriteSheetHandle { id: self.sheet_paths.len(), texture };
            self.sheet_paths.push(String::from_str(path));
            proof {
                assert(self.sheets() =~= old(self).sheets().push(path@));
            }
            Ok(handle)
        } else {
            Err(AssetError::TextureNotLoaded)
        }
    }
}

} // verus!
