//! Resource tables: the immutable-after-load image and palette arrays. The
//! caller supplies exactly the fixed-capacity tables, pre-filling unused
//! entries with the empty image or palette.

use vstd::prelude::*;
use crate::image::Image;
use crate::palette::Palette;
use crate::{MAX_IMAGES, MAX_PALETTES};

verus! {

/// The immutable image and palette tables loaded once per session, indexed
/// by the numeric ids shared by host and cartridge.
pub struct ResourceTables {
    pub images: Vec<Image>,
    pub palettes: Vec<Palette>,
}

impl ResourceTables {
    /// The fixed table shape: full capacity on both tables, every image with
    /// 4-bit pixels only.
    pub open spec fn wf(self) -> bool {
        &&& self.images@.len() == MAX_IMAGES
        &&& self.palettes@.len() == MAX_PALETTES
        &&& forall|i: int| 0 <= i < MAX_IMAGES ==> (#[trigger] self.images@[i]).wf()
    }

    /// The loaded image table, as ghost state.
    pub open spec fn spec_images(self) -> Seq<Image> {
        self.images@
    }

    /// The loaded palette table, as ghost state.
    pub open spec fn spec_palettes(self) -> Seq<Palette> {
        self.palettes@
    }

    /// Builds the tables from exactly the fixed-capacity arrays. Missing
    /// entries must already be filled with `Image::empty` or
    /// `Palette::empty` by the caller; there is no other error path, since
    /// malformed blobs are rejected by the converter before reaching this
    /// layer.
    pub fn load(images: Vec<Image>, palettes: Vec<Palette>) -> (rt: ResourceTables)
        requires
            images@.len() == MAX_IMAGES,
            palettes@.len() == MAX_PALETTES,
            forall|i: int| 0 <= i < MAX_IMAGES ==> (#[trigger] images@[i]).wf(),
        ensures
            rt.wf(),
            rt.spec_images() == images@,
            rt.spec_palettes() == palettes@,
    {
        ResourceTables { images, palettes }
    }

    /// Reads one image by id.
    pub fn image(&self, id: u8) -> (img: &Image)
        requires
            self.wf(),
        ensures
            *img == self.spec_images()[id as int],
    {
        &self.images[id as usize]
    }

    /// Reads one palette by id. Only the low 4 bits of the id select a
    /// palette, so every id is in range.
    pub fn palette(&self, id: u8) -> (p: &Palette)
        requires
            self.wf(),
            id < MAX_PALETTES,
        ensures
            *p == self.spec_palettes()[id as int],
    {
        &self.palettes[id as usize]
    }
}

} // verus!
