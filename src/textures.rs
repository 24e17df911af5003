use std::collections::HashSet;
use vstd::prelude::*;

verus! {

/// An RGBA colour.
#[derive(Clone, Copy, Debug, PartialEq, Eq, Structural)]
pub struct Color {
    pub r: u8,
    pub g: u8,
    pub b: u8,
    pub a: u8,
}

/// The colour given for a pixel outside the image: opaque blue.
pub open spec fn out_of_image() -> Color {
    Color { r: 0, g: 0, b: 255, a: 255 }
}

/// The texture id used for walls.
pub const WALL_TEXTURE_ID: u8 = 1;

/// The flat colour that stands in for texture `texture_id` when its pixels are not at hand.
pub open spec fn fallback_spec(texture_id: u8) -> Color {
    if texture_id == 1 {
        Color { r: 255, g: 0, b: 0, a: 255 }
    } else if texture_id == 2 {
        Color { r: 0, g: 0, b: 255, a: 255 }
    } else if texture_id == 3 {
        Color { r: 0, g: 128, b: 0, a: 255 }
    } else {
        Color { r: 255, g: 255, b: 255, a: 255 }
    }
}

/// Which textures loaded; the images themselves stay with the renderer.
pub struct TextureManager {
    loaded: HashSet<u8>,
}

impl TextureManager {
    pub closed spec fn loaded_view(&self) -> Set<u8> {
        self.loaded@
    }

    /// A manager for the textures whose ids are listed in `loaded`.
    pub fn new(loaded: Vec<u8>) -> (r: TextureManager)
        ensures
            r.loaded_view() == loaded@.to_set(),
    {
        broadcast use vstd::std_specs::hash::group_hash_axioms;

        let mut set: HashSet<u8> = HashSet::new();
        let mut i: usize = 0;
        while i < loaded.len()
            invariant
                i <= loaded@.len(),
                set@ == loaded@.subrange(0, i as int).to_set(),
            decreases loaded@.len() - i,
        {
            proof {
                assert(loaded@.subrange(0, i + 1) == loaded@.subrange(0, i as int).push(
                    loaded@[i as int],
                ));
                loaded@.subrange(0, i as int).lemma_push_to_set_commute(loaded@[i as int]);
            }
            set.insert(loaded[i]);
            i = i + 1;
        }
        assert(loaded@.subrange(0, loaded@.len() as int) == loaded@);
        TextureManager { loaded: set }
    }

    /// Whether texture `texture_id` loaded.
    pub fn has_texture(&self, texture_id: u8) -> (r: bool)
        ensures
            r == self.loaded_view().contains(texture_id),
    {
        broadcast use vstd::std_specs::hash::group_hash_axioms;

        self.loaded.contains(&texture_id)
    }

    /// The flat colour of texture `texture_id`: red, blue, green, or white for any
    /// other id, whatever the texel asked for.
    pub fn get_pixel_color(&self, texture_id: u8, _tx: u32, _ty: u32) -> (r: Color)
        ensures
            r == fallback_spec(texture_id),
    {
        if texture_id == 1 {
            Color { r: 255, g: 0, b: 0, a: 255 }
        } else if texture_id == 2 {
            Color { r: 0, g: 0, b: 255, a: 255 }
        } else if texture_id == 3 {
            Color { r: 0, g: 128, b: 0, a: 255 }
        } else {
            Color { r: 255, g: 255, b: 255, a: 255 }
        }
    }

    /// The texture of the wall in cell `(wall_x, wall_y)`: every wall uses the same one.
    pub fn get_wall_texture_id(&self, _wall_x: i64, _wall_y: i64) -> (r: u8)
        ensures
            r == WALL_TEXTURE_ID,
    {
        WALL_TEXTURE_ID
    }
}

/// The byte offset of pixel `(x, y)` in an RGBA image `width` pixels wide.
pub open spec fn pixel_offset(width: int, x: int, y: int) -> int {
    (y * width + x) * 4
}

/// The colour of pixel `(x, y)` of an RGBA image of `width` by `height` pixels stored
/// row by row in `data`; blue for a pixel outside the image or past the data.
pub open spec fn pixel_spec(data: Seq<u8>, width: int, height: int, x: int, y: int) -> Color {
    let i = pixel_offset(width, x, y);
    if x < 0 || y < 0 || x >= width || y >= height || i + 3 >= data.len() {
        out_of_image()
    } else {
        Color { r: data[i], g: data[i + 1], b: data[i + 2], a: data[i + 3] }
    }
}

/// Reads pixel `(x, y)` of an RGBA image.
pub fn get_pixel_color(data: &Vec<u8>, width: i32, height: i32, x: i32, y: i32) -> (r: Color)
    ensures
        r == pixel_spec(data@, width as int, height as int, x as int, y as int),
{
    if x < 0 || y < 0 || x >= width || y >= height {
        return Color { r: 0, g: 0, b: 255, a: 255 };
    }
    let w = width as u64;
    let xu = x as u64;
    let yu = y as u64;
    proof {
        assert(yu * w <= (i32::MAX as int) * (i32::MAX as int)) by (nonlinear_arith)
            requires
                yu <= i32::MAX,
                w <= i32::MAX,
        ;
    }
    let idx: u64 = (yu * w + xu) * 4;
    if idx + 3 >= data.len() as u64 {
        return Color { r: 0, g: 0, b: 255, a: 255 };
    }
    let i = idx as usize;
    Color { r: data[i], g: data[i + 1], b: data[i + 2], a: data[i + 3] }
}

} // verus!
