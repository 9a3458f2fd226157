//! Sprite-atlas resolution: find a named sub-rectangle in a sheet, turn
//! it into a normalized UV box, and place the sprite in world space.
//!
//! A UV coordinate is a pixel offset divided by a sheet dimension; the
//! division is kept symbolic — numerator over denominator — so the box
//! is exact. A half-image background stores only the top half of its
//! picture: the composer draws it twice, the second copy one sprite
//! height lower with its V bounds swapped, mirroring the pixels
//! vertically to synthesize the full image.

use vstd::prelude::*;

use crate::camera::Camera;
use crate::geom::{Pos, ScreenRect, COORD_LIMIT};
use crate::text::string_eq;
use crate::tree::{spec_sprite_ok, Sprite, SpriteCoords};

verus! {

/// A normalized UV rectangle, each bound an exact fraction: pixel
/// numerator over sheet-dimension denominator.
#[derive(Debug, PartialEq, Eq, Structural, Clone, Copy)]
pub struct UvRect {
    pub u_min_num: usize,
    pub v_min_num: usize,
    pub u_max_num: usize,
    pub v_max_num: usize,
    pub u_den: usize,
    pub v_den: usize,
}

/// A screen rectangle textured with a UV box.
#[derive(Debug, PartialEq, Eq, Structural, Clone, Copy)]
pub struct TexturedRect {
    pub rect: ScreenRect,
    pub uv: UvRect,
}

/// First entry with the given name, in insertion order. The source data
/// keys are unique, so this is exactly the map lookup.
pub open spec fn spec_sprite_lookup(coords: Seq<(String, SpriteCoords)>, name: Seq<char>) -> Option<
    SpriteCoords,
>
    decreases coords.len(),
{
    if coords.len() == 0 {
        Option::None
    } else if coords[0].0@ == name {
        Option::Some(coords[0].1)
    } else {
        spec_sprite_lookup(coords.drop_first(), name)
    }
}

/// The UV box of a sub-rectangle inside a sheet of the given dimensions.
pub open spec fn spec_uv_rect(c: SpriteCoords, sheet_w: usize, sheet_h: usize) -> UvRect {
    UvRect {
        u_min_num: c.x,
        v_min_num: c.y,
        u_max_num: (c.x + c.w) as usize,
        v_max_num: (c.y + c.h) as usize,
        u_den: sheet_w,
        v_den: sheet_h,
    }
}

/// The same UV box mirrored vertically: V bounds swapped, U kept.
pub open spec fn spec_uv_flipped(uv: UvRect) -> UvRect {
    UvRect {
        u_min_num: uv.u_min_num,
        v_min_num: uv.v_max_num,
        u_max_num: uv.u_max_num,
        v_max_num: uv.v_min_num,
        u_den: uv.u_den,
        v_den: uv.v_den,
    }
}

/// Half-image symmetry: the mirrored UV box swaps exactly the V bounds
/// and shares the U bounds and denominators of the upright box.
pub proof fn lemma_half_image_symmetry(c: SpriteCoords, sheet_w: usize, sheet_h: usize)
    ensures
        ({
            let top = spec_uv_rect(c, sheet_w, sheet_h);
            let bottom = spec_uv_flipped(top);
            &&& bottom.u_min_num == top.u_min_num
            &&& bottom.u_max_num == top.u_max_num
            &&& bottom.u_den == top.u_den
            &&& bottom.v_den == top.v_den
            &&& bottom.v_min_num == top.v_max_num
            &&& bottom.v_max_num == top.v_min_num
        }),
{
}

/// A sub-rectangle found in an intact sheet lies inside the sheet.
pub proof fn lemma_lookup_in_sheet(s: Sprite, name: Seq<char>)
    requires
        spec_sprite_ok(s),
    ensures
        spec_sprite_lookup(s.coords@, name) matches Option::Some(c) ==> c.x + c.w <= s.w && c.y
            + c.h <= s.h,
{
    lemma_lookup_in_prefix(s.coords@, name);
    assert forall|k: int| 0 <= k < s.coords@.len() implies (#[trigger] s.coords@[k]).1.x
        + s.coords@[k].1.w <= s.w && s.coords@[k].1.y + s.coords@[k].1.h <= s.h by {}
}

/// A successful lookup returns one of the sequence's entries.
proof fn lemma_lookup_in_prefix(coords: Seq<(String, SpriteCoords)>, name: Seq<char>)
    ensures
        spec_sprite_lookup(coords, name) matches Option::Some(c) ==> exists|k: int|
            0 <= k < coords.len() && (#[trigger] coords[k]).1 == c,
    decreases coords.len(),
{
    if coords.len() > 0 {
        if coords[0].0@ == name {
            assert(coords[0].1 == spec_sprite_lookup(coords, name)->Some_0);
        } else {
            lemma_lookup_in_prefix(coords.drop_first(), name);
            if spec_sprite_lookup(coords.drop_first(), name) is Some {
                let c = spec_sprite_lookup(coords.drop_first(), name)->Some_0;
                let k = choose|k: int|
                    0 <= k < coords.drop_first().len() && (#[trigger] coords.drop_first()[k]).1
                        == c;
                assert(coords[k + 1].1 == c);
            }
        }
    }
}

impl Sprite {
    /// Find a named sub-rectangle in this sheet; absent names are simply
    /// not drawn, never an error.
    pub fn get(&self, name: &String) -> (r: Option<SpriteCoords>)
        ensures
            r == spec_sprite_lookup(self.coords@, name@),
    {
        let mut i: usize = 0;
        proof {
            assert(self.coords@.skip(0) =~= self.coords@);
        }
        while i < self.coords.len()
            invariant
                0 <= i <= self.coords@.len(),
                spec_sprite_lookup(self.coords@, name@) == spec_sprite_lookup(
                    self.coords@.skip(i as int),
                    name@,
                ),
            decreases self.coords@.len() - i,
        {
            let entry = &self.coords[i];
            proof {
                assert(self.coords@.skip(i as int)[0] == self.coords@[i as int]);
                assert(self.coords@.skip(i as int).drop_first() =~= self.coords@.skip(i as int + 1));
            }
            if string_eq(&entry.0, name) {
                return Option::Some(entry.1);
            }
            i = i + 1;
        }
        Option::None
    }

    /// Resolve a sprite name to its normalized UV box and pixel size:
    /// `None` exactly when the sheet has no such name.
    pub fn uv_rect(&self, name: &String) -> (r: Option<(UvRect, usize, usize)>)
        requires
            spec_sprite_ok(*self),
        ensures
            match spec_sprite_lookup(self.coords@, name@) {
                Option::Some(c) => r == Option::Some(
                    (spec_uv_rect(c, self.w, self.h), c.w, c.h),
                ),
                Option::None => r is None,
            },
    {
        match self.get(name) {
            Option::Some(c) => {
                proof {
                    lemma_lookup_in_sheet(*self, name@);
                }
                Option::Some(
                    (
                        UvRect {
                            u_min_num: c.x,
                            v_min_num: c.y,
                            u_max_num: c.x + c.w,
                            v_max_num: c.y + c.h,
                            u_den: self.w,
                            v_den: self.h,
                        },
                        c.w,
                        c.h,
                    ),
                )
            },
            Option::None => Option::None,
        }
    }
}

/// The world placement of a sprite anchored at `pos`, already mapped to
/// the screen: one textured rectangle, or — for a half-image asset — a
/// top copy and a vertically mirrored bottom copy one sprite height
/// lower. The sprite extends four thirds of its pixel size from the
/// anchor on each side.
pub open spec fn spec_asset_parts(
    c: SpriteCoords,
    sheet_w: usize,
    sheet_h: usize,
    pos: Pos,
    is_half: bool,
    cam: Camera,
) -> Seq<TexturedRect> {
    let w = c.w * 1_330_000;
    let h = c.h * 1_330_000;
    let uv = spec_uv_rect(c, sheet_w, sheet_h);
    if is_half {
        seq![
            TexturedRect {
                rect: ScreenRect {
                    min: cam.spec_world_to_screen(
                        Pos { x: (pos.x - w) as i64, y: (pos.y - 2 * h) as i64 },
                    ),
                    max: cam.spec_world_to_screen(Pos { x: (pos.x + w) as i64, y: pos.y }),
                },
                uv: uv,
            },
            TexturedRect {
                rect: ScreenRect {
                    min: cam.spec_world_to_screen(Pos { x: (pos.x - w) as i64, y: pos.y }),
                    max: cam.spec_world_to_screen(
                        Pos { x: (pos.x + w) as i64, y: (pos.y + 2 * h) as i64 },
                    ),
                },
                uv: spec_uv_flipped(uv),
            },
        ]
    } else {
        seq![
            TexturedRect {
                rect: ScreenRect {
                    min: cam.spec_world_to_screen(
                        Pos { x: (pos.x - w) as i64, y: (pos.y - h) as i64 },
                    ),
                    max: cam.spec_world_to_screen(
                        Pos { x: (pos.x + w) as i64, y: (pos.y + h) as i64 },
                    ),
                },
                uv: uv,
            },
        ]
    }
}

/// The placement bounds `draw_asset` needs: the sprite's world rectangle
/// stays inside the camera's coordinate range.
pub open spec fn spec_asset_pos_ok(pos: Pos) -> bool {
    &&& -COORD_LIMIT <= pos.x - 2_000_000_000_000
    &&& pos.x + 2_000_000_000_000 <= COORD_LIMIT
    &&& -COORD_LIMIT <= pos.y - 3_000_000_000_000
    &&& pos.y + 3_000_000_000_000 <= COORD_LIMIT
}

/// Place a sprite in world space and resolve its UV box: one textured
/// rectangle centered on `pos`, or — for a half-image asset — a top copy
/// and a vertically mirrored bottom copy one sprite height lower.
pub fn draw_asset(sprite: &SpriteCoords, sheet: &Sprite, pos: Pos, is_half: bool, camera: &Camera)
    -> (parts: Vec<TexturedRect>)
    requires
        spec_sprite_ok(*sheet),
        sprite.x + sprite.w <= sheet.w,
        sprite.y + sprite.h <= sheet.h,
        camera.wf(),
        spec_asset_pos_ok(pos),
    ensures
        parts@ == spec_asset_parts(*sprite, sheet.w, sheet.h, pos, is_half, *camera),
        parts@.len() == if is_half {
            2int
        } else {
            1int
        },
{
    let width = (sprite.w as i64) * 1_330_000;
    let height = (sprite.h as i64) * 1_330_000;
    let uv = UvRect {
        u_min_num: sprite.x,
        v_min_num: sprite.y,
        u_max_num: sprite.x + sprite.w,
        v_max_num: sprite.y + sprite.h,
        u_den: sheet.w,
        v_den: sheet.h,
    };
    let mut parts: Vec<TexturedRect> = Vec::new();
    if is_half {
        let top_rect = camera.rect_with_size(
            Pos { x: pos.x - width, y: pos.y - 2 * height },
            2 * width,
            2 * height,
        );
        let bottom_rect = camera.rect_with_size(
            Pos { x: pos.x - width, y: pos.y },
            2 * width,
            2 * height,
        );
        let bottom_uv = UvRect {
            u_min_num: uv.u_min_num,
            v_min_num: uv.v_max_num,
            u_max_num: uv.u_max_num,
            v_max_num: uv.v_min_num,
            u_den: uv.u_den,
            v_den: uv.v_den,
        };
        parts.push(TexturedRect { rect: top_rect, uv });
        parts.push(TexturedRect { rect: bottom_rect, uv: bottom_uv });
        proof {
            assert(parts@ =~= spec_asset_parts(*sprite, sheet.w, sheet.h, pos, is_half, *camera));
        }
    } else {
        let rect = camera.rect_with_size(
            Pos { x: pos.x - width, y: pos.y - height },
            2 * width,
            2 * height,
        );
        parts.push(TexturedRect { rect, uv });
        proof {
            assert(parts@ =~= spec_asset_parts(*sprite, sheet.w, sheet.h, pos, is_half, *camera));
        }
    }
    parts
}

} // verus!
