//! The software compositor. Each frame it clears the canvas to a background
//! color, lays the background tile grid over it, then walks the sprite list
//! in slot order — later slots draw on top of earlier ones, which is the
//! only z-order rule — and finally the finished canvas can be scaled to the
//! display surface with nearest-neighbor sampling.
//!
//! A resolved color whose alpha nibble is zero contributes nothing; any
//! other color replaces the pixel. Image ids always fit the image table and
//! palette ids are read from their 4-bit fields, so no id can be out of
//! range.

use vstd::prelude::*;
use crate::color::spec_alpha;
use crate::image::Image;
use crate::resources::ResourceTables;
use crate::scene::Scene;
use crate::sprite::{spec_flip_x, spec_flip_y, spec_palette_id, Sprite};
use crate::{
    BACKGROUND_CANVAS_WIDTH, IMAGE_SIZE, MAX_SPRITES, RESOLUTION_HEIGHT, RESOLUTION_SIZE,
    RESOLUTION_WIDTH,
};

verus! {

/// The palette index an image yields at local coordinates `(lx, ly)` once
/// the flips are applied: flip-X mirrors the column, flip-Y the row.
pub open spec fn spec_image_index(img: Image, fx: bool, fy: bool, lx: int, ly: int) -> u8
    recommends
        0 <= lx < IMAGE_SIZE,
        0 <= ly < IMAGE_SIZE,
{
    let sx = if fx {
        IMAGE_SIZE - 1 - lx
    } else {
        lx
    };
    let sy = if fy {
        IMAGE_SIZE - 1 - ly
    } else {
        ly
    };
    img.0@[sy * IMAGE_SIZE + sx]
}

/// Whether canvas pixel `(x, y)` falls inside the 16 by 16 footprint of the
/// sprite.
pub open spec fn spec_sprite_covers(s: Sprite, x: int, y: int) -> bool {
    s.x <= x < s.x + IMAGE_SIZE && s.y <= y < s.y + IMAGE_SIZE
}

/// The color the sprite resolves at canvas pixel `(x, y)`: its image
/// sampled with the flips applied, looked up in the palette its transform
/// byte selects.
pub open spec fn spec_sprite_color(rt: ResourceTables, s: Sprite, x: int, y: int) -> u16
    recommends
        rt.wf(),
        spec_sprite_covers(s, x, y),
{
    let idx = spec_image_index(
        rt.spec_images()[s.image_id as int],
        spec_flip_x(s.palette_transform),
        spec_flip_y(s.palette_transform),
        x - s.x,
        y - s.y,
    );
    rt.spec_palettes()[spec_palette_id(s.palette_transform) as int].0@[idx as int]
}

/// Whether the sprite contributes to canvas pixel `(x, y)`: it covers the
/// pixel and resolves a color that is not fully transparent.
pub open spec fn spec_sprite_opaque_at(rt: ResourceTables, s: Sprite, x: int, y: int) -> bool {
    spec_sprite_covers(s, x, y) && spec_alpha(spec_sprite_color(rt, s, x, y)) != 0
}

/// The color of the background layer at canvas pixel `(x, y)`: the tile
/// under the pixel, sampled without flips, or the clear color where the
/// tile's color is fully transparent. The grid is offset by the one-tile
/// scroll margin, so tile column 1 starts at pixel column 0.
pub open spec fn spec_background_color(
    rt: ResourceTables,
    scene: Scene,
    clear: u16,
    x: int,
    y: int,
) -> u16
    recommends
        rt.wf(),
        0 <= x < RESOLUTION_WIDTH,
        0 <= y < RESOLUTION_HEIGHT,
{
    let tile = scene.background@[((y + IMAGE_SIZE) / IMAGE_SIZE as int) * BACKGROUND_CANVAS_WIDTH
        + (x + IMAGE_SIZE) / IMAGE_SIZE as int];
    let idx = rt.spec_images()[tile.image_id as int].0@[((y + IMAGE_SIZE) % IMAGE_SIZE as int)
        * IMAGE_SIZE + (x + IMAGE_SIZE) % IMAGE_SIZE as int];
    let c = rt.spec_palettes()[spec_palette_id(tile.palette_id) as int].0@[idx as int];
    if spec_alpha(c) == 0 {
        clear
    } else {
        c
    }
}

/// The color of canvas pixel `(x, y)` after compositing the first `n`
/// sprite slots over the background layer, in slot order.
pub open spec fn spec_frame_upto(
    rt: ResourceTables,
    scene: Scene,
    clear: u16,
    n: int,
    x: int,
    y: int,
) -> u16
    recommends
        rt.wf(),
        0 <= n <= MAX_SPRITES,
        0 <= x < RESOLUTION_WIDTH,
        0 <= y < RESOLUTION_HEIGHT,
    decreases n,
{
    if n <= 0 {
        spec_background_color(rt, scene, clear, x, y)
    } else if spec_sprite_opaque_at(rt, scene.foreground@[n - 1], x, y) {
        spec_sprite_color(rt, scene.foreground@[n - 1], x, y)
    } else {
        spec_frame_upto(rt, scene, clear, n - 1, x, y)
    }
}

/// The final color of canvas pixel `(x, y)`: every sprite slot composited
/// over the background layer.
pub open spec fn spec_frame_color(
    rt: ResourceTables,
    scene: Scene,
    clear: u16,
    x: int,
    y: int,
) -> u16 {
    spec_frame_upto(rt, scene, clear, MAX_SPRITES as int, x, y)
}

/// Sprite slots that contribute nothing to a pixel leave its color alone.
proof fn lemma_frame_skip(
    rt: ResourceTables,
    scene: Scene,
    clear: u16,
    j: int,
    n: int,
    x: int,
    y: int,
)
    requires
        0 <= j <= n <= MAX_SPRITES,
        forall|k: int| j <= k < n ==> !spec_sprite_opaque_at(rt, scene.foreground@[k], x, y),
    ensures
        spec_frame_upto(rt, scene, clear, n, x, y) == spec_frame_upto(rt, scene, clear, j, x, y),
    decreases n - j,
{
    if j < n {
        lemma_frame_skip(rt, scene, clear, j, n - 1, x, y);
    }
}

/// Later slots draw on top of earlier ones: wherever two sprites at slots
/// `i < j` both resolve an opaque color and no later slot contributes, the
/// composited pixel is slot `j`'s color.
pub proof fn lemma_draw_order(
    rt: ResourceTables,
    scene: Scene,
    clear: u16,
    i: int,
    j: int,
    x: int,
    y: int,
)
    requires
        0 <= i < j < MAX_SPRITES,
        spec_sprite_opaque_at(rt, scene.foreground@[i], x, y),
        spec_sprite_opaque_at(rt, scene.foreground@[j], x, y),
        forall|k: int| j < k < MAX_SPRITES ==> !spec_sprite_opaque_at(rt, scene.foreground@[k], x, y),
    ensures
        spec_frame_color(rt, scene, clear, x, y) == spec_sprite_color(
            rt,
            scene.foreground@[j],
            x,
            y,
        ),
{
    lemma_frame_skip(rt, scene, clear, j + 1, MAX_SPRITES as int, x, y);
}

/// With flip-X enabled a sprite shows, at destination `(x, y)`, the pixel
/// its unflipped twin shows at the mirrored destination column
/// `(w - 1 - lx)` of its footprint; the palette resolution is unchanged.
pub proof fn lemma_flip_x_mirrors(rt: ResourceTables, s: Sprite, t: Sprite, x: int, y: int)
    requires
        spec_flip_x(s.palette_transform),
        !spec_flip_x(t.palette_transform),
        spec_flip_y(s.palette_transform) == spec_flip_y(t.palette_transform),
        spec_palette_id(s.palette_transform) == spec_palette_id(t.palette_transform),
        s.image_id == t.image_id,
        s.x == t.x,
        s.y == t.y,
        spec_sprite_covers(s, x, y),
    ensures
        spec_sprite_covers(t, s.x + (IMAGE_SIZE - 1) - (x - s.x), y),
        spec_sprite_color(rt, s, x, y) == spec_sprite_color(
            rt,
            t,
            s.x + (IMAGE_SIZE - 1) - (x - s.x),
            y,
        ),
{
}

/// With flip-Y enabled a sprite shows, at destination `(x, y)`, the pixel
/// its unflipped twin shows at the mirrored destination row of its
/// footprint; the palette resolution is unchanged.
pub proof fn lemma_flip_y_mirrors(rt: ResourceTables, s: Sprite, t: Sprite, x: int, y: int)
    requires
        spec_flip_y(s.palette_transform),
        !spec_flip_y(t.palette_transform),
        spec_flip_x(s.palette_transform) == spec_flip_x(t.palette_transform),
        spec_palette_id(s.palette_transform) == spec_palette_id(t.palette_transform),
        s.image_id == t.image_id,
        s.x == t.x,
        s.y == t.y,
        spec_sprite_covers(s, x, y),
    ensures
        spec_sprite_covers(t, x, s.y + (IMAGE_SIZE - 1) - (y - s.y)),
        spec_sprite_color(rt, s, x, y) == spec_sprite_color(
            rt,
            t,
            x,
            s.y + (IMAGE_SIZE - 1) - (y - s.y),
        ),
{
}

/// With both flips enabled a sprite shows, at destination `(x, y)`, the
/// pixel its unflipped twin shows at the destination mirrored in both axes
/// of its footprint: the flips compose.
pub proof fn lemma_flip_both_mirrors(rt: ResourceTables, s: Sprite, t: Sprite, x: int, y: int)
    requires
        spec_flip_x(s.palette_transform),
        spec_flip_y(s.palette_transform),
        !spec_flip_x(t.palette_transform),
        !spec_flip_y(t.palette_transform),
        spec_palette_id(s.palette_transform) == spec_palette_id(t.palette_transform),
        s.image_id == t.image_id,
        s.x == t.x,
        s.y == t.y,
        spec_sprite_covers(s, x, y),
    ensures
        spec_sprite_covers(t, s.x + (IMAGE_SIZE - 1) - (x - s.x), s.y + (IMAGE_SIZE - 1) - (y
            - s.y)),
        spec_sprite_color(rt, s, x, y) == spec_sprite_color(
            rt,
            t,
            s.x + (IMAGE_SIZE - 1) - (x - s.x),
            s.y + (IMAGE_SIZE - 1) - (y - s.y),
        ),
{
}

/// The sprite's contribution to canvas pixel `(x, y)`: its resolved color,
/// or nothing where it does not cover the pixel or resolves a fully
/// transparent color.
fn sprite_pixel(rt: &ResourceTables, s: &Sprite, x: usize, y: usize) -> (r: Option<u16>)
    requires
        rt.wf(),
        x < RESOLUTION_WIDTH,
        y < RESOLUTION_HEIGHT,
    ensures
        r is Some <==> spec_sprite_opaque_at(*rt, *s, x as int, y as int),
        r is Some ==> r->Some_0 == spec_sprite_color(*rt, *s, x as int, y as int),
{
    let dx: i32 = x as i32 - s.x as i32;
    let dy: i32 = y as i32 - s.y as i32;
    if dx < 0 || dx >= IMAGE_SIZE as i32 || dy < 0 || dy >= IMAGE_SIZE as i32 {
        return None;
    }
    let lx: usize = if s.get_flip_x() {
        (IMAGE_SIZE as i32 - 1 - dx) as usize
    } else {
        dx as usize
    };
    let ly: usize = if s.get_flip_y() {
        (IMAGE_SIZE as i32 - 1 - dy) as usize
    } else {
        dy as usize
    };
    let img = rt.image(s.image_id);
    let idx = img.0[ly * IMAGE_SIZE + lx];
    let c = rt.palette(s.get_palette_id()).0[idx as usize];
    assert(c & 0x0fu16 == c % 16) by (bit_vector);
    if c & 0x0f == 0 {
        None
    } else {
        Some(c)
    }
}

/// The background layer's color at canvas pixel `(x, y)`.
fn background_pixel(rt: &ResourceTables, scene: &Scene, clear: u16, x: usize, y: usize) -> (c: u16)
    requires
        rt.wf(),
        x < RESOLUTION_WIDTH,
        y < RESOLUTION_HEIGHT,
    ensures
        c == spec_background_color(*rt, *scene, clear, x as int, y as int),
{
    let tx: usize = (x + IMAGE_SIZE) / IMAGE_SIZE;
    let ty: usize = (y + IMAGE_SIZE) / IMAGE_SIZE;
    let lx: usize = (x + IMAGE_SIZE) % IMAGE_SIZE;
    let ly: usize = (y + IMAGE_SIZE) % IMAGE_SIZE;
    let tile = scene.background[ty * BACKGROUND_CANVAS_WIDTH + tx];
    let img = rt.image(tile.image_id);
    let idx = img.0[ly * IMAGE_SIZE + lx];
    let tpid = tile.palette_id;
    let pid = tpid & 0x0f;
    assert(pid == spec_palette_id(tpid) && pid < 16) by (bit_vector)
        requires
            pid == tpid & 0x0fu8,
    ;
    let c = rt.palette(pid).0[idx as usize];
    assert(c & 0x0fu16 == c % 16) by (bit_vector);
    if c & 0x0f == 0 {
        clear
    } else {
        c
    }
}

/// The fully composited color of canvas pixel `(x, y)`: the topmost sprite
/// slot that contributes, or the background layer where none does.
fn pixel_color(rt: &ResourceTables, scene: &Scene, clear: u16, x: usize, y: usize) -> (c: u16)
    requires
        rt.wf(),
        x < RESOLUTION_WIDTH,
        y < RESOLUTION_HEIGHT,
    ensures
        c == spec_frame_color(*rt, *scene, clear, x as int, y as int),
{
    let mut j: usize = MAX_SPRITES;
    while j > 0
        invariant
            rt.wf(),
            x < RESOLUTION_WIDTH,
            y < RESOLUTION_HEIGHT,
            j <= MAX_SPRITES,
            spec_frame_color(*rt, *scene, clear, x as int, y as int) == spec_frame_upto(
                *rt,
                *scene,
                clear,
                j as int,
                x as int,
                y as int,
            ),
        decreases j,
    {
        j -= 1;
        if let Some(c) = sprite_pixel(rt, &scene.foreground[j], x, y) {
            return c;
        }
    }
    background_pixel(rt, scene, clear, x, y)
}

/// Composites the whole frame: every canvas pixel is the topmost
/// contribution at that pixel, sprites over background over the clear
/// color, later sprite slots over earlier ones.
pub fn render(rt: &ResourceTables, scene: &Scene, clear: u16) -> (frame: Vec<u16>)
    requires
        rt.wf(),
    ensures
        frame@.len() == RESOLUTION_SIZE,
        forall|x: int, y: int|
            0 <= x < RESOLUTION_WIDTH && 0 <= y < RESOLUTION_HEIGHT ==> frame@[y * RESOLUTION_WIDTH
                + x] == spec_frame_color(*rt, *scene, clear, x, y),
{
    let mut frame: Vec<u16> = Vec::new();
    let mut y: usize = 0;
    while y < RESOLUTION_HEIGHT
        invariant
            rt.wf(),
            y <= RESOLUTION_HEIGHT,
            frame@.len() == y * RESOLUTION_WIDTH,
            forall|xx: int, yy: int|
                0 <= xx < RESOLUTION_WIDTH && 0 <= yy < y ==> frame@[yy * RESOLUTION_WIDTH + xx]
                    == spec_frame_color(*rt, *scene, clear, xx, yy),
        decreases RESOLUTION_HEIGHT - y,
    {
        let mut x: usize = 0;
        while x < RESOLUTION_WIDTH
            invariant
                rt.wf(),
                y < RESOLUTION_HEIGHT,
                x <= RESOLUTION_WIDTH,
                frame@.len() == y * RESOLUTION_WIDTH + x,
                forall|xx: int, yy: int|
                    0 <= xx < RESOLUTION_WIDTH && 0 <= yy < y ==> frame@[yy * RESOLUTION_WIDTH + xx]
                        == spec_frame_color(*rt, *scene, clear, xx, yy),
                forall|xx: int|
                    0 <= xx < x ==> frame@[y * RESOLUTION_WIDTH + xx] == spec_frame_color(
                        *rt,
                        *scene,
                        clear,
                        xx,
                        y as int,
                    ),
            decreases RESOLUTION_WIDTH - x,
        {
            frame.push(pixel_color(rt, scene, clear, x, y));
            x += 1;
        }
        proof {
            assert((y + 1) * RESOLUTION_WIDTH == y * RESOLUTION_WIDTH + RESOLUTION_WIDTH) by (nonlinear_arith);
        }
        y += 1;
    }
    proof {
        assert(RESOLUTION_HEIGHT * RESOLUTION_WIDTH == RESOLUTION_SIZE) by (nonlinear_arith);
    }
    frame
}

/// Scales a finished frame onto a display surface of `out_w` by `out_h`
/// pixels with nearest-neighbor sampling, which preserves the crisp edges
/// of indexed art.
pub fn scale_nearest(frame: &Vec<u16>, out_w: usize, out_h: usize) -> (out: Vec<u16>)
    requires
        frame@.len() == RESOLUTION_SIZE,
        0 < out_w <= 16384,
        0 < out_h <= 16384,
    ensures
        out@.len() == out_w * out_h,
        forall|i: int, j: int|
            0 <= i < out_w && 0 <= j < out_h ==> #[trigger] out@[j * out_w + i] == frame@[((j
                * RESOLUTION_HEIGHT) / out_h as int) * RESOLUTION_WIDTH + (i * RESOLUTION_WIDTH) / out_w as int],
{
    let mut out: Vec<u16> = Vec::new();
    let mut j: usize = 0;
    while j < out_h
        invariant
            frame@.len() == RESOLUTION_SIZE,
            0 < out_w <= 16384,
            0 < out_h <= 16384,
            j <= out_h,
            out@.len() == j * out_w,
            forall|ii: int, jj: int|
                0 <= ii < out_w && 0 <= jj < j ==> #[trigger] out@[jj * out_w + ii] == frame@[((jj
                    * RESOLUTION_HEIGHT) / out_h as int) * RESOLUTION_WIDTH + (ii * RESOLUTION_WIDTH)
                    / out_w as int],
        decreases out_h - j,
    {
        let src_y: usize = (j * RESOLUTION_HEIGHT) / out_h;
        assert(j * RESOLUTION_HEIGHT < out_h * RESOLUTION_HEIGHT) by (nonlinear_arith)
            requires
                j < out_h,
        ;
        assert(src_y < RESOLUTION_HEIGHT) by (nonlinear_arith)
            requires
                src_y == (j * RESOLUTION_HEIGHT) / out_h as int,
                j * RESOLUTION_HEIGHT < out_h * RESOLUTION_HEIGHT,
                out_h > 0,
        ;
        let mut i: usize = 0;
        while i < out_w
            invariant
                frame@.len() == RESOLUTION_SIZE,
                0 < out_w <= 16384,
                0 < out_h <= 16384,
                j < out_h,
                i <= out_w,
                src_y == (j * RESOLUTION_HEIGHT) / out_h as int,
                src_y < RESOLUTION_HEIGHT,
                out@.len() == j * out_w + i,
                forall|ii: int, jj: int|
                    0 <= ii < out_w && 0 <= jj < j ==> #[trigger] out@[jj * out_w + ii] == frame@[((jj
                        * RESOLUTION_HEIGHT) / out_h as int) * RESOLUTION_WIDTH + (ii * RESOLUTION_WIDTH)
                        / out_w as int],
                forall|ii: int|
                    0 <= ii < i ==> #[trigger] out@[j * out_w + ii] == frame@[((j * RESOLUTION_HEIGHT) / out_h as int)
                        * RESOLUTION_WIDTH + (ii * RESOLUTION_WIDTH) / out_w as int],
            decreases out_w - i,
        {
            let src_x: usize = (i * RESOLUTION_WIDTH) / out_w;
            assert(i * RESOLUTION_WIDTH < out_w * RESOLUTION_WIDTH) by (nonlinear_arith)
                requires
                    i < out_w,
            ;
            assert(src_x < RESOLUTION_WIDTH) by (nonlinear_arith)
                requires
                    src_x == (i * RESOLUTION_WIDTH) / out_w as int,
                    i * RESOLUTION_WIDTH < out_w * RESOLUTION_WIDTH,
                    out_w > 0,
            ;
            assert(src_y * RESOLUTION_WIDTH + src_x < RESOLUTION_SIZE) by (nonlinear_arith)
                requires
                    src_y < RESOLUTION_HEIGHT && src_x < RESOLUTION_WIDTH,
            ;
            out.push(frame[src_y * RESOLUTION_WIDTH + src_x]);
            proof {
                assert forall|ii: int, jj: int| 0 <= ii < out_w && 0 <= jj < j implies #[trigger] out@[
                    jj * out_w + ii] == frame@[((jj * RESOLUTION_HEIGHT) / out_h as int)
                    * RESOLUTION_WIDTH + (ii * RESOLUTION_WIDTH) / out_w as int] by {
                    assert(jj * out_w + ii < j * out_w) by (nonlinear_arith)
                        requires
                            0 <= ii < out_w && 0 <= jj < j,
                    ;
                }
            }
            i += 1;
        }
        proof {
            assert((j + 1) * out_w == j * out_w + out_w) by (nonlinear_arith);
            assert forall|ii: int, jj: int| 0 <= ii < out_w && 0 <= jj < j + 1 implies #[trigger] out@[
                jj * out_w + ii] == frame@[((jj * RESOLUTION_HEIGHT) / out_h as int)
                * RESOLUTION_WIDTH + (ii * RESOLUTION_WIDTH) / out_w as int] by {
                if jj < j {
                    assert(jj * out_w + ii < j * out_w) by (nonlinear_arith)
                        requires
                            0 <= ii < out_w && 0 <= jj < j,
                    ;
                }
            }
        }
        j += 1;
    }
    proof {
        assert(out_h * out_w == out_w * out_h) by (nonlinear_arith);
    }
    out
}

} // verus!
