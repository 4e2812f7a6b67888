use avk::compositor::{render, scale_nearest};
use avk::image::Image;
use avk::palette::Palette;
use avk::resources::ResourceTables;
use avk::scene::{Scene, Tile};
use avk::sprite::Sprite;

const W: usize = 256;
const H: usize = 192;
const BLACK: u16 = 0x000F;

fn tables_with(images: Vec<(usize, Image)>, palettes: Vec<(usize, Palette)>) -> ResourceTables {
    let mut imgs = vec![Image::empty(); 256];
    for (id, img) in images {
        imgs[id] = img;
    }
    let mut pals = vec![Palette::empty(); 16];
    for (id, p) in palettes {
        pals[id] = p;
    }
    ResourceTables::load(imgs, pals)
}

fn solid_image(index: u8) -> Image {
    let mut img = Image::empty();
    for p in img.0.iter_mut() {
        *p = index;
    }
    img
}

#[test]
fn solid_sprite_paints_red_square_on_black() {
    // a fully-opaque 16x16 solid-color-index-1 bitmap as image 1,
    // palette 0 with entry 1 = red at full alpha, sprite at (8, 8)
    let mut pal = Palette::empty();
    pal.0[1] = 0xF00F;
    let rt = tables_with(vec![(1, solid_image(1))], vec![(0, pal)]);
    let mut scene = Scene::new();
    scene.foreground[0] = Sprite { image_id: 1, palette_transform: 0, x: 8, y: 8 };
    let frame = render(&rt, &scene, BLACK);
    assert_eq!(frame.len(), W * H);
    for y in 0..H {
        for x in 0..W {
            let expect = if (8..24).contains(&x) && (8..24).contains(&y) { 0xF00F } else { BLACK };
            assert_eq!(frame[y * W + x], expect, "pixel ({x}, {y})");
        }
    }
}

#[test]
fn later_slot_draws_on_top() {
    let mut pal = Palette::empty();
    pal.0[1] = 0xF00F; // red
    pal.0[2] = 0x0F0F; // green
    let mut img2 = solid_image(1);
    for p in img2.0.iter_mut() {
        *p = 2;
    }
    let rt = tables_with(vec![(1, solid_image(1)), (2, img2)], vec![(0, pal)]);
    let mut scene = Scene::new();
    scene.foreground[3] = Sprite { image_id: 1, palette_transform: 0, x: 0, y: 0 };
    scene.foreground[7] = Sprite { image_id: 2, palette_transform: 0, x: 8, y: 0 };
    let frame = render(&rt, &scene, BLACK);
    // the overlap 8..16 shows the later slot's green
    assert_eq!(frame[0], 0xF00F);
    assert_eq!(frame[7], 0xF00F);
    assert_eq!(frame[8], 0x0F0F);
    assert_eq!(frame[15], 0x0F0F);
    assert_eq!(frame[23], 0x0F0F);
    assert_eq!(frame[24], BLACK);
}

#[test]
fn transparent_pixels_contribute_nothing() {
    let mut pal = Palette::empty();
    pal.0[1] = 0xF00F;
    // entry 2 has alpha 0: fully transparent
    pal.0[2] = 0x0F00;
    let mut img = Image::empty();
    // left half index 1 (opaque red), right half index 2 (transparent)
    for y in 0..16 {
        for x in 0..16 {
            img.0[y * 16 + x] = if x < 8 { 1 } else { 2 };
        }
    }
    let rt = tables_with(vec![(1, img)], vec![(0, pal)]);
    let mut scene = Scene::new();
    scene.foreground[0] = Sprite { image_id: 1, palette_transform: 0, x: 0, y: 0 };
    let frame = render(&rt, &scene, BLACK);
    assert_eq!(frame[0], 0xF00F);
    assert_eq!(frame[7], 0xF00F);
    assert_eq!(frame[8], BLACK);
    assert_eq!(frame[15], BLACK);
}

#[test]
fn flip_x_mirrors_columns() {
    let mut pal = Palette::empty();
    pal.0[1] = 0xF00F;
    // only the leftmost column is drawn
    let mut img = Image::empty();
    for y in 0..16 {
        img.0[y * 16] = 1;
    }
    let rt = tables_with(vec![(1, img)], vec![(0, pal)]);
    let mut scene = Scene::new();
    let mut s = Sprite { image_id: 1, palette_transform: 0, x: 0, y: 0 };
    s.set_flip_x(true);
    scene.foreground[0] = s;
    let frame = render(&rt, &scene, BLACK);
    // source column 0 lands at destination column 15
    assert_eq!(frame[15], 0xF00F);
    assert_eq!(frame[0], BLACK);
    assert_eq!(frame[5 * W + 15], 0xF00F);
}

#[test]
fn flip_y_mirrors_rows() {
    let mut pal = Palette::empty();
    pal.0[1] = 0xF00F;
    // only the top row is drawn
    let mut img = Image::empty();
    for x in 0..16 {
        img.0[x] = 1;
    }
    let rt = tables_with(vec![(1, img)], vec![(0, pal)]);
    let mut scene = Scene::new();
    let mut s = Sprite { image_id: 1, palette_transform: 0, x: 0, y: 0 };
    s.set_flip_y(true);
    scene.foreground[0] = s;
    let frame = render(&rt, &scene, BLACK);
    // source row 0 lands at destination row 15
    assert_eq!(frame[15 * W], 0xF00F);
    assert_eq!(frame[0], BLACK);
    assert_eq!(frame[15 * W + 7], 0xF00F);
}

#[test]
fn both_flips_mirror_both_axes() {
    let mut pal = Palette::empty();
    pal.0[1] = 0xF00F;
    // only the top-left pixel is drawn
    let mut img = Image::empty();
    img.0[0] = 1;
    let rt = tables_with(vec![(1, img)], vec![(0, pal)]);
    let mut scene = Scene::new();
    let mut s = Sprite { image_id: 1, palette_transform: 0, x: 0, y: 0 };
    s.set_flip_x(true);
    s.set_flip_y(true);
    scene.foreground[0] = s;
    let frame = render(&rt, &scene, BLACK);
    // source pixel (0, 0) lands at destination (15, 15)
    assert_eq!(frame[15 * W + 15], 0xF00F);
    assert_eq!(frame[0], BLACK);
    assert_eq!(frame[15], BLACK);
    assert_eq!(frame[15 * W], BLACK);
}

#[test]
fn off_canvas_sprites_are_silent() {
    let mut pal = Palette::empty();
    pal.0[1] = 0xF00F;
    let rt = tables_with(vec![(1, solid_image(1))], vec![(0, pal)]);
    let mut scene = Scene::new();
    scene.foreground[0] = Sprite { image_id: 1, palette_transform: 0, x: -16, y: 0 };
    scene.foreground[1] = Sprite { image_id: 1, palette_transform: 0, x: 0, y: -16 };
    scene.foreground[2] = Sprite { image_id: 1, palette_transform: 0, x: 256, y: 0 };
    let frame = render(&rt, &scene, BLACK);
    assert!(frame.iter().all(|&c| c == BLACK));
}

#[test]
fn partially_off_canvas_sprite_is_clipped() {
    let mut pal = Palette::empty();
    pal.0[1] = 0xF00F;
    let rt = tables_with(vec![(1, solid_image(1))], vec![(0, pal)]);
    let mut scene = Scene::new();
    scene.foreground[0] = Sprite { image_id: 1, palette_transform: 0, x: -8, y: -8 };
    let frame = render(&rt, &scene, BLACK);
    assert_eq!(frame[0], 0xF00F);
    assert_eq!(frame[7 * W + 7], 0xF00F);
    assert_eq!(frame[7 * W + 8], BLACK);
    assert_eq!(frame[8 * W], BLACK);
}

#[test]
fn sprite_palette_field_selects_palette() {
    let mut pal1 = Palette::empty();
    pal1.0[1] = 0x0F0F;
    let rt = tables_with(vec![(1, solid_image(1))], vec![(1, pal1)]);
    let mut scene = Scene::new();
    scene.foreground[0] = Sprite { image_id: 1, palette_transform: 0b0001, x: 0, y: 0 };
    let frame = render(&rt, &scene, BLACK);
    assert_eq!(frame[0], 0x0F0F);
}

#[test]
fn background_tiles_draw_behind_sprites() {
    let mut pal = Palette::empty();
    pal.0[1] = 0x00FF; // blue
    pal.0[2] = 0xF00F; // red
    let mut img2 = solid_image(2);
    for p in img2.0.iter_mut() {
        *p = 2;
    }
    let rt = tables_with(vec![(1, solid_image(1)), (2, img2)], vec![(0, pal)]);
    let mut scene = Scene::new();
    // the tile at grid (1, 1) covers canvas pixels (0..16, 0..16)
    scene.background[1 * 18 + 1] = Tile { image_id: 1, palette_id: 0 };
    scene.foreground[0] = Sprite { image_id: 2, palette_transform: 0, x: 8, y: 0 };
    let frame = render(&rt, &scene, BLACK);
    assert_eq!(frame[0], 0x00FF);
    assert_eq!(frame[7], 0x00FF);
    assert_eq!(frame[8], 0xF00F);
    assert_eq!(frame[16], 0xF00F);
    assert_eq!(frame[24], BLACK);
    assert_eq!(frame[16 * W], BLACK);
}

#[test]
fn scale_identity_keeps_pixels() {
    let mut pal = Palette::empty();
    pal.0[1] = 0xF00F;
    let rt = tables_with(vec![(1, solid_image(1))], vec![(0, pal)]);
    let mut scene = Scene::new();
    scene.foreground[0] = Sprite { image_id: 1, palette_transform: 0, x: 0, y: 0 };
    let frame = render(&rt, &scene, BLACK);
    let same = scale_nearest(&frame, W, H);
    assert_eq!(same, frame);
}

#[test]
fn scale_doubles_with_nearest_neighbor() {
    let mut pal = Palette::empty();
    pal.0[1] = 0xF00F;
    let rt = tables_with(vec![(1, solid_image(1))], vec![(0, pal)]);
    let mut scene = Scene::new();
    scene.foreground[0] = Sprite { image_id: 1, palette_transform: 0, x: 0, y: 0 };
    let frame = render(&rt, &scene, BLACK);
    let big = scale_nearest(&frame, 2 * W, 2 * H);
    assert_eq!(big.len(), 4 * W * H);
    for y in 0..2 * H {
        for x in [0usize, 1, 31, 32, 100] {
            assert_eq!(big[y * 2 * W + x], frame[(y / 2) * W + x / 2]);
        }
    }
}
