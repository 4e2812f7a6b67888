use avk::convert::{
    build_tile, convert_image, convert_rgba, quantize_channel, quantize_rgba, ConvertError,
    PaletteBuilder,
};
use avk::image::Image;

fn solid_rgba(w: usize, h: usize, px: [u8; 4]) -> Vec<u8> {
    let mut v = Vec::with_capacity(w * h * 4);
    for _ in 0..w * h {
        v.extend_from_slice(&px);
    }
    v
}

#[test]
fn quantize_channel_rounds_to_nearest_level() {
    assert_eq!(quantize_channel(0), 0);
    assert_eq!(quantize_channel(8), 0);
    assert_eq!(quantize_channel(9), 1);
    assert_eq!(quantize_channel(17), 1);
    assert_eq!(quantize_channel(25), 1);
    assert_eq!(quantize_channel(26), 2);
    assert_eq!(quantize_channel(128), 8);
    assert_eq!(quantize_channel(246), 14);
    assert_eq!(quantize_channel(247), 15);
    assert_eq!(quantize_channel(255), 15);
}

#[test]
fn quantize_rgba_packs_nearest_levels() {
    assert_eq!(quantize_rgba(255, 0, 0, 255), 0xF00F);
    assert_eq!(quantize_rgba(255, 255, 255, 255), 0xFFFF);
    // alpha quantizes to 7 or below: the whole color collapses to zero
    assert_eq!(quantize_rgba(255, 255, 255, 127), 0);
    assert_eq!(quantize_rgba(0, 0, 0, 255), 0x000F);
}

#[test]
fn intern_reuses_and_appends() {
    let mut b = PaletteBuilder::new();
    assert_eq!(b.intern(0xF00F), Some(0));
    assert_eq!(b.intern(0x0F0F), Some(1));
    assert_eq!(b.intern(0xF00F), Some(0));
    assert_eq!(b.colors_used(), 2);
    let p = b.into_palette();
    assert_eq!(p.0[0], 0xF00F);
    assert_eq!(p.0[1], 0x0F0F);
    assert_eq!(p.0[2], 0);
}

#[test]
fn intern_overflows_at_seventeenth_color() {
    let mut b = PaletteBuilder::new();
    for k in 0..16u16 {
        assert!(b.intern(0x000F + (k << 12)).is_some());
    }
    assert_eq!(b.colors_used(), 16);
    // the 16 interned colors are still found
    assert_eq!(b.intern(0x000F), Some(0));
    // a 17th distinct color does not fit
    assert_eq!(b.intern(0x0AAF), None);
    assert_eq!(b.colors_used(), 16);
}

#[test]
fn build_tile_indexes_colors_in_first_seen_order() {
    let mut colors = vec![0x111Fu16; 256];
    colors[0] = 0xF00F;
    colors[255] = 0x00FF;
    let mut b = PaletteBuilder::new();
    let img = build_tile(&colors, &mut b).expect("three colors fit");
    assert_eq!(b.colors_used(), 3);
    let p = b.into_palette();
    assert_eq!(p.0[0], 0xF00F);
    assert_eq!(p.0[1], 0x111F);
    assert_eq!(p.0[2], 0x00FF);
    assert_eq!(img.0[0], 0);
    assert_eq!(img.0[1], 1);
    assert_eq!(img.0[254], 1);
    assert_eq!(img.0[255], 2);
}

#[test]
fn build_tile_overflow_leaves_palette_untouched() {
    let mut b = PaletteBuilder::new();
    assert!(b.intern(0xAAAF).is_some());
    assert!(b.intern(0xBBBF).is_some());
    // 16 colors new to the palette: 18 distinct in all is one too many
    let mut colors = vec![0u16; 256];
    for (i, c) in colors.iter_mut().enumerate() {
        *c = 0x000F + (((i % 16) as u16) << 12);
    }
    assert!(build_tile(&colors, &mut b).is_none());
    assert_eq!(b.colors_used(), 2);
    let p = b.into_palette();
    assert_eq!(p.0[0], 0xAAAF);
    assert_eq!(p.0[1], 0xBBBF);
}

#[test]
fn sixteen_distinct_colors_fit_exactly() {
    let mut colors = vec![0u16; 256];
    for (i, c) in colors.iter_mut().enumerate() {
        *c = 0x000F + (((i % 16) as u16) << 12);
    }
    let mut b = PaletteBuilder::new();
    assert!(build_tile(&colors, &mut b).is_some());
    assert_eq!(b.colors_used(), 16);
}

#[test]
fn convert_rejects_bad_dimensions() {
    let rgba = solid_rgba(15, 16, [0, 0, 0, 255]);
    assert!(matches!(convert_rgba(15, 16, &rgba), Err(ConvertError::BadDimensions)));
    let rgba = solid_rgba(16, 20, [0, 0, 0, 255]);
    assert!(matches!(convert_rgba(16, 20, &rgba), Err(ConvertError::BadDimensions)));
    let rgba = Vec::new();
    assert!(matches!(convert_rgba(0, 0, &rgba), Err(ConvertError::BadDimensions)));
}

#[test]
fn convert_single_solid_tile() {
    let rgba = solid_rgba(16, 16, [255, 0, 0, 255]);
    let (blobs, palette) = convert_rgba(16, 16, &rgba).expect("one color fits");
    assert_eq!(blobs.len(), 1);
    assert_eq!(blobs[0].len(), 128);
    assert!(blobs[0].iter().all(|&b| b == 0));
    assert_eq!(palette.0[0], 0xF00F);
    assert_eq!(palette.0[1], 0);
}

#[test]
fn convert_shares_palette_across_tiles() {
    // left tile solid red; right tile red with one green pixel
    let mut rgba = Vec::new();
    for y in 0..16 {
        for x in 0..32 {
            if x == 17 && y == 0 {
                rgba.extend_from_slice(&[0, 255, 0, 255]);
            } else {
                rgba.extend_from_slice(&[255, 0, 0, 255]);
            }
        }
    }
    let (blobs, palette) = convert_rgba(32, 16, &rgba).expect("two colors fit");
    assert_eq!(blobs.len(), 2);
    assert_eq!(palette.0[0], 0xF00F);
    assert_eq!(palette.0[1], 0x0F0F);
    // tile 1, pixel (1, 0) carries palette index 1; everything else index 0
    let mut arr = [0u8; 128];
    arr.copy_from_slice(&blobs[1]);
    let img = Image::from_resource(&arr);
    assert_eq!(img.0[1], 1);
    assert_eq!(img.0[0], 0);
    assert_eq!(img.0[2], 0);
    assert!(blobs[0].iter().all(|&b| b == 0));
}

#[test]
fn seventeen_distinct_colors_in_one_tile_overflow() {
    let mut rgba = Vec::new();
    for i in 0..256usize {
        if i < 16 {
            rgba.extend_from_slice(&[(i * 17) as u8, 0, 0, 255]);
        } else {
            rgba.extend_from_slice(&[0, 255, 0, 255]);
        }
    }
    assert!(matches!(convert_rgba(16, 16, &rgba), Err(ConvertError::PaletteOverflow)));
}

#[test]
fn convert_image_decodes_png() {
    let mut im = image::RgbaImage::new(16, 16);
    for p in im.pixels_mut() {
        *p = image::Rgba([255, 0, 0, 255]);
    }
    let mut bytes: Vec<u8> = Vec::new();
    im.write_to(&mut std::io::Cursor::new(&mut bytes), image::ImageFormat::Png)
        .expect("encode png");
    let (blobs, palette) = convert_image(&bytes).expect("solid red converts");
    assert_eq!(blobs.len(), 1);
    assert!(blobs[0].iter().all(|&b| b == 0));
    assert_eq!(palette.0[0], 0xF00F);
}

#[test]
fn convert_image_rejects_garbage() {
    let bytes = vec![1u8, 2, 3, 4, 5];
    assert!(matches!(convert_image(&bytes), Err(ConvertError::UnreadableImage)));
}

#[test]
fn convert_image_rejects_odd_png_size() {
    let im = image::RgbaImage::new(10, 16);
    let mut bytes: Vec<u8> = Vec::new();
    im.write_to(&mut std::io::Cursor::new(&mut bytes), image::ImageFormat::Png)
        .expect("encode png");
    assert!(matches!(convert_image(&bytes), Err(ConvertError::BadDimensions)));
}
