use cursor_trail::render::{pack_argb, unpack_argb, FrameBuffer, Sprite};

#[test]
fn new_frame_is_transparent_and_sized() {
    let fb = FrameBuffer::new(4, 3);
    assert_eq!(fb.width, 4);
    assert_eq!(fb.height, 3);
    assert_eq!(fb.pixels.len(), 12);
    assert!(fb.pixels.iter().all(|p| *p == 0));
}

#[test]
fn new_empty_frame() {
    let fb = FrameBuffer::new(0, 7);
    assert!(fb.pixels.is_empty());
}

#[test]
fn clear_zeroes_every_pixel() {
    let mut fb = FrameBuffer::new(2, 2);
    fb.pixels = vec![0xFF00_0000, 0x1234_5678, 0xFFFF_FFFF, 1];
    fb.clear();
    assert_eq!(fb.pixels, vec![0, 0, 0, 0]);
    assert_eq!((fb.width, fb.height), (2, 2));
}

#[test]
fn bgra_bytes_of_pixels() {
    let mut fb = FrameBuffer::new(2, 1);
    fb.pixels = vec![0xAABB_CCDD, 0x1122_3344];
    assert_eq!(
        fb.as_bgra_bytes(),
        vec![0xDD, 0xCC, 0xBB, 0xAA, 0x44, 0x33, 0x22, 0x11]
    );
}

#[test]
fn cleared_frame_presents_transparent_bytes() {
    let mut fb = FrameBuffer::new(3, 2);
    fb.pixels = vec![7; 6];
    fb.clear();
    assert_eq!(fb.as_bgra_bytes(), vec![0u8; 24]);
}

#[test]
fn pixel_index_inside_and_outside() {
    let fb = FrameBuffer::new(10, 5);
    assert_eq!(fb.pixel_index(0, 0), Some(0));
    assert_eq!(fb.pixel_index(9, 0), Some(9));
    assert_eq!(fb.pixel_index(3, 2), Some(23));
    assert_eq!(fb.pixel_index(9, 4), Some(49));
    assert_eq!(fb.pixel_index(10, 0), None);
    assert_eq!(fb.pixel_index(0, 5), None);
    assert_eq!(fb.pixel_index(-1, 0), None);
    assert_eq!(fb.pixel_index(0, -1), None);
    assert_eq!(fb.pixel_index(i32::MIN, i32::MAX), None);
}

#[test]
fn pixel_index_is_injective_on_small_canvas() {
    let fb = FrameBuffer::new(7, 3);
    let mut seen = std::collections::HashSet::new();
    for y in 0..3 {
        for x in 0..7 {
            let i = fb.pixel_index(x, y).unwrap();
            assert!(i < fb.pixels.len());
            assert!(seen.insert(i));
        }
    }
}

#[test]
fn pack_and_unpack_color() {
    assert_eq!(pack_argb([0x11, 0x22, 0x33, 0x44]), 0x4411_2233);
    assert_eq!(unpack_argb(0x4411_2233), [0x11, 0x22, 0x33, 0x44]);
    assert_eq!(pack_argb([255, 200, 120, 255]), 0xFFFF_C878);
}

#[test]
fn unpack_after_pack_round_trip() {
    for c in [[0u8, 0, 0, 0], [1, 2, 3, 4], [255, 255, 255, 255], [120, 180, 255, 200]] {
        assert_eq!(unpack_argb(pack_argb(c)), c);
    }
    for p in [0u32, 1, 0xFFFF_FFFF, 0x8000_0001, 0xDEAD_BEEF] {
        assert_eq!(pack_argb(unpack_argb(p)), p);
    }
}

#[test]
fn packed_color_presents_as_bgra() {
    let mut fb = FrameBuffer::new(1, 1);
    fb.pixels[0] = pack_argb([10, 20, 30, 40]);
    assert_eq!(fb.as_bgra_bytes(), vec![30, 20, 10, 40]);
}

#[test]
fn sprite_from_image_packs_pixels() {
    let rgba = [1u8, 2, 3, 4, 5, 6, 7, 8, 9, 10, 11, 12, 13, 14, 15, 16];
    let sprite = Sprite::from_image(2, 2, &rgba);
    assert_eq!((sprite.width, sprite.height), (2, 2));
    assert_eq!(
        sprite.pixels,
        vec![0x0401_0203, 0x0805_0607, 0x0C09_0A0B, 0x100D_0E0F]
    );
}

#[test]
fn sprite_from_image_ignores_trailing_bytes() {
    let rgba = [1u8, 2, 3, 4, 99, 99, 99, 99, 99];
    let sprite = Sprite::from_image(1, 1, &rgba);
    assert_eq!(sprite.pixels, vec![0x0401_0203]);
}

#[test]
fn sprite_from_empty_image() {
    let sprite = Sprite::from_image(0, 5, &[]);
    assert_eq!((sprite.width, sprite.height), (0, 5));
    assert!(sprite.pixels.is_empty());
}

#[test]
fn sample_at_native_size_is_identity() {
    let sprite = Sprite { width: 3, height: 2, pixels: vec![10, 11, 12, 20, 21, 22] };
    for dy in 0..2 {
        for dx in 0..3 {
            assert_eq!(sprite.sample(dx, dy, 3, 2), sprite.pixels[(dy * 3 + dx) as usize]);
        }
    }
}

#[test]
fn sample_scaled_up_and_down() {
    let sprite = Sprite { width: 2, height: 2, pixels: vec![1, 2, 3, 4] };
    // Doubled to 4 by 4: each source pixel covers a 2 by 2 block.
    assert_eq!(sprite.sample(0, 0, 4, 4), 1);
    assert_eq!(sprite.sample(1, 1, 4, 4), 1);
    assert_eq!(sprite.sample(2, 0, 4, 4), 2);
    assert_eq!(sprite.sample(3, 3, 4, 4), 4);
    assert_eq!(sprite.sample(0, 2, 4, 4), 3);
    // Shrunk to 1 by 1: the top left pixel.
    assert_eq!(sprite.sample(0, 0, 1, 1), 1);
    // Stretched to 3 by 1: x = 0, 0, 1 (1 * 2 / 3 = 0, 2 * 2 / 3 = 1).
    assert_eq!(sprite.sample(1, 0, 3, 1), 1);
    assert_eq!(sprite.sample(2, 0, 3, 1), 2);
}

#[test]
fn blit_plan_skips_transparent_pixels() {
    let sprite = Sprite { width: 2, height: 1, pixels: vec![0x00FF_0000, 0xFF11_2233] };
    assert_eq!(sprite.blit_plan(5, 7, 2, 1), vec![(6, 7, 0xFF11_2233)]);
}

#[test]
fn blit_plan_scaled_row_by_row() {
    let sprite = Sprite { width: 2, height: 1, pixels: vec![0x0100_0001, 0x0200_0002] };
    assert_eq!(
        sprite.blit_plan(-1, 3, 4, 2),
        vec![
            (-1, 3, 0x0100_0001),
            (0, 3, 0x0100_0001),
            (1, 3, 0x0200_0002),
            (2, 3, 0x0200_0002),
            (-1, 4, 0x0100_0001),
            (0, 4, 0x0100_0001),
            (1, 4, 0x0200_0002),
            (2, 4, 0x0200_0002),
        ]
    );
}

#[test]
fn blit_plan_stays_in_destination_area() {
    let sprite = Sprite { width: 3, height: 3, pixels: (0..9u32).map(|i| (i << 24) | i).collect() };
    let plots = sprite.blit_plan(10, 20, 5, 4);
    assert!(plots.len() <= 20);
    for (x, y, p) in plots {
        assert!((10..15).contains(&x));
        assert!((20..24).contains(&y));
        assert_ne!(p >> 24, 0);
    }
}

#[test]
fn well_formedness_checks() {
    let fb = FrameBuffer::new(3, 2);
    assert!(fb.is_well_formed());
    let bad = FrameBuffer { width: 3, height: 2, pixels: vec![0; 5] };
    assert!(!bad.is_well_formed());
    let huge = FrameBuffer { width: 70_000, height: 70_000, pixels: vec![] };
    assert!(!huge.is_well_formed());
    let sprite = Sprite { width: 2, height: 2, pixels: vec![0; 4] };
    assert!(sprite.is_well_formed());
    let bad_sprite = Sprite { width: 2, height: 2, pixels: vec![0; 3] };
    assert!(!bad_sprite.is_well_formed());
}

#[test]
fn sprite_from_encoded_png() {
    let image = image::RgbaImage::from_raw(2, 1, vec![1, 2, 3, 4, 5, 6, 7, 8]).unwrap();
    let mut bytes = std::io::Cursor::new(Vec::new());
    image.write_to(&mut bytes, image::ImageFormat::Png).unwrap();
    let sprite = Sprite::from_encoded(&bytes.into_inner()).unwrap();
    assert_eq!((sprite.width, sprite.height), (2, 1));
    assert_eq!(sprite.pixels, vec![0x0401_0203, 0x0805_0607]);
}

#[test]
fn sprite_from_garbage_is_an_error() {
    assert!(Sprite::from_encoded(b"not an image").is_err());
}
