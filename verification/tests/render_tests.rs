use image_labeler::color::{banner_fill, Color};
use image_labeler::config::Error;
use image_labeler::layout::{compute_layout, SizePolicy};
use image_labeler::render::{fill_banner, load_font, Bitmap};

fn solid(width: u32, height: u32, c: Color) -> Bitmap {
    let mut data = Vec::new();
    for _ in 0..(width * height) {
        data.push(c.r);
        data.push(c.g);
        data.push(c.b);
        data.push(c.a);
    }
    Bitmap::new(width, height, data).unwrap()
}

const BLACK: Color = Color { r: 0, g: 0, b: 0, a: 255 };

#[test]
fn bitmap_new_accepts_exactly_matching_data() {
    assert!(Bitmap::new(2, 3, vec![0u8; 24]).is_some());
    assert!(Bitmap::new(2, 3, vec![0u8; 23]).is_none());
    assert!(Bitmap::new(2, 3, vec![0u8; 25]).is_none());
    assert!(Bitmap::new(0, 0, Vec::new()).is_some());
}

#[test]
fn bitmap_round_trips_pixels() {
    let data: Vec<u8> = (0u8..16u8).collect();
    let b = Bitmap::new(2, 2, data.clone()).unwrap();
    assert_eq!(b.width(), 2);
    assert_eq!(b.height(), 2);
    // Pixel (1, 0) is the second group of four bytes.
    assert_eq!(b.pixel_at(1, 0), Color { r: 4, g: 5, b: 6, a: 7 });
    let (w, h, raw) = b.into_raw();
    assert_eq!((w, h), (2, 2));
    assert_eq!(raw, data);
}

#[test]
fn banner_fill_paints_the_rectangle_and_nothing_above() {
    let img = solid(8, 100, BLACK);
    let l = compute_layout(8, 100, SizePolicy::Proportional);
    // label 5, margin 1: rows 4 ..= 10 hold the banner.
    assert_eq!((l.top, l.height), (4, 7));
    let out = fill_banner(&img, &l, banner_fill());
    assert_eq!(out.width(), 8);
    assert_eq!(out.height(), 100);
    assert_eq!(out.pixel_at(0, 4), Color { r: 241, g: 162, b: 130, a: 255 });
    assert_eq!(out.pixel_at(7, 10), Color { r: 241, g: 162, b: 130, a: 255 });
    assert_eq!(out.pixel_at(3, 7), Color { r: 241, g: 162, b: 130, a: 255 });
    // Rows outside the banner keep the input.
    assert_eq!(out.pixel_at(0, 0), BLACK);
    assert_eq!(out.pixel_at(7, 99), BLACK);
    // The input image itself is untouched.
    assert_eq!(img.pixel_at(0, 4), BLACK);
}

#[test]
fn empty_banner_leaves_the_image_unchanged() {
    let img = solid(4, 10, BLACK);
    let l = compute_layout(4, 10, SizePolicy::Proportional);
    assert_eq!(l.height, 0);
    let out = fill_banner(&img, &l, banner_fill());
    for y in 0..10 {
        for x in 0..4 {
            assert_eq!(out.pixel_at(x, y), BLACK);
        }
    }
}

#[test]
fn banner_fill_is_deterministic() {
    let img = solid(16, 60, BLACK);
    let l = compute_layout(16, 60, SizePolicy::Proportional);
    let a = fill_banner(&img, &l, banner_fill());
    let b = fill_banner(&img, &l, banner_fill());
    let (_, _, ra) = a.into_raw();
    let (_, _, rb) = b.into_raw();
    assert_eq!(ra, rb);
}

#[test]
fn garbage_bytes_are_no_font() {
    let r = load_font(vec![0u8, 1, 2, 3]);
    assert!(matches!(r, Err(Error::FontParse)));
}
