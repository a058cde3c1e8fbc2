//! Pixel permutations, handles, and the decimal formatter.

use noctua::meta::u32_to_string;
use noctua::ops::{flip_horizontal, flip_vertical, rotate180, rotate270, rotate90, unpremultiply};
use noctua::pixel::{create_image_handle, image_from_rgba_bytes, ImageBuf, Rgba};

fn px(r: u8, g: u8, b: u8, a: u8) -> Rgba {
    Rgba { r, g, b, a }
}

fn gray(v: u8) -> Rgba {
    px(v, v, v, 255)
}

/// A 3x2 image with distinct pixels:
///   0 1 2
///   3 4 5
fn sample() -> ImageBuf {
    ImageBuf {
        width: 3,
        height: 2,
        data: vec![gray(0), gray(1), gray(2), gray(3), gray(4), gray(5)],
    }
}

#[test]
fn rotate90_permutes_exactly() {
    let b = rotate90(&sample());
    assert_eq!((b.width, b.height), (2, 3));
    // Clockwise: first row of the result is the first column bottom-up.
    let values: Vec<u8> = b.data.iter().map(|p| p.r).collect();
    assert_eq!(values, vec![3, 0, 4, 1, 5, 2]);
}

#[test]
fn rotate180_permutes_exactly() {
    let b = rotate180(&sample());
    assert_eq!((b.width, b.height), (3, 2));
    let values: Vec<u8> = b.data.iter().map(|p| p.r).collect();
    assert_eq!(values, vec![5, 4, 3, 2, 1, 0]);
}

#[test]
fn rotate270_permutes_exactly() {
    let b = rotate270(&sample());
    assert_eq!((b.width, b.height), (2, 3));
    let values: Vec<u8> = b.data.iter().map(|p| p.r).collect();
    assert_eq!(values, vec![2, 5, 1, 4, 0, 3]);
}

#[test]
fn flip_horizontal_mirrors_rows() {
    let b = flip_horizontal(&sample());
    let values: Vec<u8> = b.data.iter().map(|p| p.r).collect();
    assert_eq!(values, vec![2, 1, 0, 5, 4, 3]);
}

#[test]
fn flip_vertical_mirrors_columns() {
    let b = flip_vertical(&sample());
    let values: Vec<u8> = b.data.iter().map(|p| p.r).collect();
    assert_eq!(values, vec![3, 4, 5, 0, 1, 2]);
}

#[test]
fn four_quarter_turns_restore_image() {
    let a = sample();
    let b = rotate90(&rotate90(&rotate90(&rotate90(&a))));
    assert_eq!(a, b);
}

#[test]
fn two_flips_restore_image() {
    let a = sample();
    assert_eq!(flip_horizontal(&flip_horizontal(&a)), a);
    assert_eq!(flip_vertical(&flip_vertical(&a)), a);
}

#[test]
fn unpremultiply_scales_channels() {
    let a = ImageBuf { width: 2, height: 1, data: vec![px(100, 50, 200, 200), px(9, 9, 9, 0)] };
    let b = unpremultiply(&a);
    // 100 * 255 / 200 = 127 (truncated), 50 * 255 / 200 = 63, 200 * 255 / 200 = 255.
    assert_eq!(b.data[0], px(127, 63, 255, 200));
    // A fully transparent pixel becomes transparent black.
    assert_eq!(b.data[1], px(0, 0, 0, 0));
}

#[test]
fn handle_flattens_pixels_in_rgba_order() {
    let a = ImageBuf { width: 2, height: 1, data: vec![px(1, 2, 3, 4), px(5, 6, 7, 8)] };
    let h = create_image_handle(&a);
    assert_eq!((h.width, h.height), (2, 1));
    assert_eq!(h.rgba, vec![1, 2, 3, 4, 5, 6, 7, 8]);
}

#[test]
fn image_from_bytes_groups_pixels() {
    let bytes = vec![1, 2, 3, 4, 5, 6, 7, 8];
    let img = image_from_rgba_bytes(2, 1, &bytes);
    assert_eq!(img.data, vec![px(1, 2, 3, 4), px(5, 6, 7, 8)]);
}

#[test]
fn decimal_formatting() {
    assert_eq!(u32_to_string(0), "0");
    assert_eq!(u32_to_string(7), "7");
    assert_eq!(u32_to_string(10), "10");
    assert_eq!(u32_to_string(210), "210");
    assert_eq!(u32_to_string(4294967295), "4294967295");
}
