//! The three backends: raster (through the real codec), vector, and
//! portable, each against its contract.

use std::io::Cursor;

use noctua::error::DocError;
use noctua::pixel::{ImageBuf, Rgba};
use noctua::portable::{page_render_geometry, PortableDocument, PAGE_RENDER_SCALE_MILLIS};
use noctua::raster::RasterDocument;
use noctua::transform::{FlipDirection, Rotation, RotationMode, TransformState};
use noctua::vector::VectorDocument;

fn px(r: u8, g: u8, b: u8, a: u8) -> Rgba {
    Rgba { r, g, b, a }
}

fn gray(v: u8) -> Rgba {
    px(v, v, v, 255)
}

/// A 3x2 test image:
///   0 1 2
///   3 4 5
fn sample() -> ImageBuf {
    ImageBuf {
        width: 3,
        height: 2,
        data: vec![gray(0), gray(1), gray(2), gray(3), gray(4), gray(5)],
    }
}

fn values(img: &ImageBuf) -> Vec<u8> {
    img.data.iter().map(|p| p.r).collect()
}

/// Encode a 2x1 image (red, green) as PNG bytes with the real codec.
fn png_bytes() -> Vec<u8> {
    let img = image::RgbaImage::from_raw(2, 1, vec![255, 0, 0, 255, 0, 255, 0, 255]).unwrap();
    let mut bytes: Vec<u8> = Vec::new();
    image::DynamicImage::ImageRgba8(img)
        .write_to(&mut Cursor::new(&mut bytes), image::ImageFormat::Png)
        .unwrap();
    bytes
}

#[test]
fn raster_open_decodes_real_png() {
    let doc = RasterDocument::open(&png_bytes()).unwrap();
    assert_eq!(doc.dimensions(), (2, 1));
    assert_eq!(doc.document.data, vec![px(255, 0, 0, 255), px(0, 255, 0, 255)]);
    assert_eq!(doc.transform_state(), TransformState::identity());
    // The handle shows the same pixels.
    assert_eq!(doc.handle.rgba, vec![255, 0, 0, 255, 0, 255, 0, 255]);
}

#[test]
fn raster_open_rejects_garbage() {
    let r = RasterDocument::open(&[1, 2, 3, 4, 5]);
    assert_eq!(r.unwrap_err(), DocError::DecodeFailed);
}

#[test]
fn raster_rotate_applies_quarter_turn_difference() {
    let mut doc = RasterDocument::open(&png_bytes()).unwrap();
    doc.rotate(Rotation::Cw90);
    assert_eq!(doc.dimensions(), (1, 2));
    assert_eq!(doc.document.data, vec![px(255, 0, 0, 255), px(0, 255, 0, 255)]);
    // Rotating to the same target is a no-op on the pixels.
    doc.rotate(Rotation::Cw90);
    assert_eq!(doc.dimensions(), (1, 2));
    // Back to zero: three more quarter turns.
    doc.rotate(Rotation::Zero);
    assert_eq!(doc.dimensions(), (2, 1));
    assert_eq!(doc.document.data, vec![px(255, 0, 0, 255), px(0, 255, 0, 255)]);
}

#[test]
fn raster_flip_mirrors_in_place() {
    let mut doc = RasterDocument::open(&png_bytes()).unwrap();
    doc.flip(FlipDirection::Horizontal);
    assert_eq!(doc.document.data, vec![px(0, 255, 0, 255), px(255, 0, 0, 255)]);
    assert!(doc.transform_state().flip_h);
    doc.flip(FlipDirection::Horizontal);
    assert_eq!(doc.document.data, vec![px(255, 0, 0, 255), px(0, 255, 0, 255)]);
    assert!(!doc.transform_state().flip_h);
}

#[test]
fn raster_crop_strictly_validates_bounds() {
    let mut doc = RasterDocument::open(&png_bytes()).unwrap();
    // 1 + 2 > 2: out of bounds, nothing changes.
    let r = doc.crop(1, 0, 2, 1);
    assert_eq!(r.unwrap_err(), DocError::CropOutOfBounds);
    assert_eq!(doc.dimensions(), (2, 1));
    // Zero extent is rejected as well.
    assert_eq!(doc.crop(0, 0, 0, 1).unwrap_err(), DocError::CropOutOfBounds);
    // A valid crop becomes the new native image with identity state.
    doc.flip(FlipDirection::Vertical);
    doc.crop(1, 0, 1, 1).unwrap();
    assert_eq!(doc.dimensions(), (1, 1));
    assert_eq!(doc.document.data, vec![px(0, 255, 0, 255)]);
    assert_eq!(doc.native_width, 1);
    assert_eq!(doc.transform_state(), TransformState::identity());
}

#[test]
fn raster_crop_to_image_leaves_document_alone() {
    let doc = RasterDocument::open(&png_bytes()).unwrap();
    let cut = doc.crop_to_image(0, 0, 1, 1).unwrap();
    assert_eq!(cut.data, vec![px(255, 0, 0, 255)]);
    assert_eq!(doc.dimensions(), (2, 1));
    assert!(doc.crop_to_image(0, 0, 3, 1).is_err());
}

#[test]
fn raster_render_ignores_scale() {
    let mut doc = RasterDocument::open(&png_bytes()).unwrap();
    let out1 = doc.render(1000);
    let out2 = doc.render(3500);
    assert_eq!((out1.width, out1.height), (2, 1));
    assert_eq!(out1.handle.rgba, out2.handle.rgba);
}

#[test]
fn vector_open_checks_rasterization_size() {
    // Native 3x2 at scale 1.0 needs a 3x2 rasterization.
    let doc = VectorDocument::open(3, 2, &sample()).unwrap();
    assert_eq!(doc.dimensions(), (3, 2));
    assert!(!doc.cropped);
    let wrong = VectorDocument::open(4, 2, &sample());
    assert_eq!(wrong.unwrap_err(), DocError::RenderFailed);
}

#[test]
fn vector_render_same_scale_recomputes_nothing() {
    let mut doc = VectorDocument::open(3, 2, &sample()).unwrap();
    // At the current scale there is nothing to rasterize.
    assert_eq!(doc.render_target(1000), None);
    let before = doc.rendered.clone();
    assert!(!doc.render_at_scale(1000, &sample()));
    assert_eq!(doc.rendered, before);
    // A new scale asks for ceil(native * scale) with a 1-pixel floor.
    assert_eq!(doc.render_target(1500), Some((5, 3)));
}

#[test]
fn vector_render_at_new_scale_installs_fresh_raster() {
    let mut doc = VectorDocument::open(3, 2, &sample()).unwrap();
    let big = ImageBuf { width: 6, height: 4, data: vec![gray(9); 24] };
    assert!(doc.render_at_scale(2000, &big));
    assert_eq!(doc.dimensions(), (6, 4));
    assert_eq!(doc.scale_millis, 2000);
    // A rasterization of the wrong size is refused and nothing changes.
    assert!(!doc.render_at_scale(3000, &big));
    assert_eq!(doc.scale_millis, 2000);
}

#[test]
fn vector_four_rotations_restore_pixels() {
    let mut doc = VectorDocument::open(3, 2, &sample()).unwrap();
    let before = doc.rendered.clone();
    doc.rotate_cw();
    assert_eq!(doc.dimensions(), (2, 3));
    assert_eq!(values(&doc.rendered), vec![3, 0, 4, 1, 5, 2]);
    doc.rotate_cw();
    doc.rotate_cw();
    doc.rotate_cw();
    assert_eq!(doc.rendered, before);
}

#[test]
fn vector_two_flips_restore_pixels() {
    let mut doc = VectorDocument::open(3, 2, &sample()).unwrap();
    let before = doc.rendered.clone();
    doc.flip_horizontal();
    assert_eq!(values(&doc.rendered), vec![2, 1, 0, 5, 4, 3]);
    doc.flip_horizontal();
    assert_eq!(doc.rendered, before);
    doc.flip_vertical();
    doc.flip_vertical();
    assert_eq!(doc.rendered, before);
}

#[test]
fn vector_flip_precedes_rotation_in_the_stack() {
    let mut doc = VectorDocument::open(3, 2, &sample()).unwrap();
    doc.rotate_cw();
    doc.flip_horizontal();
    // flip_h is applied to the base before the rotation: mirror rows of
    // the base, then rotate clockwise.
    assert_eq!(values(&doc.rendered), vec![5, 2, 4, 1, 3, 0]);
}

#[test]
fn vector_crop_is_terminal() {
    let mut doc = VectorDocument::open(3, 2, &sample()).unwrap();
    assert_eq!(doc.crop(0, 0, 4, 1).unwrap_err(), DocError::CropOutOfBounds);
    doc.crop(1, 0, 2, 1).unwrap();
    assert!(doc.cropped);
    assert_eq!(doc.dimensions(), (2, 1));
    assert_eq!(values(&doc.rendered), vec![1, 2]);
    // Re-scaling is disabled after the crop.
    assert_eq!(doc.render_target(2000), None);
    assert!(!doc.render_at_scale(2000, &sample()));
    // Transforms now mutate the cropped raster in place.
    doc.rotate_cw();
    assert_eq!(doc.dimensions(), (1, 2));
    assert_eq!(values(&doc.rendered), vec![1, 2]);
}

#[test]
fn portable_open_rejects_empty_documents() {
    assert_eq!(PortableDocument::open(0, sample()).unwrap_err(), DocError::EmptyDocument);
    let doc = PortableDocument::open(5, sample()).unwrap();
    assert_eq!(doc.page_count(), 5);
    assert_eq!(doc.current_page(), 0);
    assert_eq!(doc.dimensions(), (3, 2));
}

#[test]
fn portable_page_navigation() {
    let mut doc = PortableDocument::open(3, sample()).unwrap();
    let req = doc.go_to_page(2).unwrap();
    assert_eq!(req.page, 2);
    assert_eq!(req.rotation, Rotation::Zero);
    assert_eq!(req.scale_millis, PAGE_RENDER_SCALE_MILLIS);
    assert_eq!(doc.current_page(), 2);
    // Out of range: error, cursor untouched.
    assert_eq!(doc.go_to_page(3).unwrap_err(), DocError::PageOutOfRange);
    assert_eq!(doc.current_page(), 2);
    assert!(doc.next_page().is_none());
    assert_eq!(doc.prev_page().unwrap().page, 1);
    assert_eq!(doc.current_page(), 1);
}

#[test]
fn portable_rotation_is_baked_into_the_render_request() {
    let mut doc = PortableDocument::open(2, sample()).unwrap();
    let req = doc.rotate_cw();
    assert_eq!(req.rotation, Rotation::Cw90);
    assert_eq!(req.page, 0);
    let req = doc.rotate_cw();
    assert_eq!(req.rotation, Rotation::Cw180);
    // The rendered raster is only replaced when the request completes.
    let rotated = ImageBuf { width: 2, height: 3, data: vec![gray(7); 6] };
    doc.apply_page_render(&rotated);
    assert_eq!(doc.dimensions(), (2, 3));
}

#[test]
fn portable_fine_rotation_reconciles_before_the_backend_sees_it() {
    let mut doc = PortableDocument::open(2, sample()).unwrap();
    doc.rotate_fine(4700);
    assert_eq!(doc.transform_state().rotation, RotationMode::Fine(4700));
    // Stepping clockwise reconciles 47 degrees to 90 and then adds 90.
    let req = doc.rotate_cw();
    assert_eq!(req.rotation, Rotation::Cw180);
    assert_eq!(
        doc.transform_state().rotation,
        RotationMode::Standard(Rotation::Cw180)
    );
}

#[test]
fn portable_flip_is_a_post_process_on_the_rendered_page() {
    let mut doc = PortableDocument::open(1, sample()).unwrap();
    doc.flip(FlipDirection::Horizontal);
    assert_eq!(values(&doc.rendered), vec![2, 1, 0, 5, 4, 3]);
    doc.flip(FlipDirection::Horizontal);
    assert_eq!(values(&doc.rendered), vec![0, 1, 2, 3, 4, 5]);
}

#[test]
fn portable_crop_clamps_the_extent() {
    let mut doc = PortableDocument::open(1, sample()).unwrap();
    // Corner in bounds, oversized extent: clamped to (width-x, height-y).
    doc.crop(1, 1, 100, 100).unwrap();
    assert_eq!(doc.dimensions(), (2, 1));
    assert_eq!(values(&doc.rendered), vec![4, 5]);
}

#[test]
fn portable_crop_rejects_bad_corner_or_empty_extent() {
    let mut doc = PortableDocument::open(1, sample()).unwrap();
    assert_eq!(doc.crop(3, 0, 1, 1).unwrap_err(), DocError::CropOutOfBounds);
    assert_eq!(doc.crop(0, 2, 1, 1).unwrap_err(), DocError::CropOutOfBounds);
    assert_eq!(doc.crop(0, 0, 0, 1).unwrap_err(), DocError::CropOutOfBounds);
    assert_eq!(doc.dimensions(), (3, 2));
}

#[test]
fn page_geometry_swaps_and_scales() {
    // A 612x792 page at double scale.
    assert_eq!(page_render_geometry(612, 792, Rotation::Zero, 2000), (1224, 1584));
    // Quarter-turn rotations swap the bounding box.
    assert_eq!(page_render_geometry(612, 792, Rotation::Cw90, 2000), (1584, 1224));
    assert_eq!(page_render_geometry(612, 792, Rotation::Cw270, 2000), (1584, 1224));
    assert_eq!(page_render_geometry(612, 792, Rotation::Cw180, 2000), (1224, 1584));
    // The size is the ceiling of the product.
    assert_eq!(page_render_geometry(3, 1, Rotation::Zero, 1500), (5, 2));
}
