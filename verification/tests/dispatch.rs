//! The dispatcher contract, kind detection, the thumbnail pipeline and
//! the open-failure policy.

use noctua::content::{DocumentContent, RenderAction};
use noctua::crop::CropRegion;
use noctua::error::DocError;
use noctua::kind::DocumentKind;
use noctua::pixel::{ImageBuf, Rgba};
use noctua::portable::PortableDocument;
use noctua::raster::RasterDocument;
use noctua::transform::{Rotation, RotationMode};
use noctua::vector::VectorDocument;

fn gray(v: u8) -> Rgba {
    Rgba { r: v, g: v, b: v, a: 255 }
}

fn sample() -> ImageBuf {
    ImageBuf {
        width: 3,
        height: 2,
        data: vec![gray(0), gray(1), gray(2), gray(3), gray(4), gray(5)],
    }
}

fn thumb(v: u8) -> ImageBuf {
    ImageBuf { width: 1, height: 1, data: vec![gray(v)] }
}

fn portable(pages: usize) -> DocumentContent {
    DocumentContent::Portable(PortableDocument::open(pages, sample()).unwrap())
}

fn vector() -> DocumentContent {
    DocumentContent::Vector(VectorDocument::open(3, 2, &sample()).unwrap())
}

#[test]
fn kind_from_path_recognizes_the_fixed_sets() {
    assert_eq!(DocumentKind::from_path("a/b/photo.png"), Some(DocumentKind::Raster));
    assert_eq!(DocumentKind::from_path("photo.JPEG"), Some(DocumentKind::Raster));
    assert_eq!(DocumentKind::from_path("x.qoi"), Some(DocumentKind::Raster));
    assert_eq!(DocumentKind::from_path("scene.svg"), Some(DocumentKind::Vector));
    assert_eq!(DocumentKind::from_path("scene.SVGZ"), Some(DocumentKind::Vector));
    assert_eq!(DocumentKind::from_path("paper.pdf"), Some(DocumentKind::Portable));
    assert_eq!(DocumentKind::from_path("paper.PDF"), Some(DocumentKind::Portable));
}

#[test]
fn kind_from_path_yields_none_for_unrecognized_extensions() {
    assert_eq!(DocumentKind::from_path("notes.txt"), None);
    assert_eq!(DocumentKind::from_path("archive.tar.gz"), None);
    assert_eq!(DocumentKind::from_path("no_extension"), None);
    assert_eq!(DocumentKind::from_path(".bashrc"), None);
    assert_eq!(DocumentKind::from_path("dir.png/file"), None);
    assert_eq!(DocumentKind::from_path("trailing."), None);
    assert_eq!(DocumentKind::from_path(""), None);
}

#[test]
fn kind_labels() {
    assert_eq!(DocumentKind::Raster.label(), "Raster");
    assert_eq!(DocumentKind::Vector.label(), "Vector");
    assert_eq!(DocumentKind::Portable.label(), "Portable");
}

#[test]
fn crop_region_accessors() {
    let r = CropRegion::new(1, 2, 3, 4);
    assert_eq!(r.as_tuple(), (1, 2, 3, 4));
    assert!(r.is_valid());
    assert!(!CropRegion::new(1, 2, 0, 4).is_valid());
    assert!(!CropRegion::new(1, 2, 3, 0).is_valid());
}

#[test]
fn dispatcher_defaults_for_single_page_kinds() {
    let mut doc = vector();
    assert_eq!(doc.kind(), DocumentKind::Vector);
    assert!(!doc.is_multi_page());
    assert_eq!(doc.page_count(), 1);
    assert_eq!(doc.current_page(), 0);
    assert_eq!(doc.go_to_page(7).unwrap(), None);
    assert_eq!(doc.get_thumbnail(0), None);
    assert!(!doc.thumbnails_ready());
    assert!(!doc.all_thumbnails_loaded());
    assert_eq!(doc.thumbnails_loaded(), 0);
    assert_eq!(doc.get_thumbnail_handle(0), None);
    assert_eq!(doc.generate_thumbnail_page(0, None), None);
}

#[test]
fn dispatcher_reports_pages_for_portable_documents() {
    let mut doc = portable(5);
    assert_eq!(doc.kind(), DocumentKind::Portable);
    assert!(doc.is_multi_page());
    assert_eq!(doc.page_count(), 5);
    let req = doc.go_to_page(3).unwrap().unwrap();
    assert_eq!(req.page, 3);
    assert_eq!(doc.current_page(), 3);
    assert_eq!(doc.go_to_page(5).unwrap_err(), DocError::PageOutOfRange);
}

#[test]
fn five_page_thumbnail_generation_visits_pages_in_order() {
    let mut doc = portable(5);
    assert!(!doc.thumbnails_ready());
    let mut page = 0;
    for round in 0..5u8 {
        assert_eq!(doc.thumbnails_loaded(), round as usize);
        let next = doc.generate_thumbnail_page(page, Some(thumb(round)));
        assert_eq!(doc.thumbnails_loaded(), round as usize + 1);
        if round < 4 {
            assert!(!doc.thumbnails_ready());
            assert_eq!(next, Some(page + 1));
            page = next.unwrap();
        } else {
            assert_eq!(next, None);
        }
    }
    assert!(doc.thumbnails_ready());
    assert!(doc.all_thumbnails_loaded());
    // Each stored thumbnail shows the pixels fetched for its page.
    for v in 0..5u8 {
        let h = doc.get_thumbnail(v as usize).unwrap();
        assert_eq!(h.rgba, vec![v, v, v, 255]);
        assert_eq!(doc.get_thumbnail_handle(v as usize).unwrap().rgba, h.rgba);
    }
    assert_eq!(doc.get_thumbnail(5), None);
}

#[test]
fn covered_pages_generate_nothing() {
    let mut doc = portable(3);
    doc.generate_thumbnail_page(0, Some(thumb(1)));
    // Page 0 is already covered: the store stays as it is.
    let next = doc.generate_thumbnail_page(0, Some(thumb(9)));
    assert_eq!(next, Some(1));
    assert_eq!(doc.thumbnails_loaded(), 1);
    assert_eq!(doc.get_thumbnail(0).unwrap().rgba, vec![1, 1, 1, 255]);
    // A page past the end generates nothing either.
    assert_eq!(doc.generate_thumbnail_page(9, Some(thumb(9))), None);
    assert_eq!(doc.thumbnails_loaded(), 1);
}

#[test]
fn failed_thumbnail_leaves_a_transparent_placeholder() {
    let mut doc = portable(2);
    doc.generate_thumbnail_page(0, None);
    let h = doc.get_thumbnail(0).unwrap();
    assert_eq!((h.width, h.height), (1, 1));
    assert_eq!(h.rgba, vec![0, 0, 0, 0]);
    // The failure did not abort the sequence.
    doc.generate_thumbnail_page(1, Some(thumb(2)));
    assert!(doc.thumbnails_ready());
}

#[test]
fn generate_thumbnails_fills_the_whole_store() {
    let mut doc = portable(4);
    doc.generate_thumbnail_page(0, Some(thumb(7)));
    doc.generate_thumbnails(vec![Some(thumb(0)), Some(thumb(1)), None, Some(thumb(3))]);
    assert!(doc.thumbnails_ready());
    assert_eq!(doc.thumbnails_loaded(), 4);
    // The entry generated before the batch is kept.
    assert_eq!(doc.get_thumbnail(0).unwrap().rgba, vec![7, 7, 7, 255]);
    assert_eq!(doc.get_thumbnail(2).unwrap().rgba, vec![0, 0, 0, 0]);
}

#[test]
fn dispatcher_rotate_cw_reconciles_fine_rotation() {
    let mut doc = portable(2);
    doc.rotate_fine(4700);
    let req = doc.rotate_cw().unwrap();
    // 47 degrees snaps to 90; one step clockwise lands on 180.
    assert_eq!(req.rotation, Rotation::Cw180);
    assert_eq!(
        doc.transform_state().rotation,
        RotationMode::Standard(Rotation::Cw180)
    );
}

#[test]
fn dispatcher_rotate_cw_permutes_raster_pixels() {
    let mut doc = DocumentContent::Raster(raster_from_sample());
    let before = doc.handle();
    assert_eq!(doc.rotate_cw(), None);
    assert_eq!(doc.dimensions(), (2, 3));
    for _ in 0..3 {
        doc.rotate_cw();
    }
    assert_eq!(doc.dimensions(), (3, 2));
    assert_eq!(doc.handle().rgba, before.rgba);
}

fn raster_from_sample() -> RasterDocument {
    // Round-trip the sample through the codec so the raster backend is
    // built the way it always is: from encoded bytes.
    let flat: Vec<u8> = sample().data.iter().flat_map(|p| [p.r, p.g, p.b, p.a]).collect();
    let img = image::RgbaImage::from_raw(3, 2, flat).unwrap();
    let mut bytes: Vec<u8> = Vec::new();
    image::DynamicImage::ImageRgba8(img)
        .write_to(&mut std::io::Cursor::new(&mut bytes), image::ImageFormat::Png)
        .unwrap();
    RasterDocument::open(&bytes).unwrap()
}

#[test]
fn dispatcher_flip_twice_restores_content() {
    let mut doc = vector();
    let before = doc.handle();
    doc.flip_horizontal();
    doc.flip_horizontal();
    assert_eq!(doc.handle().rgba, before.rgba);
    doc.flip_vertical();
    doc.flip_vertical();
    assert_eq!(doc.handle().rgba, before.rgba);
}

#[test]
fn dispatcher_render_signals_vector_rasterization() {
    let mut doc = vector();
    // Same scale: the cached output, no recomputation.
    match doc.render(1000) {
        RenderAction::Output(o) => assert_eq!((o.width, o.height), (3, 2)),
        RenderAction::Rasterize(_, _) => panic!("no rasterization was needed"),
    }
    // New scale: the dispatcher asks for a fresh rasterization.
    match doc.render(2000) {
        RenderAction::Rasterize(w, h) => assert_eq!((w, h), (6, 4)),
        RenderAction::Output(_) => panic!("a rasterization was needed"),
    }
    let big = ImageBuf { width: 6, height: 4, data: vec![gray(9); 24] };
    assert!(doc.apply_vector_render(2000, &big));
    match doc.render(2000) {
        RenderAction::Output(o) => assert_eq!((o.width, o.height), (6, 4)),
        RenderAction::Rasterize(_, _) => panic!("the new scale is now cached"),
    }
}

#[test]
fn dispatcher_crop_policies_differ_by_kind() {
    // Raster and vector reject an oversized extent outright.
    let mut v = vector();
    assert_eq!(v.crop(1, 0, 3, 1).unwrap_err(), DocError::CropOutOfBounds);
    assert_eq!(v.dimensions(), (3, 2));
    // Portable clamps it, given a corner in bounds.
    let mut p = portable(1);
    p.crop(1, 0, 3, 9).unwrap();
    assert_eq!(p.dimensions(), (2, 2));
}

#[test]
fn failed_open_keeps_the_current_document_intact() {
    let current = portable(3);
    let dims = current.dimensions();
    let handle = current.handle();
    let state = current.transform_state();
    // A second open fails: the displayed document must survive as is.
    let candidate: Result<DocumentContent, DocError> =
        RasterDocument::open(&[0, 1, 2]).map(DocumentContent::Raster);
    let (kept, err) = DocumentContent::replace_or_keep(current, candidate);
    assert_eq!(err, Some(DocError::DecodeFailed));
    assert_eq!(kept.dimensions(), dims);
    assert_eq!(kept.handle().rgba, handle.rgba);
    assert_eq!(kept.transform_state(), state);
    assert_eq!(kept.page_count(), 3);
}

#[test]
fn successful_open_replaces_the_current_document() {
    let current = portable(3);
    let candidate: Result<DocumentContent, DocError> = Ok(vector());
    let (kept, err) = DocumentContent::replace_or_keep(current, candidate);
    assert_eq!(err, None);
    assert_eq!(kept.kind(), DocumentKind::Vector);
}

#[test]
fn metadata_snapshot_carries_file_facts_and_format() {
    let doc = portable(5);
    let m = doc.extract_meta("paper.pdf".to_string(), "/tmp/paper.pdf".to_string(), 1234);
    assert_eq!(m.file_name, "paper.pdf");
    assert_eq!(m.file_path, "/tmp/paper.pdf");
    assert_eq!(m.file_size, 1234);
    assert_eq!(m.format, "PDF (5 pages)");
    assert_eq!((m.width, m.height), (3, 2));
    let v = vector();
    assert_eq!(v.extract_meta("s.svg".to_string(), "s.svg".to_string(), 10).format, "SVG");
}

#[test]
fn error_messages_are_nonempty_and_distinct() {
    let all = [
        DocError::DecodeFailed,
        DocError::EmptyDocument,
        DocError::PageOutOfRange,
        DocError::CropOutOfBounds,
        DocError::RenderFailed,
        DocError::Unsupported,
    ];
    for (i, a) in all.iter().enumerate() {
        assert!(!a.message().is_empty());
        for b in all.iter().skip(i + 1) {
            assert_ne!(a.message(), b.message());
        }
    }
}
