//! The raster backend: one decoded pixel buffer, mutated in place.
//!
//! Every transform is an exact pixel permutation applied destructively
//! to the owned buffer; a crop replaces the buffer with the sub-region
//! and resets the transform bookkeeping, making the crop the new native
//! image.

use vstd::prelude::*;

use crate::crop::spec_crop_fits;
use crate::error::DocError;
use crate::meta::{build_raster_meta, DocumentInfo, DocumentMeta};
use crate::ops::{flip_horizontal, flip_vertical, is_crop_of, is_flip_h, is_flip_v, is_rotate180,
    is_rotate270, is_rotate90, crop_rect, rotate180, rotate270, rotate90};
use crate::pixel::{create_image_handle, image_from_rgba_bytes, spec_pixels_match_bytes, ImageBuf,
    ImageHandle, RenderOutput};
use crate::transform::{FlipDirection, Rotation, RotationMode, TransformState};

verus! {

/// What the image codec decodes a byte stream to, when it recognizes
/// one: width, height, and the flat RGBA bytes, a pure function of the
/// input bytes.
pub uninterp spec fn decoded_image(bytes: Seq<u8>) -> Option<(nat, nat, Seq<u8>)>;

/// Relies on `image::load_from_memory` and `DynamicImage::to_rgba8`:
/// decoding is a pure function of the bytes, and the returned RGBA
/// container holds exactly `4 * width * height` samples.
#[verifier::external_body]
fn decode_rgba(bytes: &[u8]) -> (r: Result<(u32, u32, Vec<u8>), DocError>)
    ensures
        r is Ok <==> decoded_image(bytes@) is Some,
        r matches Ok(t) ==> {
            &&& decoded_image(bytes@) == Some((t.0 as nat, t.1 as nat, t.2@))
            &&& t.2@.len() == 4 * (t.0 * t.1)
        },
        r matches Err(e) ==> e == DocError::DecodeFailed,
{
    match image::load_from_memory(bytes) {
        Ok(img) => {
            let rgba = img.to_rgba8();
            let w = rgba.width();
            let h = rgba.height();
            Ok((w, h, rgba.into_raw()))
        },
        Err(_) => Err(DocError::DecodeFailed),
    }
}

/// A raster image document.
#[derive(Debug)]
pub struct RasterDocument {
    /// The decoded pixels: the cumulative result of every transform and
    /// crop applied so far.
    pub document: ImageBuf,
    /// Native width recorded when the buffer last became native (open
    /// or crop); metadata only.
    pub native_width: u32,
    /// Native height, as above.
    pub native_height: u32,
    /// Accumulated transform state.
    pub transform: TransformState,
    /// Display handle, rebuilt after every mutation.
    pub handle: ImageHandle,
}

impl RasterDocument {
    /// The buffer is well-formed and the handle shows it.
    pub open spec fn wf(self) -> bool {
        &&& self.document.wf()
        &&& self.handle.matches(self.document)
    }

    /// Decode a raster document from the bytes of its file.
    ///
    /// Fails exactly when the codec recognizes no image in the bytes;
    /// on success the pixels are the decoded RGBA image, the native
    /// dimensions are recorded, and the transform state is identity.
    pub fn open(bytes: &[u8]) -> (r: Result<RasterDocument, DocError>)
        ensures
            r is Ok <==> decoded_image(bytes@) is Some,
            r matches Ok(doc) ==> {
                &&& doc.wf()
                &&& decoded_image(bytes@) matches Some(t) && doc.document.width == t.0
                    && doc.document.height == t.1 && spec_pixels_match_bytes(doc.document.data@, t.2)
                &&& doc.native_width == doc.document.width
                &&& doc.native_height == doc.document.height
                &&& doc.transform == TransformState::spec_identity()
            },
            r matches Err(e) ==> e == DocError::DecodeFailed,
    {
        let (w, h, data) = match decode_rgba(bytes) {
            Ok(t) => t,
            Err(e) => {
                return Err(e);
            },
        };
        let document = image_from_rgba_bytes(w, h, &data);
        let handle = create_image_handle(&document);
        Ok(RasterDocument {
            document,
            native_width: w,
            native_height: h,
            transform: TransformState::identity(),
            handle,
        })
    }

    /// The current pixel dimensions, after transforms.
    pub fn dimensions(&self) -> (d: (u32, u32))
        ensures
            d.0 == self.document.width,
            d.1 == self.document.height,
    {
        self.document.dimensions()
    }

    /// The current transform state.
    pub fn transform_state(&self) -> (t: TransformState)
        ensures
            t == self.transform,
    {
        self.transform
    }

    /// Rotate the buffer so that its rotation state becomes `rotation`:
    /// the difference between the current and requested quarter turns
    /// is applied as an exact pixel permutation, in place.
    pub fn rotate(&mut self, rotation: Rotation)
        requires
            old(self).wf(),
        ensures
            final(self).wf(),
            final(self).transform.rotation == RotationMode::Standard(rotation),
            final(self).transform.flip_h == old(self).transform.flip_h,
            final(self).transform.flip_v == old(self).transform.flip_v,
            final(self).native_width == old(self).native_width,
            final(self).native_height == old(self).native_height,
            ({
                let diff = (rotation.spec_qturns() - old(self).transform.rotation.spec_qturns()
                    + 4) % 4;
                &&& diff == 0 ==> final(self).document == old(self).document
                &&& diff == 1 ==> is_rotate90(old(self).document, final(self).document)
                &&& diff == 2 ==> is_rotate180(old(self).document, final(self).document)
                &&& diff == 3 ==> is_rotate270(old(self).document, final(self).document)
            }),
    {
        let current = self.transform.rotation.snap();
        let diff: u32 = (4 + rotation.qturns() - current.qturns()) % 4;
        if diff == 1 {
            self.document = rotate90(&self.document);
        } else if diff == 2 {
            self.document = rotate180(&self.document);
        } else if diff == 3 {
            self.document = rotate270(&self.document);
        }
        self.transform = TransformState {
            rotation: RotationMode::Standard(rotation),
            ..self.transform
        };
        self.handle = create_image_handle(&self.document);
    }

    /// Record a fine rotation angle (hundredths of a degree).  The
    /// pixels are untouched: a raster buffer only supports quarter-turn
    /// permutations, so the angle takes effect when it is reconciled to
    /// a standard step.
    pub fn rotate_fine(&mut self, centi_degrees: i32)
        requires
            old(self).wf(),
        ensures
            final(self).wf(),
            final(self).transform.rotation == RotationMode::Fine(centi_degrees),
            final(self).transform.flip_h == old(self).transform.flip_h,
            final(self).transform.flip_v == old(self).transform.flip_v,
            final(self).document == old(self).document,
            final(self).handle == old(self).handle,
            final(self).native_width == old(self).native_width,
            final(self).native_height == old(self).native_height,
    {
        self.transform = TransformState {
            rotation: RotationMode::Fine(centi_degrees),
            ..self.transform
        };
    }

    /// Mirror the buffer in place along one axis and toggle the
    /// matching flip flag.
    pub fn flip(&mut self, direction: FlipDirection)
        requires
            old(self).wf(),
        ensures
            final(self).wf(),
            final(self).transform == old(self).transform.spec_toggled(direction),
            final(self).native_width == old(self).native_width,
            final(self).native_height == old(self).native_height,
            direction is Horizontal ==> is_flip_h(old(self).document, final(self).document),
            direction is Vertical ==> is_flip_v(old(self).document, final(self).document),
    {
        match direction {
            FlipDirection::Horizontal => {
                self.document = flip_horizontal(&self.document);
            },
            FlipDirection::Vertical => {
                self.document = flip_vertical(&self.document);
            },
        }
        self.transform = self.transform.toggled(direction);
        self.handle = create_image_handle(&self.document);
    }

    /// Crop the buffer to a rectangle, strictly validated against the
    /// current dimensions.  A successful crop becomes the new native
    /// image: the transform state resets to identity.  On rejection
    /// nothing changes.
    pub fn crop(&mut self, x: u32, y: u32, width: u32, height: u32) -> (r: Result<(), DocError>)
        requires
            old(self).wf(),
        ensures
            final(self).wf(),
            r is Ok <==> spec_crop_fits(
                x as int,
                y as int,
                width as int,
                height as int,
                old(self).document.width as int,
                old(self).document.height as int,
            ),
            r is Ok ==> {
                &&& is_crop_of(
                    old(self).document,
                    final(self).document,
                    x as int,
                    y as int,
                    width as int,
                    height as int,
                )
                &&& final(self).native_width == width
                &&& final(self).native_height == height
                &&& final(self).transform == TransformState::spec_identity()
            },
            r matches Err(e) ==> e == DocError::CropOutOfBounds && *final(self) == *old(self),
    {
        if !crate::crop::crop_fits(x, y, width, height, self.document.width, self.document.height)
        {
            return Err(DocError::CropOutOfBounds);
        }
        self.document = crop_rect(&self.document, x, y, width, height);
        self.native_width = width;
        self.native_height = height;
        self.transform = TransformState::identity();
        self.handle = create_image_handle(&self.document);
        Ok(())
    }

    /// Extract the cropped rectangle as a fresh image without touching
    /// the document; used for exporting.
    pub fn crop_to_image(&self, x: u32, y: u32, width: u32, height: u32) -> (r: Result<
        ImageBuf,
        DocError,
    >)
        requires
            self.wf(),
        ensures
            r is Ok <==> spec_crop_fits(
                x as int,
                y as int,
                width as int,
                height as int,
                self.document.width as int,
                self.document.height as int,
            ),
            r matches Ok(img) ==> img.wf() && is_crop_of(
                self.document,
                img,
                x as int,
                y as int,
                width as int,
                height as int,
            ),
            r matches Err(e) ==> e == DocError::CropOutOfBounds,
    {
        if !crate::crop::crop_fits(x, y, width, height, self.document.width, self.document.height)
        {
            return Err(DocError::CropOutOfBounds);
        }
        Ok(crop_rect(&self.document, x, y, width, height))
    }

    /// Raster content does not re-derive at other scales: whatever the
    /// requested scale, the already materialized buffer is returned.
    pub fn render(&mut self, _scale_millis: u32) -> (out: RenderOutput)
        requires
            old(self).wf(),
        ensures
            *final(self) == *old(self),
            out.width == old(self).document.width,
            out.height == old(self).document.height,
            out.handle.same_image(old(self).handle),
    {
        let handle = self.handle.clone();
        RenderOutput { handle, width: self.document.width, height: self.document.height }
    }

    /// Basic information: the recorded native dimensions.
    pub fn info(&self) -> (i: DocumentInfo)
        ensures
            i.width == self.native_width,
            i.height == self.native_height,
            i.format@ == "Raster"@,
    {
        DocumentInfo {
            width: self.native_width,
            height: self.native_height,
            format: String::from_str("Raster"),
        }
    }

    /// Build the metadata snapshot from the current state and the
    /// file facts the caller supplies.
    pub fn extract_meta(&self, file_name: String, file_path: String, file_size: u64) -> (m:
        DocumentMeta)
        ensures
            m.file_name == file_name,
            m.file_path == file_path,
            m.file_size == file_size,
            m.width == self.document.width,
            m.height == self.document.height,
            m.format@ == "Raster"@,
    {
        build_raster_meta(file_name, file_path, file_size, self.document.width,
            self.document.height)
    }
}

} // verus!
