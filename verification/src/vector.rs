//! The vector backend: a retained scene, re-rasterized on every change.
//!
//! The parsed scene itself lives with the embedding rasterizer; this
//! backend owns everything derived from it: the native size, the
//! current scale, the accumulated transform, the untransformed
//! rasterization at the current scale (the base), and the displayed
//! raster, which is always recomputed from the base — never from a
//! previous transformed raster — so repeated transforms lose nothing.
//!
//! A crop is terminal: it operates on the displayed raster and disables
//! re-scaling, after which transforms mutate the cropped raster in
//! place exactly as the raster backend would.

use vstd::prelude::*;

use crate::crop::spec_crop_fits;
use crate::error::DocError;
use crate::meta::{build_vector_meta, DocumentInfo, DocumentMeta};
use crate::ops::{crop_rect, flip_horizontal, flip_vertical, is_crop_of, is_flip_h, is_flip_v,
    is_rotate180, is_rotate270, is_rotate90, rotate180, rotate270, rotate90,
    spec_unpremultiply_px, unpremultiply};
use crate::pixel::{create_image_handle, lemma_pixels_determine_data, ImageBuf, ImageHandle,
    RenderOutput};

verus! {

/// Accumulated transformations of a vector document.
#[derive(Debug, Clone, Copy, PartialEq, Eq, Structural)]
pub struct VectorTransform {
    /// Rotation in degrees: 0, 90, 180 or 270.
    pub rotation: i16,
    /// Horizontal flip.
    pub flip_h: bool,
    /// Vertical flip.
    pub flip_v: bool,
}

impl VectorTransform {
    /// The rotation is one of the four quarter-turn angles.
    pub open spec fn wf(self) -> bool {
        self.rotation == 0 || self.rotation == 90 || self.rotation == 180 || self.rotation == 270
    }

    /// No rotation, no flips.
    pub open spec fn spec_identity() -> VectorTransform {
        VectorTransform { rotation: 0, flip_h: false, flip_v: false }
    }

    /// Build the identity transform.
    pub fn identity() -> (t: VectorTransform)
        ensures
            t == VectorTransform::spec_identity(),
    {
        VectorTransform { rotation: 0, flip_h: false, flip_v: false }
    }
}

impl Default for VectorTransform {
    /// The identity transform.
    fn default() -> (t: Self)
        ensures
            t == VectorTransform::spec_identity(),
    {
        VectorTransform::identity()
    }
}

/// The rotation angle one clockwise quarter turn further.
pub open spec fn spec_rot_step_cw(r: int) -> int {
    if r == 270 {
        0
    } else {
        r + 90
    }
}

/// The rotation angle one counter-clockwise quarter turn further.
pub open spec fn spec_rot_step_ccw(r: int) -> int {
    if r == 0 {
        270
    } else {
        r - 90
    }
}

/// Source column in the base raster for output position `(x, y)` after
/// undoing the rotation (the flips are undone separately).
pub open spec fn spec_vt_mid_x(rot: int, fw: int, fh: int, x: int, y: int) -> int {
    if rot == 90 {
        y
    } else if rot == 180 {
        fw - 1 - x
    } else if rot == 270 {
        fw - 1 - y
    } else {
        x
    }
}

/// Source row in the base raster for output position `(x, y)` after
/// undoing the rotation.
pub open spec fn spec_vt_mid_y(rot: int, fw: int, fh: int, x: int, y: int) -> int {
    if rot == 90 {
        fh - 1 - x
    } else if rot == 180 {
        fh - 1 - y
    } else if rot == 270 {
        x
    } else {
        y
    }
}

/// Source column in the base raster for output position `(x, y)`,
/// undoing the rotation and then the horizontal flip.
pub open spec fn spec_vt_src_x(t: VectorTransform, fw: int, fh: int, x: int, y: int) -> int {
    let mx = spec_vt_mid_x(t.rotation as int, fw, fh, x, y);
    if t.flip_h {
        fw - 1 - mx
    } else {
        mx
    }
}

/// Source row in the base raster for output position `(x, y)`,
/// undoing the rotation and then the vertical flip.
pub open spec fn spec_vt_src_y(t: VectorTransform, fw: int, fh: int, x: int, y: int) -> int {
    let my = spec_vt_mid_y(t.rotation as int, fw, fh, x, y);
    if t.flip_v {
        fh - 1 - my
    } else {
        my
    }
}

/// `out` is `base` with the transform stack applied in the fixed order:
/// flip left-right if set, then flip top-bottom if set, then rotate.
/// Every output pixel is named exactly from its source pixel.
pub open spec fn spec_vt_applied(base: ImageBuf, t: VectorTransform, out: ImageBuf) -> bool {
    let fw = base.width as int;
    let fh = base.height as int;
    &&& (t.rotation == 90 || t.rotation == 270) ==> out.width == fh && out.height == fw
    &&& (t.rotation == 0 || t.rotation == 180) ==> out.width == fw && out.height == fh
    &&& forall|x: int, y: int|
        out.in_bounds(x, y) ==> out.px(x, y) == base.px(
            spec_vt_src_x(t, fw, fh, x, y),
            spec_vt_src_y(t, fw, fh, x, y),
        )
}

/// Apply the transform stack to a fresh copy of `base`.
pub fn apply_vector_transform(base: &ImageBuf, t: &VectorTransform) -> (out: ImageBuf)
    requires
        base.wf(),
        t.wf(),
    ensures
        out.wf(),
        spec_vt_applied(*base, *t, out),
{
    let ghost fw = base.width as int;
    let ghost fh = base.height as int;
    let step1: ImageBuf = if t.flip_h {
        flip_horizontal(base)
    } else {
        base.clone()
    };
    let ghost g1 = step1;
    let step2: ImageBuf = if t.flip_v {
        flip_vertical(&step1)
    } else {
        step1
    };
    let ghost g2 = step2;
    let out: ImageBuf = if t.rotation == 90 {
        rotate90(&step2)
    } else if t.rotation == 180 {
        rotate180(&step2)
    } else if t.rotation == 270 {
        rotate270(&step2)
    } else {
        step2
    };
    proof {
        assert(g1.width == fw && g1.height == fh);
        assert(g2.width == fw && g2.height == fh);
        let rot = t.rotation as int;
        assert forall|x: int, y: int| out.in_bounds(x, y) implies out.px(x, y) == base.px(
            spec_vt_src_x(*t, fw, fh, x, y),
            spec_vt_src_y(*t, fw, fh, x, y),
        ) by {
            let mx = spec_vt_mid_x(rot, fw, fh, x, y);
            let my = spec_vt_mid_y(rot, fw, fh, x, y);
            if rot == 90 {
                assert(out.px(x, y) == g2.px(y, fh - 1 - x));
            } else if rot == 180 {
                assert(out.px(x, y) == g2.px(fw - 1 - x, fh - 1 - y));
            } else if rot == 270 {
                assert(out.px(x, y) == g2.px(fw - 1 - y, x));
            } else {
                assert(out.px(x, y) == g2.px(x, y));
            }
            assert(0 <= mx < fw && 0 <= my < fh);
            assert(g2.in_bounds(mx, my));
            if t.flip_v {
                assert(g2.px(mx, my) == g1.px(mx, fh - 1 - my));
            } else {
                assert(g2.px(mx, my) == g1.px(mx, my));
            }
            let sy = if t.flip_v {
                fh - 1 - my
            } else {
                my
            };
            assert(g1.in_bounds(mx, sy));
            if t.flip_h {
                assert(g1.px(mx, sy) == base.px(fw - 1 - mx, sy));
            } else {
                assert(g1.px(mx, sy) == base.px(mx, sy));
            }
        }
    }
    out
}

/// The transform determines the output: two applications of one
/// transform to one base give the same image.
pub proof fn lemma_vt_functional(base: ImageBuf, t: VectorTransform, o1: ImageBuf, o2: ImageBuf)
    requires
        base.wf(),
        t.wf(),
        o1.wf(),
        o2.wf(),
        spec_vt_applied(base, t, o1),
        spec_vt_applied(base, t, o2),
    ensures
        o1.width == o2.width,
        o1.height == o2.height,
        o1.data@ == o2.data@,
{
    assert forall|x: int, y: int| o1.in_bounds(x, y) implies o1.px(x, y) == o2.px(x, y) by {
        assert(o2.in_bounds(x, y));
    }
    lemma_pixels_determine_data(o1, o2);
}

/// Four clockwise quarter-turn steps return a rotation angle to where
/// it started.
pub proof fn lemma_rot_step_cw_four(r: int)
    requires
        r == 0 || r == 90 || r == 180 || r == 270,
    ensures
        spec_rot_step_cw(spec_rot_step_cw(spec_rot_step_cw(spec_rot_step_cw(r)))) == r,
{
}

/// Four clockwise quarter turns of a vector document restore its
/// displayed raster exactly: the transform returns to where it
/// started, and the raster is re-derived from the unchanged base, so
/// the same pixels come out.  Each neighbouring pair of states is
/// related as one `rotate_cw` call leaves them.
pub proof fn lemma_vector_rotate_four_restores(
    d0: VectorDocument,
    d1: VectorDocument,
    d2: VectorDocument,
    d3: VectorDocument,
    d4: VectorDocument,
)
    requires
        d0.wf(),
        d1.wf(),
        d2.wf(),
        d3.wf(),
        d4.wf(),
        !d0.cropped,
        rotate_cw_rel(d0, d1),
        rotate_cw_rel(d1, d2),
        rotate_cw_rel(d2, d3),
        rotate_cw_rel(d3, d4),
    ensures
        d4.transform == d0.transform,
        d4.rendered.width == d0.rendered.width,
        d4.rendered.height == d0.rendered.height,
        d4.rendered.data@ == d0.rendered.data@,
{
    lemma_rot_step_cw_four(d0.transform.rotation as int);
    assert(d4.transform == d0.transform);
    lemma_vt_functional(d0.base, d0.transform, d0.rendered, d4.rendered);
}

/// How one `rotate_cw` call relates a vector document's state before
/// and after, for a document still governed by its scene.
pub open spec fn rotate_cw_rel(pre: VectorDocument, post: VectorDocument) -> bool {
    &&& post.base == pre.base
    &&& post.cropped == pre.cropped
    &&& post.transform == (VectorTransform {
        rotation: spec_rot_step_cw(pre.transform.rotation as int) as i16,
        ..pre.transform
    })
    &&& !pre.cropped ==> spec_vt_applied(post.base, post.transform, post.rendered)
}

/// How one flip call relates a vector document's state before and
/// after, for a document still governed by its scene.
pub open spec fn flip_h_rel(pre: VectorDocument, post: VectorDocument) -> bool {
    &&& post.base == pre.base
    &&& post.cropped == pre.cropped
    &&& post.transform == (VectorTransform { flip_h: !pre.transform.flip_h, ..pre.transform })
    &&& !pre.cropped ==> spec_vt_applied(post.base, post.transform, post.rendered)
}

/// Two horizontal flips of a vector document restore its displayed
/// raster exactly: the flag toggles back and the raster is re-derived
/// from the unchanged base.
pub proof fn lemma_vector_flip_twice_restores(
    d0: VectorDocument,
    d1: VectorDocument,
    d2: VectorDocument,
)
    requires
        d0.wf(),
        d1.wf(),
        d2.wf(),
        !d0.cropped,
        flip_h_rel(d0, d1),
        flip_h_rel(d1, d2),
    ensures
        d2.transform == d0.transform,
        d2.rendered.width == d0.rendered.width,
        d2.rendered.height == d0.rendered.height,
        d2.rendered.data@ == d0.rendered.data@,
{
    assert(d2.transform == d0.transform);
    lemma_vt_functional(d0.base, d0.transform, d0.rendered, d2.rendered);
}

/// The raster size for a native dimension at a scale in thousandths:
/// the ceiling of the product, at least one pixel.
pub open spec fn spec_scaled_dim(native: int, millis: int) -> int {
    let v = (native * millis + 999) / 1000;
    if v < 1 {
        1
    } else {
        v
    }
}

/// Compute the raster size for a native dimension at a scale in
/// thousandths.
pub fn scaled_dim(native: u32, millis: u32) -> (d: u64)
    ensures
        d == spec_scaled_dim(native as int, millis as int),
{
    proof {
        assert((native as u64) * (millis as u64) <= 0xffff_ffff * 0xffff_ffff)
            by (nonlinear_arith)
            requires
                native <= 0xffff_ffffu64,
                millis <= 0xffff_ffffu64,
        ;
    }
    let v: u64 = ((native as u64) * (millis as u64) + 999) / 1000;
    if v < 1 {
        1
    } else {
        v
    }
}

/// A vector document: everything derived from the retained scene.
#[derive(Debug)]
pub struct VectorDocument {
    /// Native width from the scene's intrinsic size, ceiled to pixels.
    pub native_width: u32,
    /// Native height from the scene's intrinsic size, ceiled to pixels.
    pub native_height: u32,
    /// The scale, in thousandths, the base was rasterized at.
    pub scale_millis: u32,
    /// Accumulated transformations.
    pub transform: VectorTransform,
    /// The untransformed rasterization at the current scale, in
    /// straight-alpha form.
    pub base: ImageBuf,
    /// The displayed raster: the base with the transform stack applied,
    /// until a crop makes the document raster-like.
    pub rendered: ImageBuf,
    /// Display handle for the rendered raster.
    pub handle: ImageHandle,
    /// Whether a crop ended re-derivation from the scene.
    pub cropped: bool,
}

impl VectorDocument {
    /// Buffers well-formed, handle current, and — until a crop — the
    /// rendered raster derived from the base by the transform stack.
    pub open spec fn wf(self) -> bool {
        &&& self.base.wf()
        &&& self.rendered.wf()
        &&& self.transform.wf()
        &&& self.handle.matches(self.rendered)
        &&& !self.cropped ==> spec_vt_applied(self.base, self.transform, self.rendered)
    }

    /// Build a vector document from its native size and the scene
    /// rasterized at scale 1.0 (premultiplied alpha, as rasterizers
    /// emit it).
    ///
    /// Fails exactly when the rasterization does not have the size the
    /// native dimensions call for.
    pub fn open(native_width: u32, native_height: u32, base_premult: &ImageBuf) -> (r: Result<
        VectorDocument,
        DocError,
    >)
        requires
            base_premult.wf(),
        ensures
            r is Ok <==> (base_premult.width == spec_scaled_dim(native_width as int, 1000)
                && base_premult.height == spec_scaled_dim(native_height as int, 1000)),
            r matches Ok(doc) ==> {
                &&& doc.wf()
                &&& doc.native_width == native_width
                &&& doc.native_height == native_height
                &&& doc.scale_millis == 1000
                &&& doc.transform == VectorTransform::spec_identity()
                &&& !doc.cropped
                &&& doc.base.width == base_premult.width
                &&& doc.base.height == base_premult.height
                &&& forall|i: int|
                    0 <= i < base_premult.data@.len() ==> doc.base.data@[i]
                        == spec_unpremultiply_px(base_premult.data@[i])
            },
            r matches Err(e) ==> e == DocError::RenderFailed,
    {
        let tw = scaled_dim(native_width, 1000);
        let th = scaled_dim(native_height, 1000);
        if !(base_premult.width as u64 == tw && base_premult.height as u64 == th) {
            return Err(DocError::RenderFailed);
        }
        let base = unpremultiply(base_premult);
        let transform = VectorTransform::identity();
        let rendered = apply_vector_transform(&base, &transform);
        let handle = create_image_handle(&rendered);
        Ok(VectorDocument {
            native_width,
            native_height,
            scale_millis: 1000,
            transform,
            base,
            rendered,
            handle,
            cropped: false,
        })
    }

    /// The dimensions of the displayed raster.
    pub fn dimensions(&self) -> (d: (u32, u32))
        ensures
            d.0 == self.rendered.width,
            d.1 == self.rendered.height,
    {
        self.rendered.dimensions()
    }

    /// The raster size a re-render at `scale_millis` calls for, or
    /// `None` when no re-render would happen: the scale is the current
    /// one (rendering again is free) or a crop ended re-scaling.
    pub fn render_target(&self, scale_millis: u32) -> (r: Option<(u64, u64)>)
        ensures
            r is Some <==> (!self.cropped && scale_millis != self.scale_millis),
            r matches Some(t) ==> {
                &&& t.0 == spec_scaled_dim(self.native_width as int, scale_millis as int)
                &&& t.1 == spec_scaled_dim(self.native_height as int, scale_millis as int)
            },
    {
        if self.cropped || scale_millis == self.scale_millis {
            None
        } else {
            Some(
                (scaled_dim(self.native_width, scale_millis), scaled_dim(self.native_height,
                    scale_millis)),
            )
        }
    }

    /// Re-render at a new scale from a fresh rasterization of the
    /// scene, preserving the accumulated transformations.  Returns
    /// whether anything changed.
    ///
    /// Calling with the current scale changes nothing and reports
    /// `false`: the cached raster already answers it.  A rasterization
    /// of the wrong size also changes nothing (the prior displayed
    /// state is kept, as for any transient render failure).
    pub fn render_at_scale(&mut self, scale_millis: u32, base_premult: &ImageBuf) -> (changed:
        bool)
        requires
            old(self).wf(),
            base_premult.wf(),
        ensures
            final(self).wf(),
            changed <==> {
                &&& !old(self).cropped
                &&& scale_millis != old(self).scale_millis
                &&& base_premult.width == spec_scaled_dim(
                    old(self).native_width as int,
                    scale_millis as int,
                )
                &&& base_premult.height == spec_scaled_dim(
                    old(self).native_height as int,
                    scale_millis as int,
                )
            },
            !changed ==> *final(self) == *old(self),
            changed ==> {
                &&& final(self).scale_millis == scale_millis
                &&& final(self).native_width == old(self).native_width
                &&& final(self).native_height == old(self).native_height
                &&& final(self).transform == old(self).transform
                &&& !final(self).cropped
                &&& final(self).base.width == base_premult.width
                &&& final(self).base.height == base_premult.height
                &&& forall|i: int|
                    0 <= i < base_premult.data@.len() ==> final(self).base.data@[i]
                        == spec_unpremultiply_px(base_premult.data@[i])
                &&& spec_vt_applied(final(self).base, final(self).transform, final(self).rendered)
            },
    {
        if self.cropped || scale_millis == self.scale_millis {
            return false;
        }
        let tw = scaled_dim(self.native_width, scale_millis);
        let th = scaled_dim(self.native_height, scale_millis);
        if !(base_premult.width as u64 == tw && base_premult.height as u64 == th) {
            return false;
        }
        let base = unpremultiply(base_premult);
        let rendered = apply_vector_transform(&base, &self.transform);
        self.handle = create_image_handle(&rendered);
        self.base = base;
        self.rendered = rendered;
        self.scale_millis = scale_millis;
        true
    }

    /// Rotate one quarter turn clockwise and re-derive the displayed
    /// raster: from the base while the scene still governs, in place
    /// once cropped.
    pub fn rotate_cw(&mut self)
        requires
            old(self).wf(),
        ensures
            final(self).wf(),
            final(self).native_width == old(self).native_width,
            final(self).native_height == old(self).native_height,
            final(self).scale_millis == old(self).scale_millis,
            final(self).cropped == old(self).cropped,
            final(self).base == old(self).base,
            final(self).transform == (VectorTransform {
                rotation: spec_rot_step_cw(old(self).transform.rotation as int) as i16,
                ..old(self).transform
            }),
            !old(self).cropped ==> spec_vt_applied(
                final(self).base,
                final(self).transform,
                final(self).rendered,
            ),
            old(self).cropped ==> is_rotate90(old(self).rendered, final(self).rendered),
    {
        let newrot: i16 = if self.transform.rotation == 270 {
            0
        } else {
            self.transform.rotation + 90
        };
        self.transform = VectorTransform { rotation: newrot, ..self.transform };
        if !self.cropped {
            self.rendered = apply_vector_transform(&self.base, &self.transform);
        } else {
            self.rendered = rotate90(&self.rendered);
        }
        self.handle = create_image_handle(&self.rendered);
    }

    /// Rotate one quarter turn counter-clockwise; see `rotate_cw`.
    pub fn rotate_ccw(&mut self)
        requires
            old(self).wf(),
        ensures
            final(self).wf(),
            final(self).native_width == old(self).native_width,
            final(self).native_height == old(self).native_height,
            final(self).scale_millis == old(self).scale_millis,
            final(self).cropped == old(self).cropped,
            final(self).base == old(self).base,
            final(self).transform == (VectorTransform {
                rotation: spec_rot_step_ccw(old(self).transform.rotation as int) as i16,
                ..old(self).transform
            }),
            !old(self).cropped ==> spec_vt_applied(
                final(self).base,
                final(self).transform,
                final(self).rendered,
            ),
            old(self).cropped ==> is_rotate270(old(self).rendered, final(self).rendered),
    {
        let newrot: i16 = if self.transform.rotation == 0 {
            270
        } else {
            self.transform.rotation - 90
        };
        self.transform = VectorTransform { rotation: newrot, ..self.transform };
        if !self.cropped {
            self.rendered = apply_vector_transform(&self.base, &self.transform);
        } else {
            self.rendered = rotate270(&self.rendered);
        }
        self.handle = create_image_handle(&self.rendered);
    }

    /// Toggle the horizontal flip and re-derive the displayed raster.
    pub fn flip_horizontal(&mut self)
        requires
            old(self).wf(),
        ensures
            final(self).wf(),
            final(self).native_width == old(self).native_width,
            final(self).native_height == old(self).native_height,
            final(self).scale_millis == old(self).scale_millis,
            final(self).cropped == old(self).cropped,
            final(self).base == old(self).base,
            final(self).transform == (VectorTransform {
                flip_h: !old(self).transform.flip_h,
                ..old(self).transform
            }),
            !old(self).cropped ==> spec_vt_applied(
                final(self).base,
                final(self).transform,
                final(self).rendered,
            ),
            old(self).cropped ==> is_flip_h(old(self).rendered, final(self).rendered),
    {
        self.transform = VectorTransform { flip_h: !self.transform.flip_h, ..self.transform };
        if !self.cropped {
            self.rendered = apply_vector_transform(&self.base, &self.transform);
        } else {
            self.rendered = flip_horizontal(&self.rendered);
        }
        self.handle = create_image_handle(&self.rendered);
    }

    /// Toggle the vertical flip and re-derive the displayed raster.
    pub fn flip_vertical(&mut self)
        requires
            old(self).wf(),
        ensures
            final(self).wf(),
            final(self).native_width == old(self).native_width,
            final(self).native_height == old(self).native_height,
            final(self).scale_millis == old(self).scale_millis,
            final(self).cropped == old(self).cropped,
            final(self).base == old(self).base,
            final(self).transform == (VectorTransform {
                flip_v: !old(self).transform.flip_v,
                ..old(self).transform
            }),
            !old(self).cropped ==> spec_vt_applied(
                final(self).base,
                final(self).transform,
                final(self).rendered,
            ),
            old(self).cropped ==> is_flip_v(old(self).rendered, final(self).rendered),
    {
        self.transform = VectorTransform { flip_v: !self.transform.flip_v, ..self.transform };
        if !self.cropped {
            self.rendered = apply_vector_transform(&self.base, &self.transform);
        } else {
            self.rendered = flip_vertical(&self.rendered);
        }
        self.handle = create_image_handle(&self.rendered);
    }

    /// Crop the displayed raster, strictly validated against its
    /// dimensions.  A successful crop is terminal: the scene no longer
    /// governs and re-scaling is disabled; the transform bookkeeping
    /// resets to identity.  On rejection nothing changes.
    pub fn crop(&mut self, x: u32, y: u32, width: u32, height: u32) -> (r: Result<(), DocError>)
        requires
            old(self).wf(),
        ensures
            final(self).wf(),
            r is Ok <==> spec_crop_fits(
                x as int,
                y as int,
                width as int,
                height as int,
                old(self).rendered.width as int,
                old(self).rendered.height as int,
            ),
            r is Ok ==> {
                &&& is_crop_of(
                    old(self).rendered,
                    final(self).rendered,
                    x as int,
                    y as int,
                    width as int,
                    height as int,
                )
                &&& final(self).cropped
                &&& final(self).native_width == width
                &&& final(self).native_height == height
                &&& final(self).transform == VectorTransform::spec_identity()
            },
            r matches Err(e) ==> e == DocError::CropOutOfBounds && *final(self) == *old(self),
    {
        if !crate::crop::crop_fits(x, y, width, height, self.rendered.width,
            self.rendered.height) {
            return Err(DocError::CropOutOfBounds);
        }
        self.rendered = crop_rect(&self.rendered, x, y, width, height);
        self.native_width = width;
        self.native_height = height;
        self.transform = VectorTransform::identity();
        self.cropped = true;
        self.handle = create_image_handle(&self.rendered);
        Ok(())
    }

    /// The displayed raster's handle and dimensions.
    pub fn render(&mut self, _scale_millis: u32) -> (out: RenderOutput)
        requires
            old(self).wf(),
        ensures
            *final(self) == *old(self),
            out.width == old(self).rendered.width,
            out.height == old(self).rendered.height,
            out.handle.same_image(old(self).handle),
    {
        let handle = self.handle.clone();
        RenderOutput { handle, width: self.rendered.width, height: self.rendered.height }
    }

    /// Basic information: the native dimensions.
    pub fn info(&self) -> (i: DocumentInfo)
        ensures
            i.width == self.native_width,
            i.height == self.native_height,
            i.format@ == "SVG"@,
    {
        DocumentInfo {
            width: self.native_width,
            height: self.native_height,
            format: String::from_str("SVG"),
        }
    }

    /// Build the metadata snapshot; a vector document reports its
    /// native dimensions.
    pub fn extract_meta(&self, file_name: String, file_path: String, file_size: u64) -> (m:
        DocumentMeta)
        ensures
            m.file_name == file_name,
            m.file_path == file_path,
            m.file_size == file_size,
            m.width == self.native_width,
            m.height == self.native_height,
            m.format@ == "SVG"@,
    {
        build_vector_meta(file_name, file_path, file_size, self.native_width, self.native_height)
    }
}

} // verus!
