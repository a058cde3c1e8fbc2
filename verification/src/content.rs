//! The type-erased dispatcher: one contract over the three backends.
//!
//! A closed tagged union holds exactly one live backend per open
//! document.  Every shared operation dispatches into the owning
//! backend; quarter-turn stepping reconciles a fine rotation to a
//! standard one before any backend that cannot draw fine angles sees
//! it, and page or thumbnail operations are benign defaults for the
//! kinds that have no pages.

use vstd::prelude::*;

use crate::error::DocError;
use crate::kind::DocumentKind;
use crate::meta::{DocumentInfo, DocumentMeta};
use crate::ops::{is_crop_of, is_flip_h, is_flip_v, is_rotate90, is_rotate270};
use crate::pixel::{ImageBuf, ImageHandle, RenderOutput};
use crate::portable::{PortableDocument, RenderRequest, spec_flips_applied, spec_gen_step};
use crate::raster::RasterDocument;
use crate::crop::spec_crop_fits;
use crate::transform::{FlipDirection, Rotation, RotationMode, TransformState};
use crate::vector::{spec_rot_step_ccw, spec_rot_step_cw, spec_vt_applied, VectorDocument,
    VectorTransform};

verus! {

/// What a render call decided: either the display-ready output, or the
/// raster size the embedding rasterizer must produce first (vector
/// content at a new scale).
#[derive(Debug)]
pub enum RenderAction {
    Output(RenderOutput),
    Rasterize(u64, u64),
}

/// The standard rotation for a vector transform's angle in degrees.
pub open spec fn spec_rotation_of_degrees(deg: int) -> Rotation {
    if deg == 90 {
        Rotation::Cw90
    } else if deg == 180 {
        Rotation::Cw180
    } else if deg == 270 {
        Rotation::Cw270
    } else {
        Rotation::Zero
    }
}

/// How one flip call relates the document before and after, per
/// backend.  Raster and paginated content mirror their displayed
/// raster directly; vector content toggles the flag in its transform
/// stack — where flips precede the rotation — and re-derives its
/// raster from the base, or mirrors in place once a crop ended
/// re-derivation.
pub open spec fn spec_flip_rel(
    pre: DocumentContent,
    post: DocumentContent,
    direction: FlipDirection,
) -> bool {
    match (pre, post) {
        (DocumentContent::Raster(d0), DocumentContent::Raster(d1)) => {
            &&& d1.transform == d0.transform.spec_toggled(direction)
            &&& d1.native_width == d0.native_width
            &&& d1.native_height == d0.native_height
            &&& (direction is Horizontal ==> is_flip_h(d0.document, d1.document))
            &&& (direction is Vertical ==> is_flip_v(d0.document, d1.document))
        },
        (DocumentContent::Vector(d0), DocumentContent::Vector(d1)) => {
            &&& d1.base == d0.base
            &&& d1.cropped == d0.cropped
            &&& d1.scale_millis == d0.scale_millis
            &&& d1.transform == (if direction is Horizontal {
                VectorTransform { flip_h: !d0.transform.flip_h, ..d0.transform }
            } else {
                VectorTransform { flip_v: !d0.transform.flip_v, ..d0.transform }
            })
            &&& (!d0.cropped ==> spec_vt_applied(d1.base, d1.transform, d1.rendered))
            &&& (d0.cropped ==> (direction is Horizontal ==> is_flip_h(d0.rendered, d1.rendered))
                && (direction is Vertical ==> is_flip_v(d0.rendered, d1.rendered)))
        },
        (DocumentContent::Portable(d0), DocumentContent::Portable(d1)) => {
            &&& d1.transform == d0.transform.spec_toggled(direction)
            &&& d1.num_pages == d0.num_pages
            &&& d1.page_index == d0.page_index
            &&& d1.thumbnails == d0.thumbnails
            &&& (direction is Horizontal ==> is_flip_h(d0.rendered, d1.rendered))
            &&& (direction is Vertical ==> is_flip_v(d0.rendered, d1.rendered))
        },
        _ => false,
    }
}

/// Unified document content: exactly one backend is live at a time.
#[derive(Debug)]
pub enum DocumentContent {
    Raster(RasterDocument),
    Vector(VectorDocument),
    Portable(PortableDocument),
}

impl DocumentContent {
    /// The live backend is well-formed.
    pub open spec fn wf(self) -> bool {
        match self {
            DocumentContent::Raster(d) => d.wf(),
            DocumentContent::Vector(d) => d.wf(),
            DocumentContent::Portable(d) => d.wf(),
        }
    }

    /// The kind of the live backend.
    pub open spec fn spec_kind(self) -> DocumentKind {
        match self {
            DocumentContent::Raster(_) => DocumentKind::Raster,
            DocumentContent::Vector(_) => DocumentKind::Vector,
            DocumentContent::Portable(_) => DocumentKind::Portable,
        }
    }

    /// The displayed raster of the live backend.
    pub open spec fn spec_rendered(self) -> ImageBuf {
        match self {
            DocumentContent::Raster(d) => d.document,
            DocumentContent::Vector(d) => d.rendered,
            DocumentContent::Portable(d) => d.rendered,
        }
    }

    /// The display handle of the live backend.
    pub open spec fn spec_handle(self) -> ImageHandle {
        match self {
            DocumentContent::Raster(d) => d.handle,
            DocumentContent::Vector(d) => d.handle,
            DocumentContent::Portable(d) => d.handle,
        }
    }

    /// The document kind.
    pub fn kind(&self) -> (k: DocumentKind)
        ensures
            k == self.spec_kind(),
    {
        match self {
            DocumentContent::Raster(_) => DocumentKind::Raster,
            DocumentContent::Vector(_) => DocumentKind::Vector,
            DocumentContent::Portable(_) => DocumentKind::Portable,
        }
    }

    /// A cloneable handle for the displayed raster; every backend owns
    /// one, so the canvas never branches.
    pub fn handle(&self) -> (h: ImageHandle)
        ensures
            h.same_image(self.spec_handle()),
    {
        match self {
            DocumentContent::Raster(d) => d.handle.clone(),
            DocumentContent::Vector(d) => d.handle.clone(),
            DocumentContent::Portable(d) => d.handle.clone(),
        }
    }

    /// The current dimensions, after transformations.
    pub fn dimensions(&self) -> (dim: (u32, u32))
        ensures
            dim.0 == self.spec_rendered().width,
            dim.1 == self.spec_rendered().height,
    {
        match self {
            DocumentContent::Raster(d) => d.dimensions(),
            DocumentContent::Vector(d) => d.dimensions(),
            DocumentContent::Portable(d) => d.dimensions(),
        }
    }

    /// The accumulated transform state, in the shared representation.
    pub fn transform_state(&self) -> (t: TransformState)
        ensures
            self matches DocumentContent::Raster(d) ==> t == d.transform,
            self matches DocumentContent::Portable(d) ==> t == d.transform,
            self matches DocumentContent::Vector(d) ==> t == (TransformState {
                rotation: RotationMode::Standard(
                    spec_rotation_of_degrees(d.transform.rotation as int),
                ),
                flip_h: d.transform.flip_h,
                flip_v: d.transform.flip_v,
            }),
    {
        match self {
            DocumentContent::Raster(d) => d.transform_state(),
            DocumentContent::Portable(d) => d.transform_state(),
            DocumentContent::Vector(d) => {
                let rot = if d.transform.rotation == 90 {
                    Rotation::Cw90
                } else if d.transform.rotation == 180 {
                    Rotation::Cw180
                } else if d.transform.rotation == 270 {
                    Rotation::Cw270
                } else {
                    Rotation::Zero
                };
                TransformState {
                    rotation: RotationMode::Standard(rot),
                    flip_h: d.transform.flip_h,
                    flip_v: d.transform.flip_v,
                }
            },
        }
    }

    /// Rotate one quarter turn clockwise.  A fine rotation state is
    /// reconciled to the nearest standard step first, so the backend
    /// only ever receives a standard rotation.  Raster and vector
    /// content re-derive their raster immediately and return `None`; a
    /// paginated document returns the render request the collaborator
    /// must fulfill through `apply_page_render`.
    pub fn rotate_cw(&mut self) -> (req: Option<RenderRequest>)
        requires
            old(self).wf(),
        ensures
            final(self).wf(),
            (*old(self)) matches DocumentContent::Raster(d0) ==> ((*final(self))
                matches DocumentContent::Raster(d1) && req is None && {
                &&& d1.transform.rotation == d0.transform.rotation.spec_rotate_cw()
                &&& d1.transform.flip_h == d0.transform.flip_h
                &&& d1.transform.flip_v == d0.transform.flip_v
                &&& is_rotate90(d0.document, d1.document)
            }),
            (*old(self)) matches DocumentContent::Vector(d0) ==> ((*final(self))
                matches DocumentContent::Vector(d1) && req is None && {
                &&& d1.transform == (VectorTransform {
                    rotation: spec_rot_step_cw(d0.transform.rotation as int) as i16,
                    ..d0.transform
                })
                &&& d1.base == d0.base
                &&& d1.cropped == d0.cropped
                &&& !d0.cropped ==> spec_vt_applied(d1.base, d1.transform, d1.rendered)
                &&& d0.cropped ==> is_rotate90(d0.rendered, d1.rendered)
            }),
            (*old(self)) matches DocumentContent::Portable(d0) ==> ((*final(self))
                matches DocumentContent::Portable(d1) && req matches Some(rq) && {
                &&& d1 == (PortableDocument {
                    transform: TransformState {
                        rotation: d0.transform.rotation.spec_rotate_cw(),
                        ..d0.transform
                    },
                    ..d0
                })
                &&& rq.page == d0.page_index
                &&& RotationMode::Standard(rq.rotation) == d0.transform.rotation.spec_rotate_cw()
            }),
    {
        match self {
            DocumentContent::Raster(d) => {
                let target = d.transform_state().rotation.rotate_cw();
                match target {
                    RotationMode::Standard(rot) => d.rotate(rot),
                    RotationMode::Fine(_) => {},
                }
                None
            },
            DocumentContent::Vector(d) => {
                d.rotate_cw();
                None
            },
            DocumentContent::Portable(d) => Some(d.rotate_cw()),
        }
    }

    /// Rotate one quarter turn counter-clockwise; see `rotate_cw`.
    pub fn rotate_ccw(&mut self) -> (req: Option<RenderRequest>)
        requires
            old(self).wf(),
        ensures
            final(self).wf(),
            (*old(self)) matches DocumentContent::Raster(d0) ==> ((*final(self))
                matches DocumentContent::Raster(d1) && req is None && {
                &&& d1.transform.rotation == d0.transform.rotation.spec_rotate_ccw()
                &&& d1.transform.flip_h == d0.transform.flip_h
                &&& d1.transform.flip_v == d0.transform.flip_v
                &&& is_rotate270(d0.document, d1.document)
            }),
            (*old(self)) matches DocumentContent::Vector(d0) ==> ((*final(self))
                matches DocumentContent::Vector(d1) && req is None && {
                &&& d1.transform == (VectorTransform {
                    rotation: spec_rot_step_ccw(d0.transform.rotation as int) as i16,
                    ..d0.transform
                })
                &&& d1.base == d0.base
                &&& d1.cropped == d0.cropped
                &&& !d0.cropped ==> spec_vt_applied(d1.base, d1.transform, d1.rendered)
                &&& d0.cropped ==> is_rotate270(d0.rendered, d1.rendered)
            }),
            (*old(self)) matches DocumentContent::Portable(d0) ==> ((*final(self))
                matches DocumentContent::Portable(d1) && req matches Some(rq) && {
                &&& d1 == (PortableDocument {
                    transform: TransformState {
                        rotation: d0.transform.rotation.spec_rotate_ccw(),
                        ..d0.transform
                    },
                    ..d0
                })
                &&& rq.page == d0.page_index
                &&& RotationMode::Standard(rq.rotation) == d0.transform.rotation.spec_rotate_ccw()
            }),
    {
        match self {
            DocumentContent::Raster(d) => {
                let target = d.transform_state().rotation.rotate_ccw();
                match target {
                    RotationMode::Standard(rot) => d.rotate(rot),
                    RotationMode::Fine(_) => {},
                }
                None
            },
            DocumentContent::Vector(d) => {
                d.rotate_ccw();
                None
            },
            DocumentContent::Portable(d) => Some(d.rotate_ccw()),
        }
    }

    /// Record a fine rotation angle in hundredths of a degree.  No
    /// backend rasterizes fine angles here, so the pixels stand until
    /// the angle is reconciled by the next quarter-turn step; vector
    /// content, whose transform has no fine representation, ignores the
    /// call as a benign no-op.
    pub fn rotate_fine(&mut self, centi_degrees: i32)
        requires
            old(self).wf(),
        ensures
            final(self).wf(),
            (*old(self)) matches DocumentContent::Raster(d0) ==> ((*final(self))
                matches DocumentContent::Raster(d1) && {
                &&& d1.transform.rotation == RotationMode::Fine(centi_degrees)
                &&& d1.document == d0.document
            }),
            (*old(self)) matches DocumentContent::Vector(d0) ==> *final(self) == *old(self),
            (*old(self)) matches DocumentContent::Portable(d0) ==> ((*final(self))
                matches DocumentContent::Portable(d1) && d1 == (PortableDocument {
                    transform: TransformState {
                        rotation: RotationMode::Fine(centi_degrees),
                        ..d0.transform
                    },
                    ..d0
                })),
    {
        match self {
            DocumentContent::Raster(d) => d.rotate_fine(centi_degrees),
            DocumentContent::Vector(_) => {},
            DocumentContent::Portable(d) => d.rotate_fine(centi_degrees),
        }
    }

    /// Toggle one flip axis.  Raster content mirrors its buffer in
    /// place; vector content re-derives its raster from the base with
    /// the toggled flag (applied before the rotation, per the fixed
    /// transform order); paginated content mirrors the rendered page as
    /// a post-process.
    pub fn flip(&mut self, direction: FlipDirection)
        requires
            old(self).wf(),
        ensures
            final(self).wf(),
            spec_flip_rel(*old(self), *final(self), direction),
    {
        match self {
            DocumentContent::Raster(d) => d.flip(direction),
            DocumentContent::Vector(d) => {
                match direction {
                    FlipDirection::Horizontal => d.flip_horizontal(),
                    FlipDirection::Vertical => d.flip_vertical(),
                }
            },
            DocumentContent::Portable(d) => d.flip(direction),
        }
    }

    /// Flip left-to-right.
    pub fn flip_horizontal(&mut self)
        requires
            old(self).wf(),
        ensures
            final(self).wf(),
            spec_flip_rel(*old(self), *final(self), FlipDirection::Horizontal),
    {
        self.flip(FlipDirection::Horizontal);
    }

    /// Flip top-to-bottom.
    pub fn flip_vertical(&mut self)
        requires
            old(self).wf(),
        ensures
            final(self).wf(),
            spec_flip_rel(*old(self), *final(self), FlipDirection::Vertical),
    {
        self.flip(FlipDirection::Vertical);
    }

    /// Whether the document has more than one page.
    pub fn is_multi_page(&self) -> (b: bool)
        ensures
            b == (self matches DocumentContent::Portable(d) && d.num_pages > 1),
    {
        match self {
            DocumentContent::Portable(d) => d.page_count() > 1,
            _ => false,
        }
    }

    /// Total page count; a non-paginated document counts as one page.
    pub fn page_count(&self) -> (n: usize)
        ensures
            self matches DocumentContent::Portable(d) ==> n == d.num_pages,
            !(self matches DocumentContent::Portable(_)) ==> n == 1,
    {
        match self {
            DocumentContent::Portable(d) => d.page_count(),
            _ => 1,
        }
    }

    /// Current page index; 0 for non-paginated documents.
    pub fn current_page(&self) -> (n: usize)
        ensures
            self matches DocumentContent::Portable(d) ==> n == d.page_index,
            !(self matches DocumentContent::Portable(_)) ==> n == 0,
    {
        match self {
            DocumentContent::Portable(d) => d.current_page(),
            _ => 0,
        }
    }

    /// Navigate to a page.  For a paginated document this moves the
    /// cursor and returns the render request to fulfill; for the other
    /// kinds it succeeds trivially with nothing to do.
    pub fn go_to_page(&mut self, page: usize) -> (r: Result<Option<RenderRequest>, DocError>)
        requires
            old(self).wf(),
        ensures
            final(self).wf(),
            !((*old(self)) matches DocumentContent::Portable(_)) ==> *final(self) == *old(self) && (r
                matches Ok(o) && o is None),
            (*old(self)) matches DocumentContent::Portable(d0) ==> ((*final(self))
                matches DocumentContent::Portable(d1) && {
                &&& r is Ok <==> page < d0.num_pages
                &&& r matches Ok(o) ==> o matches Some(rq) && rq.page == page && d1
                    == (PortableDocument { page_index: page, ..d0 })
                &&& r is Err ==> r == Err::<Option<RenderRequest>, DocError>(
                    DocError::PageOutOfRange,
                ) && d1 == d0
            }),
    {
        match self {
            DocumentContent::Portable(d) => {
                match d.go_to_page(page) {
                    Ok(req) => Ok(Some(req)),
                    Err(e) => Err(e),
                }
            },
            _ => Ok(None),
        }
    }

    /// The stored thumbnail for a page; non-paginated kinds have none.
    pub fn get_thumbnail(&self, page: usize) -> (r: Option<ImageHandle>)
        ensures
            !(self matches DocumentContent::Portable(_)) ==> r is None,
            self matches DocumentContent::Portable(d) ==> {
                &&& r is Some <==> (d.thumbnails is Some && page < d.spec_thumbnails_loaded())
                &&& r matches Some(h) ==> d.thumbnails matches Some(v) && h.same_image(
                    v@[page as int],
                )
            },
    {
        match self {
            DocumentContent::Portable(d) => d.get_thumbnail(page),
            _ => None,
        }
    }

    /// The stored thumbnail for a page, read-only; non-paginated kinds
    /// have none.
    pub fn get_thumbnail_handle(&self, page: usize) -> (r: Option<ImageHandle>)
        ensures
            !(self matches DocumentContent::Portable(_)) ==> r is None,
            self matches DocumentContent::Portable(d) ==> {
                &&& r is Some <==> (d.thumbnails is Some && page < d.spec_thumbnails_loaded())
                &&& r matches Some(h) ==> d.thumbnails matches Some(v) && h.same_image(
                    v@[page as int],
                )
            },
    {
        match self {
            DocumentContent::Portable(d) => d.get_thumbnail_handle(page),
            _ => None,
        }
    }

    /// Whether every thumbnail has been loaded; false for kinds without
    /// pages.
    pub fn all_thumbnails_loaded(&self) -> (b: bool)
        ensures
            self matches DocumentContent::Portable(d) ==> b == (d.thumbnails is Some
                && d.spec_thumbnails_loaded() >= d.num_pages),
            !(self matches DocumentContent::Portable(_)) ==> !b,
    {
        match self {
            DocumentContent::Portable(d) => d.thumbnails_ready(),
            _ => false,
        }
    }

    /// Whether every page has a thumbnail; false for kinds without
    /// pages.
    pub fn thumbnails_ready(&self) -> (b: bool)
        ensures
            self matches DocumentContent::Portable(d) ==> b == (d.thumbnails is Some
                && d.spec_thumbnails_loaded() >= d.num_pages),
            !(self matches DocumentContent::Portable(_)) ==> !b,
    {
        match self {
            DocumentContent::Portable(d) => d.thumbnails_ready(),
            _ => false,
        }
    }

    /// How many thumbnails are loaded; 0 for kinds without pages.
    pub fn thumbnails_loaded(&self) -> (n: usize)
        ensures
            self matches DocumentContent::Portable(d) ==> n == d.spec_thumbnails_loaded(),
            !(self matches DocumentContent::Portable(_)) ==> n == 0,
    {
        match self {
            DocumentContent::Portable(d) => d.thumbnails_loaded(),
            _ => 0,
        }
    }

    /// One unit of resumable thumbnail generation; a no-op returning
    /// `None` for kinds without pages.
    pub fn generate_thumbnail_page(&mut self, page: usize, fetched: Option<ImageBuf>) -> (next:
        Option<usize>)
        requires
            old(self).wf(),
            fetched matches Some(img) ==> img.wf(),
        ensures
            final(self).wf(),
            !((*old(self)) matches DocumentContent::Portable(_)) ==> *final(self) == *old(self)
                && next is None,
            (*old(self)) matches DocumentContent::Portable(d0) ==> ((*final(self))
                matches DocumentContent::Portable(d1) && {
                &&& d1.thumbnails is Some
                &&& spec_gen_step(
                    d0.spec_thumbnails_seq(),
                    d1.spec_thumbnails_seq(),
                    page as int,
                    d0.num_pages as int,
                    fetched,
                )
                &&& d1.num_pages == d0.num_pages
                &&& d1.page_index == d0.page_index
                &&& d1.rendered == d0.rendered
                &&& next == if page + 1 < d0.num_pages {
                    Some((page + 1) as usize)
                } else {
                    None::<usize>
                }
            }),
    {
        match self {
            DocumentContent::Portable(d) => d.generate_thumbnail_page(page, fetched),
            _ => None,
        }
    }

    /// Generate every thumbnail at once, in page order; a no-op for
    /// kinds without pages.
    pub fn generate_thumbnails(&mut self, fetched: Vec<Option<ImageBuf>>)
        requires
            old(self).wf(),
            (*old(self)) matches DocumentContent::Portable(d0) ==> fetched@.len() == d0.num_pages,
            forall|i: int|
                0 <= i < fetched@.len() ==> (#[trigger] fetched@[i] matches Some(img) ==> img.wf()),
        ensures
            final(self).wf(),
            !((*old(self)) matches DocumentContent::Portable(_)) ==> *final(self) == *old(self),
            (*old(self)) matches DocumentContent::Portable(d0) ==> ((*final(self))
                matches DocumentContent::Portable(d1) && {
                &&& d1.thumbnails is Some
                &&& d1.spec_thumbnails_loaded() == d1.num_pages
                &&& d1.num_pages == d0.num_pages
                &&& d1.page_index == d0.page_index
                &&& d1.rendered == d0.rendered
            }),
    {
        match self {
            DocumentContent::Portable(d) => d.generate_thumbnails(fetched),
            _ => {},
        }
    }

    /// Crop in the current pixel space.  Raster and vector content
    /// reject any rectangle that leaves the image; paginated content
    /// clamps the extent instead, provided the corner is in bounds.
    pub fn crop(&mut self, x: u32, y: u32, width: u32, height: u32) -> (r: Result<(), DocError>)
        requires
            old(self).wf(),
        ensures
            final(self).wf(),
            (*old(self)) matches DocumentContent::Raster(d0) ==> ((*final(self))
                matches DocumentContent::Raster(d1) && {
                &&& r is Ok <==> spec_crop_fits(
                    x as int,
                    y as int,
                    width as int,
                    height as int,
                    d0.document.width as int,
                    d0.document.height as int,
                )
                &&& r is Ok ==> is_crop_of(
                    d0.document,
                    d1.document,
                    x as int,
                    y as int,
                    width as int,
                    height as int,
                ) && d1.transform == TransformState::spec_identity()
                &&& r is Err ==> d1 == d0 && r == Err::<(), DocError>(DocError::CropOutOfBounds)
            }),
            (*old(self)) matches DocumentContent::Vector(d0) ==> ((*final(self))
                matches DocumentContent::Vector(d1) && {
                &&& r is Ok <==> spec_crop_fits(
                    x as int,
                    y as int,
                    width as int,
                    height as int,
                    d0.rendered.width as int,
                    d0.rendered.height as int,
                )
                &&& r is Ok ==> is_crop_of(
                    d0.rendered,
                    d1.rendered,
                    x as int,
                    y as int,
                    width as int,
                    height as int,
                ) && d1.cropped
                &&& r is Err ==> d1 == d0 && r == Err::<(), DocError>(DocError::CropOutOfBounds)
            }),
            (*old(self)) matches DocumentContent::Portable(d0) ==> ((*final(self))
                matches DocumentContent::Portable(d1) && {
                &&& r is Ok <==> (x < d0.rendered.width && y < d0.rendered.height && width > 0
                    && height > 0)
                &&& r is Ok ==> is_crop_of(
                    d0.rendered,
                    d1.rendered,
                    x as int,
                    y as int,
                    vstd::math::min(width as int, d0.rendered.width - x),
                    vstd::math::min(height as int, d0.rendered.height - y),
                )
                &&& r is Err ==> d1 == d0 && r == Err::<(), DocError>(DocError::CropOutOfBounds)
            }),
    {
        match self {
            DocumentContent::Raster(d) => d.crop(x, y, width, height),
            DocumentContent::Vector(d) => d.crop(x, y, width, height),
            DocumentContent::Portable(d) => d.crop(x, y, width, height),
        }
    }

    /// Render at a requested scale.  Raster and paginated content
    /// return their already materialized raster whatever the scale;
    /// vector content reports the raster size the rasterizer must
    /// produce when — and only when — the scale actually changed and no
    /// crop ended re-scaling.  The state itself never changes here.
    pub fn render(&mut self, scale_millis: u32) -> (action: RenderAction)
        requires
            old(self).wf(),
        ensures
            final(self).wf(),
            *final(self) == *old(self),
            !((*old(self)) matches DocumentContent::Vector(_)) ==> (action matches RenderAction::Output(o)
                && o.width == old(self).spec_rendered().width && o.height == old(
                self,
            ).spec_rendered().height && o.handle.same_image(old(self).spec_handle())),
            (*old(self)) matches DocumentContent::Vector(d0) ==> {
                &&& (action is Rasterize <==> (!d0.cropped && scale_millis != d0.scale_millis))
                &&& action matches RenderAction::Rasterize(w, h) ==> w
                    == crate::vector::spec_scaled_dim(d0.native_width as int, scale_millis as int)
                    && h == crate::vector::spec_scaled_dim(
                    d0.native_height as int,
                    scale_millis as int,
                )
                &&& action matches RenderAction::Output(o) ==> o.width == d0.rendered.width
                    && o.height == d0.rendered.height && o.handle.same_image(d0.handle)
            },
    {
        match self {
            DocumentContent::Raster(d) => RenderAction::Output(d.render(scale_millis)),
            DocumentContent::Portable(d) => RenderAction::Output(d.render(scale_millis)),
            DocumentContent::Vector(d) => {
                match d.render_target(scale_millis) {
                    Some(t) => RenderAction::Rasterize(t.0, t.1),
                    None => RenderAction::Output(d.render(scale_millis)),
                }
            },
        }
    }

    /// Complete a vector re-render: install the fresh rasterization at
    /// its scale.  Returns whether anything changed; other kinds ignore
    /// the call.
    pub fn apply_vector_render(&mut self, scale_millis: u32, base_premult: &ImageBuf) -> (changed:
        bool)
        requires
            old(self).wf(),
            base_premult.wf(),
        ensures
            final(self).wf(),
            !((*old(self)) matches DocumentContent::Vector(_)) ==> *final(self) == *old(self)
                && !changed,
            (*old(self)) matches DocumentContent::Vector(d0) ==> ((*final(self))
                matches DocumentContent::Vector(d1) && {
                &&& changed <==> (!d0.cropped && scale_millis != d0.scale_millis
                    && base_premult.width == crate::vector::spec_scaled_dim(
                    d0.native_width as int,
                    scale_millis as int,
                ) && base_premult.height == crate::vector::spec_scaled_dim(
                    d0.native_height as int,
                    scale_millis as int,
                ))
                &&& !changed ==> d1 == d0
                &&& changed ==> d1.scale_millis == scale_millis && d1.transform == d0.transform
                    && spec_vt_applied(d1.base, d1.transform, d1.rendered)
            }),
    {
        match self {
            DocumentContent::Vector(d) => d.render_at_scale(scale_millis, base_premult),
            _ => false,
        }
    }

    /// Complete a page render request: install the freshly rendered
    /// page with the flip flags applied.  Other kinds ignore the call.
    pub fn apply_page_render(&mut self, page_pixels: &ImageBuf)
        requires
            old(self).wf(),
            page_pixels.wf(),
        ensures
            final(self).wf(),
            !((*old(self)) matches DocumentContent::Portable(_)) ==> *final(self) == *old(self),
            (*old(self)) matches DocumentContent::Portable(d0) ==> ((*final(self))
                matches DocumentContent::Portable(d1) && {
                &&& d1.num_pages == d0.num_pages
                &&& d1.page_index == d0.page_index
                &&& d1.transform == d0.transform
                &&& d1.thumbnails == d0.thumbnails
                &&& spec_flips_applied(
                    *page_pixels,
                    d0.transform.flip_h,
                    d0.transform.flip_v,
                    d1.rendered,
                )
            }),
    {
        match self {
            DocumentContent::Portable(d) => d.apply_page_render(page_pixels),
            _ => {},
        }
    }

    /// Basic information from the live backend.
    pub fn info(&self) -> (i: DocumentInfo)
        ensures
            self matches DocumentContent::Raster(d) ==> i.width == d.native_width && i.height
                == d.native_height && i.format@ == "Raster"@,
            self matches DocumentContent::Vector(d) ==> i.width == d.native_width && i.height
                == d.native_height && i.format@ == "SVG"@,
            self matches DocumentContent::Portable(d) ==> i.width == d.rendered.width && i.height
                == d.rendered.height && i.format@ == "PDF"@,
    {
        match self {
            DocumentContent::Raster(d) => d.info(),
            DocumentContent::Vector(d) => d.info(),
            DocumentContent::Portable(d) => d.info(),
        }
    }

    /// Build the metadata snapshot from the live backend and the file
    /// facts the caller supplies.
    pub fn extract_meta(&self, file_name: String, file_path: String, file_size: u64) -> (m:
        DocumentMeta)
        requires
            self matches DocumentContent::Portable(d) ==> d.num_pages <= u32::MAX,
        ensures
            m.file_name == file_name,
            m.file_path == file_path,
            m.file_size == file_size,
            self matches DocumentContent::Raster(d) ==> m.format@ == "Raster"@ && m.width
                == d.document.width && m.height == d.document.height,
            self matches DocumentContent::Vector(d) ==> m.format@ == "SVG"@ && m.width
                == d.native_width && m.height == d.native_height,
            self matches DocumentContent::Portable(d) ==> m.format@
                == crate::meta::spec_portable_format_label(d.num_pages as int) && m.width
                == d.rendered.width && m.height == d.rendered.height,
    {
        match self {
            DocumentContent::Raster(d) => d.extract_meta(file_name, file_path, file_size),
            DocumentContent::Vector(d) => d.extract_meta(file_name, file_path, file_size),
            DocumentContent::Portable(d) => d.extract_meta(file_name, file_path, file_size),
        }
    }

    /// Adopt the outcome of opening a new document: a success replaces
    /// the current document, a failure keeps it fully intact and
    /// surfaces the error.
    pub fn replace_or_keep(current: DocumentContent, candidate: Result<DocumentContent, DocError>)
        -> (r: (DocumentContent, Option<DocError>))
        ensures
            candidate matches Ok(d) ==> r.0 == d && r.1 is None,
            candidate matches Err(e) ==> r.0 == current && r.1 == Some(e),
    {
        match candidate {
            Ok(d) => (d, None),
            Err(e) => (current, Some(e)),
        }
    }
}

} // verus!
