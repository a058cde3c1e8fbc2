//! The portable (paginated) backend: an immutable page set rendered one
//! page at a time, with a resumable thumbnail pipeline.
//!
//! The parsed document and the page renderer live with the embedding
//! collaborator; this backend owns the page cursor, the transform
//! state, the displayed raster for the active page, and the thumbnail
//! store.  Navigation and rotation hand back a [`RenderRequest`] that
//! the collaborator fulfills through [`PortableDocument::apply_page_render`];
//! rotation is baked into that render while flips are an exact mirror
//! post-process on the rendered raster.

use vstd::prelude::*;

use crate::error::DocError;
use crate::meta::{build_portable_meta, spec_portable_format_label, DocumentInfo, DocumentMeta};
use crate::ops::{crop_rect, flip_horizontal, flip_vertical, is_crop_of, is_flip_h, is_flip_v};
use crate::pixel::{create_image_handle, ImageBuf, ImageHandle, RenderOutput};
use crate::transform::{FlipDirection, Rotation, RotationMode, TransformState};

verus! {

/// Scale, in thousandths, pages are rendered at for display: double
/// resolution for a sharp image.
pub const PAGE_RENDER_SCALE_MILLIS: u32 = 2000;

/// Scale, in thousandths, thumbnails are rendered at: a quarter of the
/// page for fast preview generation.
pub const THUMBNAIL_SCALE_MILLIS: u32 = 250;

/// What the embedding renderer is asked to produce: one page, drawn at
/// a quarter-turn rotation and a scale in thousandths.
#[derive(Debug, Clone, Copy, PartialEq, Eq, Structural)]
pub struct RenderRequest {
    pub page: usize,
    pub rotation: Rotation,
    pub scale_millis: u32,
}

/// The raster size of a rendered page: the page's size in points, with
/// width and height swapped for quarter-turn rotations that change the
/// bounding box, each scaled and ceiled.
pub open spec fn spec_page_surface(
    page_w: int,
    page_h: int,
    rotation: Rotation,
    millis: int,
) -> (int, int) {
    let swap = rotation == Rotation::Cw90 || rotation == Rotation::Cw270;
    let w = if swap {
        page_h
    } else {
        page_w
    };
    let h = if swap {
        page_w
    } else {
        page_h
    };
    (((w * millis) + 999) / 1000, ((h * millis) + 999) / 1000)
}

/// Compute the raster size a page render call must allocate.
pub fn page_render_geometry(page_w: u32, page_h: u32, rotation: Rotation, scale_millis: u32) -> (d:
    (u64, u64))
    ensures
        d.0 == spec_page_surface(page_w as int, page_h as int, rotation, scale_millis as int).0,
        d.1 == spec_page_surface(page_w as int, page_h as int, rotation, scale_millis as int).1,
{
    let swap = match rotation {
        Rotation::Cw90 => true,
        Rotation::Cw270 => true,
        _ => false,
    };
    let w: u64 = if swap {
        page_h as u64
    } else {
        page_w as u64
    };
    let h: u64 = if swap {
        page_w as u64
    } else {
        page_h as u64
    };
    proof {
        assert(w * (scale_millis as u64) <= 0xffff_ffff * 0xffff_ffff) by (nonlinear_arith)
            requires
                w <= 0xffff_ffffu64,
                scale_millis <= 0xffff_ffffu64,
        ;
        assert(h * (scale_millis as u64) <= 0xffff_ffff * 0xffff_ffff) by (nonlinear_arith)
            requires
                h <= 0xffff_ffffu64,
                scale_millis <= 0xffff_ffffu64,
        ;
    }
    ((w * (scale_millis as u64) + 999) / 1000, (h * (scale_millis as u64) + 999) / 1000)
}

/// `out` is `base` mirrored according to the two flip flags.
pub open spec fn spec_flips_applied(base: ImageBuf, fh: bool, fv: bool, out: ImageBuf) -> bool {
    let w = base.width as int;
    let h = base.height as int;
    &&& out.width == base.width
    &&& out.height == base.height
    &&& forall|x: int, y: int|
        out.in_bounds(x, y) ==> out.px(x, y) == base.px(
            spec_flip_src_x(fh, w, x),
            spec_flip_src_y(fv, h, y),
        )
}

/// Source column for output column `x` under an optional mirror.
pub open spec fn spec_flip_src_x(fh: bool, w: int, x: int) -> int {
    if fh {
        w - 1 - x
    } else {
        x
    }
}

/// Source row for output row `y` under an optional mirror.
pub open spec fn spec_flip_src_y(fv: bool, h: int, y: int) -> int {
    if fv {
        h - 1 - y
    } else {
        y
    }
}

/// Mirror a fresh copy of `base` according to the two flip flags.
pub fn apply_flips(base: &ImageBuf, fh: bool, fv: bool) -> (out: ImageBuf)
    requires
        base.wf(),
    ensures
        out.wf(),
        spec_flips_applied(*base, fh, fv, out),
{
    let ghost w = base.width as int;
    let ghost h = base.height as int;
    let step1: ImageBuf = if fh {
        flip_horizontal(base)
    } else {
        base.clone()
    };
    let ghost g1 = step1;
    let out: ImageBuf = if fv {
        flip_vertical(&step1)
    } else {
        step1
    };
    proof {
        assert forall|x: int, y: int| out.in_bounds(x, y) implies out.px(x, y) == base.px(
            spec_flip_src_x(fh, w, x),
            spec_flip_src_y(fv, h, y),
        ) by {
            if fv {
                assert(out.px(x, y) == g1.px(x, h - 1 - y));
            } else {
                assert(out.px(x, y) == g1.px(x, y));
            }
            let sy = spec_flip_src_y(fv, h, y);
            assert(g1.in_bounds(x, sy));
            if fh {
                assert(g1.px(x, sy) == base.px(w - 1 - x, sy));
            } else {
                assert(g1.px(x, sy) == base.px(x, sy));
            }
        }
    }
    out
}

/// A paginated document.
#[derive(Debug)]
pub struct PortableDocument {
    /// Total number of pages; at least one.
    pub num_pages: usize,
    /// Current page index, below `num_pages`.
    pub page_index: usize,
    /// Accumulated transform state, applied to the current page.
    pub transform: TransformState,
    /// The rendered raster of the active page, flips applied.
    pub rendered: ImageBuf,
    /// Display handle for the rendered raster.
    pub handle: ImageHandle,
    /// Thumbnail store: `None` until generation starts; thumbnails are
    /// appended strictly in page order, so its length says how many of
    /// the first pages are covered.
    pub thumbnails: Option<Vec<ImageHandle>>,
}

/// The handle a failed thumbnail render leaves in the store: one fully
/// transparent pixel, so the sequence never has gaps.
pub open spec fn spec_placeholder_thumbnail(h: ImageHandle) -> bool {
    h.width == 1 && h.height == 1 && h.rgba@ =~= seq![0u8, 0u8, 0u8, 0u8]
}

/// What lands in the store for one generated page: the fetched
/// thumbnail's pixels, or the placeholder when the fetch failed.
pub open spec fn spec_thumbnail_entry(fetched: Option<ImageBuf>, h: ImageHandle) -> bool {
    match fetched {
        Some(img) => h.matches(img),
        None => spec_placeholder_thumbnail(h),
    }
}

/// One step of resumable generation relates the store before and after:
/// when `page` is the first uncovered page, exactly one entry is
/// appended and the prior entries are untouched; otherwise nothing
/// changes.
pub open spec fn spec_gen_step(
    prior: Seq<ImageHandle>,
    cur: Seq<ImageHandle>,
    page: int,
    num: int,
    fetched: Option<ImageBuf>,
) -> bool {
    if prior.len() <= page < num {
        &&& cur.len() == prior.len() + 1
        &&& cur.subrange(0, prior.len() as int) == prior
        &&& spec_thumbnail_entry(fetched, cur.last())
    } else {
        cur == prior
    }
}

impl PortableDocument {
    /// Cursor in range, buffers well-formed, handle current, store
    /// never longer than the page count.
    pub open spec fn wf(self) -> bool {
        &&& self.num_pages > 0
        &&& self.page_index < self.num_pages
        &&& self.rendered.wf()
        &&& self.handle.matches(self.rendered)
        &&& self.thumbnails matches Some(v) ==> v@.len() <= self.num_pages
    }

    /// How many thumbnails the store holds.
    pub open spec fn spec_thumbnails_loaded(self) -> int {
        match self.thumbnails {
            Some(v) => v@.len() as int,
            None => 0,
        }
    }

    /// The stored thumbnails, oldest first; empty before the store
    /// exists.
    pub open spec fn spec_thumbnails_seq(self) -> Seq<ImageHandle> {
        match self.thumbnails {
            Some(v) => v@,
            None => Seq::<ImageHandle>::empty(),
        }
    }

    /// Build a portable document from its page count and the first
    /// page, rendered at the display scale with no rotation.
    ///
    /// Rejects a document with no pages; nothing else fails.
    pub fn open(num_pages: usize, first_page: ImageBuf) -> (r: Result<PortableDocument, DocError>)
        requires
            first_page.wf(),
        ensures
            r is Ok <==> num_pages > 0,
            r matches Ok(doc) ==> {
                &&& doc.wf()
                &&& doc.num_pages == num_pages
                &&& doc.page_index == 0
                &&& doc.transform == TransformState::spec_identity()
                &&& doc.rendered.same_image(first_page)
                &&& doc.thumbnails is None
            },
            r matches Err(e) ==> e == DocError::EmptyDocument,
    {
        if num_pages == 0 {
            return Err(DocError::EmptyDocument);
        }
        let handle = create_image_handle(&first_page);
        Ok(PortableDocument {
            num_pages,
            page_index: 0,
            transform: TransformState::identity(),
            rendered: first_page,
            handle,
            thumbnails: None,
        })
    }

    /// The dimensions of the rendered page.
    pub fn dimensions(&self) -> (d: (u32, u32))
        ensures
            d.0 == self.rendered.width,
            d.1 == self.rendered.height,
    {
        self.rendered.dimensions()
    }

    /// The native dimensions the backend reports: those of the
    /// rendered page.
    pub fn native_dimensions(&self) -> (d: (u32, u32))
        ensures
            d.0 == self.rendered.width,
            d.1 == self.rendered.height,
    {
        self.rendered.dimensions()
    }

    /// The display handle of the rendered page.
    pub fn handle(&self) -> (h: ImageHandle)
        ensures
            h.same_image(self.handle),
    {
        self.handle.clone()
    }

    /// Total page count.
    pub fn page_count(&self) -> (n: usize)
        ensures
            n == self.num_pages,
    {
        self.num_pages
    }

    /// Current page index.
    pub fn current_page(&self) -> (n: usize)
        ensures
            n == self.page_index,
    {
        self.page_index
    }

    /// The current transform state.
    pub fn transform_state(&self) -> (t: TransformState)
        ensures
            t == self.transform,
    {
        self.transform
    }

    /// Move the cursor to `page` and say what to render.  Fails, with
    /// no state change, exactly when the page does not exist.
    pub fn go_to_page(&mut self, page: usize) -> (r: Result<RenderRequest, DocError>)
        requires
            old(self).wf(),
        ensures
            final(self).wf(),
            r is Ok <==> page < old(self).num_pages,
            r matches Ok(req) ==> {
                &&& *final(self) == (PortableDocument { page_index: page, ..*old(self) })
                &&& req.page == page
                &&& req.rotation == Rotation::spec_from_qturns(
                    old(self).transform.rotation.spec_qturns(),
                )
                &&& req.scale_millis == PAGE_RENDER_SCALE_MILLIS
            },
            r matches Err(e) ==> e == DocError::PageOutOfRange && *final(self) == *old(self),
    {
        if page >= self.num_pages {
            return Err(DocError::PageOutOfRange);
        }
        self.page_index = page;
        Ok(RenderRequest {
            page,
            rotation: self.transform.rotation.snap(),
            scale_millis: PAGE_RENDER_SCALE_MILLIS,
        })
    }

    /// Step to the next page if there is one; `None` at the last page.
    pub fn next_page(&mut self) -> (r: Option<RenderRequest>)
        requires
            old(self).wf(),
        ensures
            final(self).wf(),
            r is Some <==> old(self).page_index + 1 < old(self).num_pages,
            r matches Some(req) ==> {
                &&& *final(self) == (PortableDocument {
                    page_index: (old(self).page_index + 1) as usize,
                    ..*old(self)
                })
                &&& req.page == old(self).page_index + 1
                &&& req.rotation == Rotation::spec_from_qturns(
                    old(self).transform.rotation.spec_qturns(),
                )
                &&& req.scale_millis == PAGE_RENDER_SCALE_MILLIS
            },
            r is None ==> *final(self) == *old(self),
    {
        if self.page_index + 1 < self.num_pages {
            self.page_index = self.page_index + 1;
            Some(RenderRequest {
                page: self.page_index,
                rotation: self.transform.rotation.snap(),
                scale_millis: PAGE_RENDER_SCALE_MILLIS,
            })
        } else {
            None
        }
    }

    /// Step to the previous page if there is one; `None` at the first.
    pub fn prev_page(&mut self) -> (r: Option<RenderRequest>)
        requires
            old(self).wf(),
        ensures
            final(self).wf(),
            r is Some <==> old(self).page_index > 0,
            r matches Some(req) ==> {
                &&& *final(self) == (PortableDocument {
                    page_index: (old(self).page_index - 1) as usize,
                    ..*old(self)
                })
                &&& req.page == old(self).page_index - 1
                &&& req.rotation == Rotation::spec_from_qturns(
                    old(self).transform.rotation.spec_qturns(),
                )
                &&& req.scale_millis == PAGE_RENDER_SCALE_MILLIS
            },
            r is None ==> *final(self) == *old(self),
    {
        if self.page_index > 0 {
            self.page_index = self.page_index - 1;
            Some(RenderRequest {
                page: self.page_index,
                rotation: self.transform.rotation.snap(),
                scale_millis: PAGE_RENDER_SCALE_MILLIS,
            })
        } else {
            None
        }
    }

    /// Step the rotation one quarter turn clockwise (reconciling a fine
    /// angle first) and say what to render: rotation is baked into the
    /// page render itself.
    pub fn rotate_cw(&mut self) -> (req: RenderRequest)
        requires
            old(self).wf(),
        ensures
            final(self).wf(),
            *final(self) == (PortableDocument {
                transform: TransformState {
                    rotation: old(self).transform.rotation.spec_rotate_cw(),
                    ..old(self).transform
                },
                ..*old(self)
            }),
            req.page == old(self).page_index,
            RotationMode::Standard(req.rotation) == old(self).transform.rotation.spec_rotate_cw(),
            req.scale_millis == PAGE_RENDER_SCALE_MILLIS,
    {
        let new_mode = self.transform.rotation.rotate_cw();
        self.transform = TransformState { rotation: new_mode, ..self.transform };
        RenderRequest {
            page: self.page_index,
            rotation: new_mode.snap(),
            scale_millis: PAGE_RENDER_SCALE_MILLIS,
        }
    }

    /// Step the rotation one quarter turn counter-clockwise; see
    /// `rotate_cw`.
    pub fn rotate_ccw(&mut self) -> (req: RenderRequest)
        requires
            old(self).wf(),
        ensures
            final(self).wf(),
            *final(self) == (PortableDocument {
                transform: TransformState {
                    rotation: old(self).transform.rotation.spec_rotate_ccw(),
                    ..old(self).transform
                },
                ..*old(self)
            }),
            req.page == old(self).page_index,
            RotationMode::Standard(req.rotation) == old(self).transform.rotation.spec_rotate_ccw(),
            req.scale_millis == PAGE_RENDER_SCALE_MILLIS,
    {
        let new_mode = self.transform.rotation.rotate_ccw();
        self.transform = TransformState { rotation: new_mode, ..self.transform };
        RenderRequest {
            page: self.page_index,
            rotation: new_mode.snap(),
            scale_millis: PAGE_RENDER_SCALE_MILLIS,
        }
    }

    /// Record a fine rotation angle (hundredths of a degree); it takes
    /// effect when reconciled to a standard step.
    pub fn rotate_fine(&mut self, centi_degrees: i32)
        requires
            old(self).wf(),
        ensures
            final(self).wf(),
            *final(self) == (PortableDocument {
                transform: TransformState {
                    rotation: RotationMode::Fine(centi_degrees),
                    ..old(self).transform
                },
                ..*old(self)
            }),
    {
        self.transform = TransformState {
            rotation: RotationMode::Fine(centi_degrees),
            ..self.transform
        };
    }

    /// Complete a render request: install the freshly rendered page,
    /// applying the flip flags as a mirror post-process.
    pub fn apply_page_render(&mut self, page_pixels: &ImageBuf)
        requires
            old(self).wf(),
            page_pixels.wf(),
        ensures
            final(self).wf(),
            final(self).num_pages == old(self).num_pages,
            final(self).page_index == old(self).page_index,
            final(self).transform == old(self).transform,
            final(self).thumbnails == old(self).thumbnails,
            spec_flips_applied(
                *page_pixels,
                old(self).transform.flip_h,
                old(self).transform.flip_v,
                final(self).rendered,
            ),
    {
        let rendered = apply_flips(page_pixels, self.transform.flip_h, self.transform.flip_v);
        self.handle = create_image_handle(&rendered);
        self.rendered = rendered;
    }

    /// Toggle a flip flag and mirror the rendered raster in place:
    /// flips are a post-process on the rendered page, not part of the
    /// page render.
    pub fn flip(&mut self, direction: FlipDirection)
        requires
            old(self).wf(),
        ensures
            final(self).wf(),
            final(self).num_pages == old(self).num_pages,
            final(self).page_index == old(self).page_index,
            final(self).thumbnails == old(self).thumbnails,
            final(self).transform == old(self).transform.spec_toggled(direction),
            direction is Horizontal ==> is_flip_h(old(self).rendered, final(self).rendered),
            direction is Vertical ==> is_flip_v(old(self).rendered, final(self).rendered),
    {
        match direction {
            FlipDirection::Horizontal => {
                self.rendered = flip_horizontal(&self.rendered);
            },
            FlipDirection::Vertical => {
                self.rendered = flip_vertical(&self.rendered);
            },
        }
        self.transform = self.transform.toggled(direction);
        self.handle = create_image_handle(&self.rendered);
    }

    /// Mirror left-to-right.
    pub fn flip_horizontal(&mut self)
        requires
            old(self).wf(),
        ensures
            final(self).wf(),
            final(self).num_pages == old(self).num_pages,
            final(self).page_index == old(self).page_index,
            final(self).thumbnails == old(self).thumbnails,
            final(self).transform == old(self).transform.spec_toggled(FlipDirection::Horizontal),
            is_flip_h(old(self).rendered, final(self).rendered),
    {
        self.flip(FlipDirection::Horizontal);
    }

    /// Mirror top-to-bottom.
    pub fn flip_vertical(&mut self)
        requires
            old(self).wf(),
        ensures
            final(self).wf(),
            final(self).num_pages == old(self).num_pages,
            final(self).page_index == old(self).page_index,
            final(self).thumbnails == old(self).thumbnails,
            final(self).transform == old(self).transform.spec_toggled(FlipDirection::Vertical),
            is_flip_v(old(self).rendered, final(self).rendered),
    {
        self.flip(FlipDirection::Vertical);
    }

    /// Crop the rendered page.  The corner must be in bounds and the
    /// extent non-empty; the extent is clamped to what remains beyond
    /// the corner rather than rejected.
    pub fn crop(&mut self, x: u32, y: u32, width: u32, height: u32) -> (r: Result<(), DocError>)
        requires
            old(self).wf(),
        ensures
            final(self).wf(),
            r is Ok <==> (x < old(self).rendered.width && y < old(self).rendered.height && width
                > 0 && height > 0),
            r is Ok ==> {
                &&& final(self).num_pages == old(self).num_pages
                &&& final(self).page_index == old(self).page_index
                &&& final(self).transform == old(self).transform
                &&& final(self).thumbnails == old(self).thumbnails
                &&& is_crop_of(
                    old(self).rendered,
                    final(self).rendered,
                    x as int,
                    y as int,
                    vstd::math::min(width as int, old(self).rendered.width - x),
                    vstd::math::min(height as int, old(self).rendered.height - y),
                )
            },
            r matches Err(e) ==> e == DocError::CropOutOfBounds && *final(self) == *old(self),
    {
        let (img_w, img_h) = self.rendered.dimensions();
        if x >= img_w || y >= img_h || width == 0 || height == 0 {
            return Err(DocError::CropOutOfBounds);
        }
        let cw: u32 = if width < img_w - x {
            width
        } else {
            img_w - x
        };
        let ch: u32 = if height < img_h - y {
            height
        } else {
            img_h - y
        };
        self.rendered = crop_rect(&self.rendered, x, y, cw, ch);
        self.handle = create_image_handle(&self.rendered);
        Ok(())
    }

    /// The rendered page's handle and dimensions; paginated rendering
    /// quality is fixed, so the requested scale changes nothing.
    pub fn render(&mut self, _scale_millis: u32) -> (out: RenderOutput)
        requires
            old(self).wf(),
        ensures
            *final(self) == *old(self),
            out.width == old(self).rendered.width,
            out.height == old(self).rendered.height,
            out.handle.same_image(old(self).handle),
    {
        let handle = self.handle.clone();
        RenderOutput { handle, width: self.rendered.width, height: self.rendered.height }
    }

    /// Whether every page has a thumbnail.
    pub fn thumbnails_ready(&self) -> (b: bool)
        ensures
            b == (self.thumbnails is Some && self.spec_thumbnails_loaded() >= self.num_pages),
    {
        match &self.thumbnails {
            Some(v) => v.len() >= self.num_pages,
            None => false,
        }
    }

    /// How many thumbnails are loaded so far.
    pub fn thumbnails_loaded(&self) -> (n: usize)
        ensures
            n == self.spec_thumbnails_loaded(),
    {
        match &self.thumbnails {
            Some(v) => v.len(),
            None => 0,
        }
    }

    /// Create the empty store if generation has not started yet.
    pub fn init_thumbnail_cache(&mut self)
        requires
            old(self).wf(),
        ensures
            final(self).wf(),
            final(self).thumbnails is Some,
            final(self).spec_thumbnails_seq() == old(self).spec_thumbnails_seq(),
            final(self).num_pages == old(self).num_pages,
            final(self).page_index == old(self).page_index,
            final(self).transform == old(self).transform,
            final(self).rendered == old(self).rendered,
            final(self).handle == old(self).handle,
    {
        if self.thumbnails.is_none() {
            self.thumbnails = Some(Vec::new());
        }
    }

    /// One unit of resumable thumbnail generation.
    ///
    /// Initializes the store on first use.  When `page` is the first
    /// uncovered page, appends exactly one entry: the fetched
    /// thumbnail, or — when the fetch failed — a one-pixel transparent
    /// placeholder, so the store stays gapless and strictly in page
    /// order.  When `page` is already covered, or past the last page,
    /// nothing is generated.  Returns the next page to generate, or
    /// `None` once `page` was the last one.
    pub fn generate_thumbnail_page(&mut self, page: usize, fetched: Option<ImageBuf>) -> (next:
        Option<usize>)
        requires
            old(self).wf(),
            fetched matches Some(img) ==> img.wf(),
        ensures
            final(self).wf(),
            final(self).num_pages == old(self).num_pages,
            final(self).page_index == old(self).page_index,
            final(self).transform == old(self).transform,
            final(self).rendered == old(self).rendered,
            final(self).handle == old(self).handle,
            next == if page + 1 < old(self).num_pages {
                Some((page + 1) as usize)
            } else {
                None::<usize>
            },
            final(self).thumbnails is Some,
            spec_gen_step(
                old(self).spec_thumbnails_seq(),
                final(self).spec_thumbnails_seq(),
                page as int,
                old(self).num_pages as int,
                fetched,
            ),
    {
        self.init_thumbnail_cache();
        let num_pages = self.num_pages;
        let mut store: Vec<ImageHandle> = match self.thumbnails.take() {
            Some(v) => v,
            None => Vec::new(),
        };
        {
            let len = store.len();
            if len <= page && page < num_pages {
                let entry = match fetched {
                    Some(img) => create_image_handle(&img),
                    None => {
                        let mut rgba: Vec<u8> = Vec::new();
                        rgba.push(0);
                        rgba.push(0);
                        rgba.push(0);
                        rgba.push(0);
                        proof {
                            assert(rgba@ =~= seq![0u8, 0u8, 0u8, 0u8]);
                        }
                        ImageHandle { width: 1, height: 1, rgba }
                    },
                };
                store.push(entry);
            }
        }
        self.thumbnails = Some(store);
        proof {
            let prior = old(self).spec_thumbnails_seq();
            let cur = self.spec_thumbnails_seq();
            if prior.len() <= page < old(self).num_pages {
                assert(cur.subrange(0, prior.len() as int) =~= prior);
            } else {
                assert(cur =~= prior);
            }
        }
        if page < self.num_pages - 1 {
            Some(page + 1)
        } else {
            None
        }
    }

    /// Drive thumbnail generation over every page at once, in order.
    /// `fetched` supplies, for each page, what the collaborator could
    /// produce for it; entries for already covered pages are ignored.
    pub fn generate_thumbnails(&mut self, fetched: Vec<Option<ImageBuf>>)
        requires
            old(self).wf(),
            fetched@.len() == old(self).num_pages,
            forall|i: int|
                0 <= i < fetched@.len() ==> (#[trigger] fetched@[i] matches Some(img) ==> img.wf()),
        ensures
            final(self).wf(),
            final(self).num_pages == old(self).num_pages,
            final(self).page_index == old(self).page_index,
            final(self).transform == old(self).transform,
            final(self).rendered == old(self).rendered,
            final(self).handle == old(self).handle,
            final(self).thumbnails is Some,
            final(self).spec_thumbnails_loaded() == final(self).num_pages,
    {
        let mut fetched = fetched;
        let num_pages = self.num_pages;
        let mut page: usize = 0;
        while page < num_pages
            invariant
                self.wf(),
                num_pages == self.num_pages,
                self.num_pages == old(self).num_pages,
                self.page_index == old(self).page_index,
                self.transform == old(self).transform,
                self.rendered == old(self).rendered,
                self.handle == old(self).handle,
                page <= num_pages,
                fetched@.len() == num_pages - page,
                forall|i: int|
                    0 <= i < fetched@.len() ==> (#[trigger] fetched@[i] matches Some(img) ==> img.wf()),
                page > 0 ==> self.thumbnails is Some && self.spec_thumbnails_loaded() >= page,
            decreases num_pages - page,
        {
            let entry = fetched.remove(0);
            self.generate_thumbnail_page(page, entry);
            page = page + 1;
        }
        proof {
            assert(self.thumbnails is Some);
            assert(self.spec_thumbnails_loaded() >= num_pages);
            assert(self.spec_thumbnails_loaded() <= num_pages);
        }
    }

    /// The stored thumbnail for a page, if it was generated.
    pub fn get_thumbnail(&self, page: usize) -> (r: Option<ImageHandle>)
        ensures
            r is Some <==> (self.thumbnails is Some && page < self.spec_thumbnails_loaded()),
            r matches Some(h) ==> self.thumbnails matches Some(v) && h.same_image(v@[page as int]),
    {
        match &self.thumbnails {
            Some(v) => {
                if page < v.len() {
                    Some(v[page].clone())
                } else {
                    None
                }
            },
            None => None,
        }
    }

    /// The stored thumbnail for a page (read-only access).
    pub fn get_thumbnail_handle(&self, page: usize) -> (r: Option<ImageHandle>)
        ensures
            r is Some <==> (self.thumbnails is Some && page < self.spec_thumbnails_loaded()),
            r matches Some(h) ==> self.thumbnails matches Some(v) && h.same_image(v@[page as int]),
    {
        self.get_thumbnail(page)
    }

    /// Basic information: the rendered page's dimensions.
    pub fn info(&self) -> (i: DocumentInfo)
        ensures
            i.width == self.rendered.width,
            i.height == self.rendered.height,
            i.format@ == "PDF"@,
    {
        DocumentInfo {
            width: self.rendered.width,
            height: self.rendered.height,
            format: String::from_str("PDF"),
        }
    }

    /// Build the metadata snapshot; the format label carries the page
    /// count.
    pub fn extract_meta(&self, file_name: String, file_path: String, file_size: u64) -> (m:
        DocumentMeta)
        requires
            self.num_pages <= u32::MAX,
        ensures
            m.file_name == file_name,
            m.file_path == file_path,
            m.file_size == file_size,
            m.width == self.rendered.width,
            m.height == self.rendered.height,
            m.format@ == spec_portable_format_label(self.num_pages as int),
    {
        build_portable_meta(
            file_name,
            file_path,
            file_size,
            self.rendered.width,
            self.rendered.height,
            self.num_pages as u32,
        )
    }
}


/// How one `rotate_cw` call relates a paginated document's state
/// before and after: only the rotation steps; the rendered raster
/// waits for the request to complete.
pub open spec fn rotate_cw_rel(pre: PortableDocument, post: PortableDocument) -> bool {
    post == (PortableDocument {
        transform: TransformState {
            rotation: pre.transform.rotation.spec_rotate_cw(),
            ..pre.transform
        },
        ..pre
    })
}

/// Four clockwise quarter turns return a paginated document, started
/// from a standard rotation, to exactly the state it was in: the
/// rotation cycles and nothing else ever moved.  The pixels the
/// collaborator then renders for it coincide as well, since the render
/// request is a function of this state.
pub proof fn lemma_portable_rotate_four_restores(
    d0: PortableDocument,
    d1: PortableDocument,
    d2: PortableDocument,
    d3: PortableDocument,
    d4: PortableDocument,
)
    requires
        d0.transform.rotation is Standard,
        rotate_cw_rel(d0, d1),
        rotate_cw_rel(d1, d2),
        rotate_cw_rel(d2, d3),
        rotate_cw_rel(d3, d4),
    ensures
        d4 == d0,
{
    crate::transform::lemma_rotate_cw_four_restores(d0.transform.rotation);
}

/// How one flip call relates a paginated document's state before and
/// after.
pub open spec fn flip_rel(pre: PortableDocument, post: PortableDocument, direction: FlipDirection) -> bool {
    &&& post.num_pages == pre.num_pages
    &&& post.page_index == pre.page_index
    &&& post.thumbnails == pre.thumbnails
    &&& post.transform == pre.transform.spec_toggled(direction)
    &&& (direction is Horizontal ==> is_flip_h(pre.rendered, post.rendered))
    &&& (direction is Vertical ==> is_flip_v(pre.rendered, post.rendered))
}

/// Two flips on one axis restore a paginated document's rendered page
/// and its flip flags exactly.
pub proof fn lemma_portable_flip_twice_restores(
    d0: PortableDocument,
    d1: PortableDocument,
    d2: PortableDocument,
    direction: FlipDirection,
)
    requires
        d0.wf(),
        d1.wf(),
        d2.wf(),
        flip_rel(d0, d1, direction),
        flip_rel(d1, d2, direction),
    ensures
        d2.transform == d0.transform,
        d2.rendered.width == d0.rendered.width,
        d2.rendered.height == d0.rendered.height,
        d2.rendered.data@ == d0.rendered.data@,
{
    match direction {
        FlipDirection::Horizontal => {
            crate::ops::lemma_flip_h_twice_restores(d0.rendered, d1.rendered, d2.rendered);
        },
        FlipDirection::Vertical => {
            crate::ops::lemma_flip_v_twice_restores(d0.rendered, d1.rendered, d2.rendered);
        },
    }
}

} // verus!
