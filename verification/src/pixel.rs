//! The pixel buffer model every backend renders into.
//!
//! An [`ImageBuf`] is a row-major grid of RGBA pixels; an
//! [`ImageHandle`] is the display-ready form of the same pixels, a flat
//! byte buffer as the embedding presentation layer consumes it.

use vstd::prelude::*;

verus! {

/// One pixel: red, green, blue, alpha.
#[derive(Clone, Copy, PartialEq, Eq, Structural, Debug)]
pub struct Rgba {
    pub r: u8,
    pub g: u8,
    pub b: u8,
    pub a: u8,
}

impl Rgba {
    /// The fully transparent black pixel.
    pub open spec fn spec_transparent() -> Rgba {
        Rgba { r: 0, g: 0, b: 0, a: 0 }
    }

    /// Build the fully transparent black pixel.
    pub fn transparent() -> (p: Rgba)
        ensures
            p == Rgba::spec_transparent(),
    {
        Rgba { r: 0, g: 0, b: 0, a: 0 }
    }
}

/// A decoded image: row-major pixels, `width * height` of them.
#[derive(PartialEq, Eq, Debug)]
pub struct ImageBuf {
    pub width: u32,
    pub height: u32,
    pub data: Vec<Rgba>,
}

impl ImageBuf {
    /// The buffer holds exactly one pixel per grid cell.
    pub open spec fn wf(self) -> bool {
        self.data@.len() == self.width * self.height
    }

    /// The pixel at column `x`, row `y`.
    pub open spec fn px(self, x: int, y: int) -> Rgba {
        self.data@[y * self.width + x]
    }

    /// Whether `(x, y)` lies on the grid.
    pub open spec fn in_bounds(self, x: int, y: int) -> bool {
        0 <= x < self.width && 0 <= y < self.height
    }

    /// Two buffers show the same image: same grid, same pixels.
    pub open spec fn same_image(self, other: ImageBuf) -> bool {
        self.width == other.width && self.height == other.height && self.data@ == other.data@
    }

    /// Read the pixel at column `x`, row `y`.
    pub fn at(&self, x: u32, y: u32) -> (p: Rgba)
        requires
            self.wf(),
            x < self.width,
            y < self.height,
        ensures
            p == self.px(x as int, y as int),
    {
        let len: usize = self.data.len();
        proof {
            lemma_row_major_index(x as int, y as int, self.width as int, self.height as int);
            assert((y * self.width + x) < len);
        }
        self.data[(y as usize) * (self.width as usize) + (x as usize)]
    }

    /// The current dimensions, width then height.
    pub fn dimensions(&self) -> (d: (u32, u32))
        ensures
            d.0 == self.width,
            d.1 == self.height,
    {
        (self.width, self.height)
    }
}

impl Clone for ImageBuf {
    /// An exact copy of the image.
    fn clone(&self) -> (r: Self)
        ensures
            r.same_image(*self),
    {
        ImageBuf {
            width: self.width,
            height: self.height,
            data: vstd::slice::slice_to_vec(self.data.as_slice()),
        }
    }
}

/// Row-major position of `(x, y)` on a `w` by `h` grid is within the
/// buffer.
pub proof fn lemma_row_major_index(x: int, y: int, w: int, h: int)
    requires
        0 <= x < w,
        0 <= y < h,
    ensures
        0 <= y * w + x < w * h,
        y * w + x == x + y * w,
{
    assert(y * w + x < w * h) by (nonlinear_arith)
        requires
            0 <= x < w,
            0 <= y < h,
    ;
    assert(0 <= y * w) by (nonlinear_arith)
        requires
            0 <= y,
            0 < w,
    ;
}

/// Distinct grid cells occupy distinct row-major positions; positions
/// of earlier rows lie before positions of later rows.
pub proof fn lemma_row_major_order(x1: int, y1: int, x2: int, y2: int, w: int)
    requires
        0 <= x1 < w,
        0 <= x2 < w,
        0 <= y1,
        0 <= y2,
        y1 < y2 || (y1 == y2 && x1 < x2),
    ensures
        y1 * w + x1 < y2 * w + x2,
{
    assert(y1 * w + x1 < y2 * w + x2) by (nonlinear_arith)
        requires
            0 <= x1 < w,
            0 <= x2 < w,
            0 <= y1,
            0 <= y2,
            y1 < y2 || (y1 == y2 && x1 < x2),
    ;
}

/// Two well-formed buffers with equal dimensions and equal pixels hold
/// equal data.
pub proof fn lemma_pixels_determine_data(a: ImageBuf, b: ImageBuf)
    requires
        a.wf(),
        b.wf(),
        a.width == b.width,
        a.height == b.height,
        forall|x: int, y: int| a.in_bounds(x, y) ==> a.px(x, y) == b.px(x, y),
    ensures
        a.data@ == b.data@,
{
    let w = a.width as int;
    let h = a.height as int;
    assert forall|i: int| 0 <= i < a.data@.len() implies a.data@[i] == b.data@[i] by {
        let x = i % w;
        let y = i / w;
        assert(w * h > 0);
        assert(w > 0);
        vstd::arithmetic::div_mod::lemma_fundamental_div_mod(i, w);
        vstd::arithmetic::div_mod::lemma_mod_bound(i, w);
        assert(i == w * (i / w) + i % w);
        assert(0 <= x < w);
        assert(0 <= y) by (nonlinear_arith)
            requires
                i >= 0,
                w > 0,
                y == i / w,
        ;
        assert(y < h) by (nonlinear_arith)
            requires
                i < w * h,
                w > 0,
                0 <= y,
                0 <= x < w,
                i == w * y + x,
        ;
        assert(y * w + x == i) by (nonlinear_arith)
            requires
                i == w * y + x,
        ;
        assert(a.px(x, y) == b.px(x, y));
    }
    assert(a.data@ =~= b.data@);
}

/// The display-ready form of an image: the same pixels flattened into
/// RGBA byte order, as the presentation layer consumes them.
#[derive(PartialEq, Eq, Debug)]
pub struct ImageHandle {
    pub width: u32,
    pub height: u32,
    pub rgba: Vec<u8>,
}

impl ImageHandle {
    /// Four bytes per grid cell.
    pub open spec fn wf(self) -> bool {
        self.rgba@.len() == 4 * (self.width * self.height)
    }

    /// The handle shows exactly the pixels of `img`.
    pub open spec fn matches(self, img: ImageBuf) -> bool {
        &&& self.width == img.width
        &&& self.height == img.height
        &&& self.rgba@.len() == 4 * img.data@.len()
        &&& forall|i: int|
            0 <= i < img.data@.len() ==> {
                &&& self.rgba@[4 * i] == img.data@[i].r
                &&& self.rgba@[4 * i + 1] == img.data@[i].g
                &&& self.rgba@[4 * i + 2] == img.data@[i].b
                &&& self.rgba@[4 * i + 3] == img.data@[i].a
            }
    }

    /// Two handles show the same image.
    pub open spec fn same_image(self, other: ImageHandle) -> bool {
        self.width == other.width && self.height == other.height && self.rgba@ == other.rgba@
    }
}

impl Clone for ImageHandle {
    /// An exact copy of the handle.
    fn clone(&self) -> (r: Self)
        ensures
            r.same_image(*self),
    {
        ImageHandle {
            width: self.width,
            height: self.height,
            rgba: vstd::slice::slice_to_vec(self.rgba.as_slice()),
        }
    }
}

/// `bytes` is the flat RGBA encoding of `pixels`, four bytes per pixel.
pub open spec fn spec_pixels_match_bytes(pixels: Seq<Rgba>, bytes: Seq<u8>) -> bool {
    &&& bytes.len() == 4 * pixels.len()
    &&& forall|i: int|
        0 <= i < pixels.len() ==> {
            &&& bytes[4 * i] == pixels[i].r
            &&& bytes[4 * i + 1] == pixels[i].g
            &&& bytes[4 * i + 2] == pixels[i].b
            &&& bytes[4 * i + 3] == pixels[i].a
        }
}

/// Group a flat RGBA byte buffer into the pixel grid it encodes.
pub fn image_from_rgba_bytes(width: u32, height: u32, bytes: &Vec<u8>) -> (img: ImageBuf)
    requires
        bytes@.len() == 4 * (width * height),
    ensures
        img.wf(),
        img.width == width,
        img.height == height,
        spec_pixels_match_bytes(img.data@, bytes@),
{
    let len: usize = bytes.len();
    let mut data: Vec<Rgba> = Vec::new();
    let mut i: usize = 0;
    while 4 * i < len
        invariant
            len == bytes@.len(),
            len == 4 * (width * height),
            4 * i <= len,
            data@.len() == i,
            forall|j: int|
                0 <= j < i ==> {
                    &&& bytes@[4 * j] == data@[j].r
                    &&& bytes@[4 * j + 1] == data@[j].g
                    &&& bytes@[4 * j + 2] == data@[j].b
                    &&& bytes@[4 * j + 3] == data@[j].a
                },
        decreases len - 4 * i,
    {
        let p = Rgba {
            r: bytes[4 * i],
            g: bytes[4 * i + 1],
            b: bytes[4 * i + 2],
            a: bytes[4 * i + 3],
        };
        data.push(p);
        i = i + 1;
    }
    ImageBuf { width, height, data }
}

/// What a render call hands back: the display handle and the rendered
/// dimensions.
#[derive(Debug)]
pub struct RenderOutput {
    pub handle: ImageHandle,
    pub width: u32,
    pub height: u32,
}

/// Flatten a rendered image into its display handle.
pub fn create_image_handle(img: &ImageBuf) -> (h: ImageHandle)
    requires
        img.wf(),
    ensures
        h.wf(),
        h.matches(*img),
{
    let n: usize = img.data.len();
    let mut rgba: Vec<u8> = Vec::new();
    let mut i: usize = 0;
    while i < n
        invariant
            n == img.data@.len(),
            i <= n,
            rgba@.len() == 4 * i,
            forall|j: int|
                0 <= j < i ==> {
                    &&& rgba@[4 * j] == img.data@[j].r
                    &&& rgba@[4 * j + 1] == img.data@[j].g
                    &&& rgba@[4 * j + 2] == img.data@[j].b
                    &&& rgba@[4 * j + 3] == img.data@[j].a
                },
        decreases n - i,
    {
        let p = img.data[i];
        rgba.push(p.r);
        rgba.push(p.g);
        rgba.push(p.b);
        rgba.push(p.a);
        i = i + 1;
    }
    ImageHandle { width: img.width, height: img.height, rgba }
}

} // verus!
