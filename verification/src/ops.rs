//! Exact pixel permutations: quarter-turn rotations, mirror flips,
//! sub-region extraction, and alpha unpremultiplication.
//!
//! Each operation states precisely which source pixel every destination
//! pixel comes from, so the identity laws (four quarter turns, or two
//! flips on one axis, restore the image) are proved from the contracts
//! alone.

use vstd::prelude::*;

use crate::pixel::{lemma_pixels_determine_data, lemma_row_major_index, lemma_row_major_order,
    ImageBuf, Rgba};

verus! {

/// `b` is `a` rotated one quarter turn clockwise.
pub open spec fn is_rotate90(a: ImageBuf, b: ImageBuf) -> bool {
    &&& b.width == a.height
    &&& b.height == a.width
    &&& forall|x: int, y: int|
        b.in_bounds(x, y) ==> b.px(x, y) == a.px(y, a.height - 1 - x)
}

/// `b` is `a` rotated a half turn.
pub open spec fn is_rotate180(a: ImageBuf, b: ImageBuf) -> bool {
    &&& b.width == a.width
    &&& b.height == a.height
    &&& forall|x: int, y: int|
        b.in_bounds(x, y) ==> b.px(x, y) == a.px(a.width - 1 - x, a.height - 1 - y)
}

/// `b` is `a` rotated one quarter turn counter-clockwise.
pub open spec fn is_rotate270(a: ImageBuf, b: ImageBuf) -> bool {
    &&& b.width == a.height
    &&& b.height == a.width
    &&& forall|x: int, y: int|
        b.in_bounds(x, y) ==> b.px(x, y) == a.px(a.width - 1 - y, x)
}

/// `b` is `a` mirrored left-to-right.
pub open spec fn is_flip_h(a: ImageBuf, b: ImageBuf) -> bool {
    &&& b.width == a.width
    &&& b.height == a.height
    &&& forall|x: int, y: int|
        b.in_bounds(x, y) ==> b.px(x, y) == a.px(a.width - 1 - x, y)
}

/// `b` is `a` mirrored top-to-bottom.
pub open spec fn is_flip_v(a: ImageBuf, b: ImageBuf) -> bool {
    &&& b.width == a.width
    &&& b.height == a.height
    &&& forall|x: int, y: int|
        b.in_bounds(x, y) ==> b.px(x, y) == a.px(x, a.height - 1 - y)
}

/// `b` is the `w` by `h` sub-region of `a` whose top-left corner sits at
/// `(x0, y0)`.
pub open spec fn is_crop_of(a: ImageBuf, b: ImageBuf, x0: int, y0: int, w: int, h: int) -> bool {
    &&& b.width == w
    &&& b.height == h
    &&& forall|x: int, y: int|
        b.in_bounds(x, y) ==> b.px(x, y) == a.px(x0 + x, y0 + y)
}

/// Rotate one quarter turn clockwise.
pub fn rotate90(a: &ImageBuf) -> (b: ImageBuf)
    requires
        a.wf(),
    ensures
        b.wf(),
        is_rotate90(*a, b),
{
    let ow: u32 = a.height;
    let oh: u32 = a.width;
    let mut data: Vec<Rgba> = Vec::new();
    let mut y: u32 = 0;
    while y < oh
        invariant
            a.wf(),
            ow == a.height,
            oh == a.width,
            y <= oh,
            data@.len() == y * ow,
            forall|yy: int, xx: int|
                #![trigger data@[yy * ow + xx]]
                0 <= yy < y && 0 <= xx < ow ==> data@[yy * ow + xx] == a.px(yy, ow - 1 - xx),
        decreases oh - y,
    {
        let mut x: u32 = 0;
        while x < ow
            invariant
                a.wf(),
                ow == a.height,
                oh == a.width,
                y < oh,
                x <= ow,
                data@.len() == y * ow + x,
                forall|yy: int, xx: int|
                    #![trigger data@[yy * ow + xx]]
                    (0 <= yy < y && 0 <= xx < ow) || (yy == y && 0 <= xx < x)
                        ==> data@[yy * ow + xx] == a.px(yy, ow - 1 - xx),
            decreases ow - x,
        {
            let v = a.at(y, ow - 1 - x);
            proof {
                lemma_row_major_index(x as int, y as int, ow as int, oh as int);
            }
            data.push(v);
            proof {
                assert forall|yy: int, xx: int|
                    #![trigger data@[yy * ow + xx]]
                    (0 <= yy < y && 0 <= xx < ow) || (yy == y && 0 <= xx < x + 1)
                        implies #[trigger] data@[yy * ow + xx] == a.px(yy, ow - 1 - xx) by {
                    if yy == y && xx == x {
                    } else {
                        lemma_row_major_order(xx, yy, x as int, y as int, ow as int);
                    }
                }
            }
            x = x + 1;
        }
        proof {
            assert(((y as int) + 1) * (ow as int) == (y as int) * (ow as int) + (ow as int))
                by (nonlinear_arith);
        }
        y = y + 1;
    }
    let b = ImageBuf { width: ow, height: oh, data };
    proof {
        assert(b.data@.len() == ow * oh) by (nonlinear_arith)
            requires
                b.data@.len() == oh * ow,
        ;
    }
    b
}

/// Rotate a half turn.
pub fn rotate180(a: &ImageBuf) -> (b: ImageBuf)
    requires
        a.wf(),
    ensures
        b.wf(),
        is_rotate180(*a, b),
{
    let ow: u32 = a.width;
    let oh: u32 = a.height;
    let mut data: Vec<Rgba> = Vec::new();
    let mut y: u32 = 0;
    while y < oh
        invariant
            a.wf(),
            ow == a.width,
            oh == a.height,
            y <= oh,
            data@.len() == y * ow,
            forall|yy: int, xx: int|
                #![trigger data@[yy * ow + xx]]
                0 <= yy < y && 0 <= xx < ow
                    ==> data@[yy * ow + xx] == a.px(ow - 1 - xx, oh - 1 - yy),
        decreases oh - y,
    {
        let mut x: u32 = 0;
        while x < ow
            invariant
                a.wf(),
                ow == a.width,
                oh == a.height,
                y < oh,
                x <= ow,
                data@.len() == y * ow + x,
                forall|yy: int, xx: int|
                    #![trigger data@[yy * ow + xx]]
                    (0 <= yy < y && 0 <= xx < ow) || (yy == y && 0 <= xx < x)
                        ==> data@[yy * ow + xx] == a.px(ow - 1 - xx, oh - 1 - yy),
            decreases ow - x,
        {
            let v = a.at(ow - 1 - x, oh - 1 - y);
            proof {
                lemma_row_major_index(x as int, y as int, ow as int, oh as int);
            }
            data.push(v);
            proof {
                assert forall|yy: int, xx: int|
                    #![trigger data@[yy * ow + xx]]
                    (0 <= yy < y && 0 <= xx < ow) || (yy == y && 0 <= xx < x + 1)
                        implies #[trigger] data@[yy * ow + xx] == a.px(ow - 1 - xx, oh - 1 - yy) by {
                    if yy == y && xx == x {
                    } else {
                        lemma_row_major_order(xx, yy, x as int, y as int, ow as int);
                    }
                }
            }
            x = x + 1;
        }
        proof {
            assert(((y as int) + 1) * (ow as int) == (y as int) * (ow as int) + (ow as int))
                by (nonlinear_arith);
        }
        y = y + 1;
    }
    let b = ImageBuf { width: ow, height: oh, data };
    proof {
        assert(b.data@.len() == ow * oh) by (nonlinear_arith)
            requires
                b.data@.len() == oh * ow,
        ;
    }
    b
}

/// Rotate one quarter turn counter-clockwise.
pub fn rotate270(a: &ImageBuf) -> (b: ImageBuf)
    requires
        a.wf(),
    ensures
        b.wf(),
        is_rotate270(*a, b),
{
    let ow: u32 = a.height;
    let oh: u32 = a.width;
    let mut data: Vec<Rgba> = Vec::new();
    let mut y: u32 = 0;
    while y < oh
        invariant
            a.wf(),
            ow == a.height,
            oh == a.width,
            y <= oh,
            data@.len() == y * ow,
            forall|yy: int, xx: int|
                #![trigger data@[yy * ow + xx]]
                0 <= yy < y && 0 <= xx < ow
                    ==> data@[yy * ow + xx] == a.px(a.width - 1 - yy, xx),
        decreases oh - y,
    {
        let mut x: u32 = 0;
        while x < ow
            invariant
                a.wf(),
                ow == a.height,
                oh == a.width,
                y < oh,
                x <= ow,
                data@.len() == y * ow + x,
                forall|yy: int, xx: int|
                    #![trigger data@[yy * ow + xx]]
                    (0 <= yy < y && 0 <= xx < ow) || (yy == y && 0 <= xx < x)
                        ==> data@[yy * ow + xx] == a.px(a.width - 1 - yy, xx),
            decreases ow - x,
        {
            let v = a.at(oh - 1 - y, x);
            proof {
                lemma_row_major_index(x as int, y as int, ow as int, oh as int);
            }
            data.push(v);
            proof {
                assert forall|yy: int, xx: int|
                    #![trigger data@[yy * ow + xx]]
                    (0 <= yy < y && 0 <= xx < ow) || (yy == y && 0 <= xx < x + 1)
                        implies #[trigger] data@[yy * ow + xx] == a.px(a.width - 1 - yy, xx) by {
                    if yy == y && xx == x {
                    } else {
                        lemma_row_major_order(xx, yy, x as int, y as int, ow as int);
                    }
                }
            }
            x = x + 1;
        }
        proof {
            assert(((y as int) + 1) * (ow as int) == (y as int) * (ow as int) + (ow as int))
                by (nonlinear_arith);
        }
        y = y + 1;
    }
    let b = ImageBuf { width: ow, height: oh, data };
    proof {
        assert(b.data@.len() == ow * oh) by (nonlinear_arith)
            requires
                b.data@.len() == oh * ow,
        ;
    }
    b
}

/// Mirror left-to-right.
pub fn flip_horizontal(a: &ImageBuf) -> (b: ImageBuf)
    requires
        a.wf(),
    ensures
        b.wf(),
        is_flip_h(*a, b),
{
    let ow: u32 = a.width;
    let oh: u32 = a.height;
    let mut data: Vec<Rgba> = Vec::new();
    let mut y: u32 = 0;
    while y < oh
        invariant
            a.wf(),
            ow == a.width,
            oh == a.height,
            y <= oh,
            data@.len() == y * ow,
            forall|yy: int, xx: int|
                #![trigger data@[yy * ow + xx]]
                0 <= yy < y && 0 <= xx < ow ==> data@[yy * ow + xx] == a.px(ow - 1 - xx, yy),
        decreases oh - y,
    {
        let mut x: u32 = 0;
        while x < ow
            invariant
                a.wf(),
                ow == a.width,
                oh == a.height,
                y < oh,
                x <= ow,
                data@.len() == y * ow + x,
                forall|yy: int, xx: int|
                    #![trigger data@[yy * ow + xx]]
                    (0 <= yy < y && 0 <= xx < ow) || (yy == y && 0 <= xx < x)
                        ==> data@[yy * ow + xx] == a.px(ow - 1 - xx, yy),
            decreases ow - x,
        {
            let v = a.at(ow - 1 - x, y);
            proof {
                lemma_row_major_index(x as int, y as int, ow as int, oh as int);
            }
            data.push(v);
            proof {
                assert forall|yy: int, xx: int|
                    #![trigger data@[yy * ow + xx]]
                    (0 <= yy < y && 0 <= xx < ow) || (yy == y && 0 <= xx < x + 1)
                        implies #[trigger] data@[yy * ow + xx] == a.px(ow - 1 - xx, yy) by {
                    if yy == y && xx == x {
                    } else {
                        lemma_row_major_order(xx, yy, x as int, y as int, ow as int);
                    }
                }
            }
            x = x + 1;
        }
        proof {
            assert(((y as int) + 1) * (ow as int) == (y as int) * (ow as int) + (ow as int))
                by (nonlinear_arith);
        }
        y = y + 1;
    }
    let b = ImageBuf { width: ow, height: oh, data };
    proof {
        assert(b.data@.len() == ow * oh) by (nonlinear_arith)
            requires
                b.data@.len() == oh * ow,
        ;
    }
    b
}

/// Mirror top-to-bottom.
pub fn flip_vertical(a: &ImageBuf) -> (b: ImageBuf)
    requires
        a.wf(),
    ensures
        b.wf(),
        is_flip_v(*a, b),
{
    let ow: u32 = a.width;
    let oh: u32 = a.height;
    let mut data: Vec<Rgba> = Vec::new();
    let mut y: u32 = 0;
    while y < oh
        invariant
            a.wf(),
            ow == a.width,
            oh == a.height,
            y <= oh,
            data@.len() == y * ow,
            forall|yy: int, xx: int|
                #![trigger data@[yy * ow + xx]]
                0 <= yy < y && 0 <= xx < ow ==> data@[yy * ow + xx] == a.px(xx, oh - 1 - yy),
        decreases oh - y,
    {
        let mut x: u32 = 0;
        while x < ow
            invariant
                a.wf(),
                ow == a.width,
                oh == a.height,
                y < oh,
                x <= ow,
                data@.len() == y * ow + x,
                forall|yy: int, xx: int|
                    #![trigger data@[yy * ow + xx]]
                    (0 <= yy < y && 0 <= xx < ow) || (yy == y && 0 <= xx < x)
                        ==> data@[yy * ow + xx] == a.px(xx, oh - 1 - yy),
            decreases ow - x,
        {
            let v = a.at(x, oh - 1 - y);
            proof {
                lemma_row_major_index(x as int, y as int, ow as int, oh as int);
            }
            data.push(v);
            proof {
                assert forall|yy: int, xx: int|
                    #![trigger data@[yy * ow + xx]]
                    (0 <= yy < y && 0 <= xx < ow) || (yy == y && 0 <= xx < x + 1)
                        implies #[trigger] data@[yy * ow + xx] == a.px(xx, oh - 1 - yy) by {
                    if yy == y && xx == x {
                    } else {
                        lemma_row_major_order(xx, yy, x as int, y as int, ow as int);
                    }
                }
            }
            x = x + 1;
        }
        proof {
            assert(((y as int) + 1) * (ow as int) == (y as int) * (ow as int) + (ow as int))
                by (nonlinear_arith);
        }
        y = y + 1;
    }
    let b = ImageBuf { width: ow, height: oh, data };
    proof {
        assert(b.data@.len() == ow * oh) by (nonlinear_arith)
            requires
                b.data@.len() == oh * ow,
        ;
    }
    b
}

/// Extract the `w` by `h` sub-region at `(x0, y0)` without touching the
/// source.
pub fn crop_rect(a: &ImageBuf, x0: u32, y0: u32, w: u32, h: u32) -> (b: ImageBuf)
    requires
        a.wf(),
        x0 + w <= a.width,
        y0 + h <= a.height,
    ensures
        b.wf(),
        is_crop_of(*a, b, x0 as int, y0 as int, w as int, h as int),
{
    let mut data: Vec<Rgba> = Vec::new();
    let mut y: u32 = 0;
    while y < h
        invariant
            a.wf(),
            x0 + w <= a.width,
            y0 + h <= a.height,
            y <= h,
            data@.len() == y * w,
            forall|yy: int, xx: int|
                #![trigger data@[yy * w + xx]]
                0 <= yy < y && 0 <= xx < w ==> data@[yy * w + xx] == a.px(x0 + xx, y0 + yy),
        decreases h - y,
    {
        let mut x: u32 = 0;
        while x < w
            invariant
                a.wf(),
                x0 + w <= a.width,
                y0 + h <= a.height,
                y < h,
                x <= w,
                data@.len() == y * w + x,
                forall|yy: int, xx: int|
                    #![trigger data@[yy * w + xx]]
                    (0 <= yy < y && 0 <= xx < w) || (yy == y && 0 <= xx < x)
                        ==> data@[yy * w + xx] == a.px(x0 + xx, y0 + yy),
            decreases w - x,
        {
            let v = a.at(x0 + x, y0 + y);
            proof {
                lemma_row_major_index(x as int, y as int, w as int, h as int);
            }
            data.push(v);
            proof {
                assert forall|yy: int, xx: int|
                    #![trigger data@[yy * w + xx]]
                    (0 <= yy < y && 0 <= xx < w) || (yy == y && 0 <= xx < x + 1)
                        implies #[trigger] data@[yy * w + xx] == a.px(x0 + xx, y0 + yy) by {
                    if yy == y && xx == x {
                    } else {
                        lemma_row_major_order(xx, yy, x as int, y as int, w as int);
                    }
                }
            }
            x = x + 1;
        }
        proof {
            assert(((y as int) + 1) * (w as int) == (y as int) * (w as int) + (w as int))
                by (nonlinear_arith);
        }
        y = y + 1;
    }
    let b = ImageBuf { width: w, height: h, data };
    proof {
        assert(b.data@.len() == w * h) by (nonlinear_arith)
            requires
                b.data@.len() == h * w,
        ;
    }
    b
}

/// What one premultiplied-alpha pixel becomes in straight-alpha form:
/// each color channel is scaled by `255 / alpha`, truncating, and a
/// fully transparent pixel maps to transparent black.  The channel
/// arithmetic truncates to a byte exactly as the executable code does.
pub open spec fn spec_unpremultiply_px(p: Rgba) -> Rgba {
    if p.a == 0 {
        Rgba::spec_transparent()
    } else {
        Rgba {
            r: (((p.r * 255) / (p.a as int)) % 256) as u8,
            g: (((p.g * 255) / (p.a as int)) % 256) as u8,
            b: (((p.b * 255) / (p.a as int)) % 256) as u8,
            a: p.a,
        }
    }
}

/// Convert a premultiplied-alpha image (as a rasterizer emits it) to
/// the straight-alpha form the shared pixel model uses.
pub fn unpremultiply(a: &ImageBuf) -> (b: ImageBuf)
    requires
        a.wf(),
    ensures
        b.wf(),
        b.width == a.width,
        b.height == a.height,
        forall|i: int|
            0 <= i < a.data@.len()
                ==> b.data@[i] == spec_unpremultiply_px(a.data@[i]),
{
    let n: usize = a.data.len();
    let mut data: Vec<Rgba> = Vec::new();
    let mut i: usize = 0;
    while i < n
        invariant
            a.wf(),
            n == a.data@.len(),
            i <= n,
            data@.len() == i,
            forall|j: int| 0 <= j < i ==> data@[j] == spec_unpremultiply_px(a.data@[j]),
        decreases n - i,
    {
        let p = a.data[i];
        let q = if p.a == 0 {
            Rgba::transparent()
        } else {
            let al: u16 = p.a as u16;
            Rgba {
                r: (((p.r as u16 * 255) / al) % 256) as u8,
                g: (((p.g as u16 * 255) / al) % 256) as u8,
                b: (((p.b as u16 * 255) / al) % 256) as u8,
                a: p.a,
            }
        };
        data.push(q);
        i = i + 1;
    }
    ImageBuf { width: a.width, height: a.height, data }
}

/// Four clockwise quarter turns restore the image exactly.
pub proof fn lemma_rotate90_four_restores(a: ImageBuf, b: ImageBuf, c: ImageBuf, d: ImageBuf, e: ImageBuf)
    requires
        a.wf(),
        b.wf(),
        c.wf(),
        d.wf(),
        e.wf(),
        is_rotate90(a, b),
        is_rotate90(b, c),
        is_rotate90(c, d),
        is_rotate90(d, e),
    ensures
        e.width == a.width,
        e.height == a.height,
        e.data@ == a.data@,
{
    let w = a.width as int;
    let h = a.height as int;
    assert forall|x: int, y: int| e.in_bounds(x, y) implies e.px(x, y) == a.px(x, y) by {
        assert(e.px(x, y) == d.px(y, w - 1 - x));
        assert(d.px(y, w - 1 - x) == c.px(w - 1 - x, h - 1 - y));
        assert(c.px(w - 1 - x, h - 1 - y) == b.px(h - 1 - y, w - 1 - (w - 1 - x)));
        assert(b.px(h - 1 - y, x) == a.px(x, h - 1 - (h - 1 - y)));
    }
    lemma_pixels_determine_data(e, a);
}

/// Two consecutive left-to-right mirrors restore the image exactly.
pub proof fn lemma_flip_h_twice_restores(a: ImageBuf, b: ImageBuf, c: ImageBuf)
    requires
        a.wf(),
        b.wf(),
        c.wf(),
        is_flip_h(a, b),
        is_flip_h(b, c),
    ensures
        c.width == a.width,
        c.height == a.height,
        c.data@ == a.data@,
{
    let w = a.width as int;
    assert forall|x: int, y: int| c.in_bounds(x, y) implies c.px(x, y) == a.px(x, y) by {
        assert(c.px(x, y) == b.px(w - 1 - x, y));
        assert(b.px(w - 1 - x, y) == a.px(w - 1 - (w - 1 - x), y));
    }
    lemma_pixels_determine_data(c, a);
}

/// Two consecutive top-to-bottom mirrors restore the image exactly.
pub proof fn lemma_flip_v_twice_restores(a: ImageBuf, b: ImageBuf, c: ImageBuf)
    requires
        a.wf(),
        b.wf(),
        c.wf(),
        is_flip_v(a, b),
        is_flip_v(b, c),
    ensures
        c.width == a.width,
        c.height == a.height,
        c.data@ == a.data@,
{
    let h = a.height as int;
    assert forall|x: int, y: int| c.in_bounds(x, y) implies c.px(x, y) == a.px(x, y) by {
        assert(c.px(x, y) == b.px(x, h - 1 - y));
        assert(b.px(x, h - 1 - y) == a.px(x, h - 1 - (h - 1 - y)));
    }
    lemma_pixels_determine_data(c, a);
}

} // verus!
