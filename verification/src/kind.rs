//! Document kind detection from a path's file extension.
//!
//! The final component's extension is matched, ASCII-case-insensitively,
//! against the fixed vector and portable extension sets first and then
//! against the raster format registry of the image codec.  An
//! unrecognized extension yields no kind rather than a default guess.

use vstd::prelude::*;

verus! {

/// High-level classification of documents.
#[derive(Debug, Clone, Copy, PartialEq, Eq, Structural)]
pub enum DocumentKind {
    Raster,
    Vector,
    Portable,
}

/// Whether `c` and `l` are the same character up to ASCII case.
pub open spec fn spec_chars_eq_ci(c: char, l: char) -> bool {
    ||| c == l
    ||| (65 <= c as u32 <= 90 && c as u32 + 32 == l as u32)
    ||| (65 <= l as u32 <= 90 && l as u32 + 32 == c as u32)
}

/// Whether two character sequences agree up to ASCII case.
pub open spec fn spec_eq_ignore_ascii_case(a: Seq<char>, b: Seq<char>) -> bool {
    &&& a.len() == b.len()
    &&& forall|i: int| 0 <= i < a.len() ==> spec_chars_eq_ci(a[i], b[i])
}

/// `d` is the position of the dot that starts `s`'s file extension:
/// the last dot of the path, with no separator after it and not leading
/// its component (a leading dot names a hidden file, not an extension).
pub open spec fn spec_ext_dot_at(s: Seq<char>, d: int) -> bool {
    &&& 0 < d < s.len()
    &&& s[d] == '.'
    &&& s[d - 1] != '/'
    &&& forall|j: int| d < j < s.len() ==> s[j] != '.' && s[j] != '/'
}

/// The extension that `s` carries when its dot sits at `d`.
pub open spec fn spec_ext_of(s: Seq<char>, d: int) -> Seq<char> {
    s.subrange(d + 1, s.len() as int)
}

/// The fixed extension set of the vector backend.
pub open spec fn spec_is_vector_extension(e: Seq<char>) -> bool {
    ||| spec_eq_ignore_ascii_case(e, "svg"@)
    ||| spec_eq_ignore_ascii_case(e, "svgz"@)
}

/// The fixed extension set of the portable backend.
pub open spec fn spec_is_portable_extension(e: Seq<char>) -> bool {
    spec_eq_ignore_ascii_case(e, "pdf"@)
}

/// The extensions the image codec's format registry recognizes, as its
/// source lists them.
pub open spec fn spec_is_raster_extension(e: Seq<char>) -> bool {
    ||| spec_eq_ignore_ascii_case(e, "avif"@)
    ||| spec_eq_ignore_ascii_case(e, "jpg"@)
    ||| spec_eq_ignore_ascii_case(e, "jpeg"@)
    ||| spec_eq_ignore_ascii_case(e, "jfif"@)
    ||| spec_eq_ignore_ascii_case(e, "png"@)
    ||| spec_eq_ignore_ascii_case(e, "apng"@)
    ||| spec_eq_ignore_ascii_case(e, "gif"@)
    ||| spec_eq_ignore_ascii_case(e, "webp"@)
    ||| spec_eq_ignore_ascii_case(e, "tif"@)
    ||| spec_eq_ignore_ascii_case(e, "tiff"@)
    ||| spec_eq_ignore_ascii_case(e, "tga"@)
    ||| spec_eq_ignore_ascii_case(e, "dds"@)
    ||| spec_eq_ignore_ascii_case(e, "bmp"@)
    ||| spec_eq_ignore_ascii_case(e, "ico"@)
    ||| spec_eq_ignore_ascii_case(e, "hdr"@)
    ||| spec_eq_ignore_ascii_case(e, "exr"@)
    ||| spec_eq_ignore_ascii_case(e, "pbm"@)
    ||| spec_eq_ignore_ascii_case(e, "pam"@)
    ||| spec_eq_ignore_ascii_case(e, "ppm"@)
    ||| spec_eq_ignore_ascii_case(e, "pgm"@)
    ||| spec_eq_ignore_ascii_case(e, "pnm"@)
    ||| spec_eq_ignore_ascii_case(e, "ff"@)
    ||| spec_eq_ignore_ascii_case(e, "qoi"@)
}

/// The kind, if any, that a path's extension selects.
pub open spec fn spec_kind_of_ext(e: Seq<char>) -> Option<DocumentKind> {
    if spec_is_vector_extension(e) {
        Some(DocumentKind::Vector)
    } else if spec_is_portable_extension(e) {
        Some(DocumentKind::Portable)
    } else if spec_is_raster_extension(e) {
        Some(DocumentKind::Raster)
    } else {
        None
    }
}

/// Compare two characters up to ASCII case.
fn chars_eq_ci(c: char, l: char) -> (b: bool)
    ensures
        b == spec_chars_eq_ci(c, l),
{
    let cu = c as u32;
    let lu = l as u32;
    proof {
        vstd::utf8::char_u32_cast(c, cu);
        vstd::utf8::char_u32_cast(l, lu);
    }
    cu == lu || (65 <= cu && cu <= 90 && cu + 32 == lu) || (65 <= lu && lu <= 90 && lu + 32 == cu)
}

/// Compare the tail of `path` starting at `start` against `lit`, up to
/// ASCII case.
fn tail_matches(path: &str, start: usize, lit: &str) -> (b: bool)
    requires
        start <= path@.len(),
    ensures
        b == spec_eq_ignore_ascii_case(
            path@.subrange(start as int, path@.len() as int),
            lit@,
        ),
{
    let ghost tail = path@.subrange(start as int, path@.len() as int);
    let n: usize = path.unicode_len();
    let m: usize = lit.unicode_len();
    if n - start != m {
        return false;
    }
    let mut k: usize = 0;
    while k < m
        invariant
            start + m == n,
            n == path@.len(),
            m == lit@.len(),
            k <= m,
            tail == path@.subrange(start as int, path@.len() as int),
            forall|j: int| 0 <= j < k ==> spec_chars_eq_ci(tail[j], lit@[j]),
        decreases m - k,
    {
        let c = path.get_char(start + k);
        let l = lit.get_char(k);
        if !chars_eq_ci(c, l) {
            assert(tail[k as int] == path@[start + k]);
            return false;
        }
        assert(tail[k as int] == path@[start + k]);
        k = k + 1;
    }
    true
}

/// Relies on `image::ImageFormat::from_extension`: it lowercases the
/// ASCII of its argument and looks it up in the fixed extension table
/// of the registry, exactly the set `spec_is_raster_extension` lists.
#[verifier::external_body]
fn raster_format_known(ext: &str) -> (b: bool)
    ensures
        b == spec_is_raster_extension(ext@),
{
    image::ImageFormat::from_extension(ext).is_some()
}

/// Find the last dot of `path`, provided no separator follows it.
fn find_last_dot(path: &str) -> (r: Option<usize>)
    ensures
        match r {
            Some(d) => {
                &&& d < path@.len()
                &&& path@[d as int] == '.'
                &&& forall|j: int| d < j < path@.len() ==> path@[j] != '.' && path@[j] != '/'
            },
            None => forall|d: int| !spec_ext_dot_at(path@, d),
        },
{
    let n: usize = path.unicode_len();
    let mut i: usize = n;
    while i > 0
        invariant
            i <= n,
            n == path@.len(),
            forall|j: int| i <= j < n ==> path@[j] != '.' && path@[j] != '/',
        decreases i,
    {
        let c = path.get_char(i - 1);
        if c == '/' {
            proof {
                assert forall|d: int| !spec_ext_dot_at(path@, d) by {
                    if 0 < d < path@.len() && path@[d] == '.' {
                        assert(d < i - 1);
                        assert(path@[i - 1] == '/');
                    }
                }
            }
            return None;
        }
        if c == '.' {
            return Some(i - 1);
        }
        i = i - 1;
    }
    None
}

impl DocumentKind {
    /// Derive the document kind from a file path.
    ///
    /// Returns `None` when the path has no extension or the extension
    /// belongs to no supported backend; no backend is constructed in
    /// that case.
    pub fn from_path(path: &str) -> (r: Option<DocumentKind>)
        ensures
            forall|d: int|
                spec_ext_dot_at(path@, d) ==> r == spec_kind_of_ext(spec_ext_of(path@, d)),
            (forall|d: int| !spec_ext_dot_at(path@, d)) ==> r is None,
    {
        let n: usize = path.unicode_len();
        let d: usize = match find_last_dot(path) {
            Some(d) => d,
            None => {
                return None;
            },
        };
        if d == 0 {
            // the whole final component is a leading dot
            proof {
                assert forall|dd: int| !spec_ext_dot_at(path@, dd) by {
                    if 0 < dd < path@.len() && path@[dd] == '.' {
                        assert(path@[dd] != '.');
                    }
                }
            }
            return None;
        }
        let prev = path.get_char(d - 1);
        if prev == '/' {
            proof {
                assert forall|dd: int| !spec_ext_dot_at(path@, dd) by {
                    if spec_ext_dot_at(path@, dd) {
                        if dd < d {
                            assert(path@[d as int] == '.');
                        } else if dd > d {
                            assert(path@[dd] != '.');
                        } else {
                            assert(path@[d - 1] == '/');
                        }
                    }
                }
            }
            return None;
        }
        proof {
            assert(spec_ext_dot_at(path@, d as int));
            assert forall|dd: int| spec_ext_dot_at(path@, dd) implies dd == d as int by {
                if dd < d {
                    assert(path@[d as int] == '.');
                } else if dd > d {
                    assert(path@[dd] != '.');
                }
            }
        }
        let start: usize = d + 1;
        let ghost ext = spec_ext_of(path@, d as int);
        proof {
            assert(ext =~= path@.subrange(start as int, path@.len() as int));
        }
        if tail_matches(path, start, "svg") || tail_matches(path, start, "svgz") {
            return Some(DocumentKind::Vector);
        }
        if tail_matches(path, start, "pdf") {
            return Some(DocumentKind::Portable);
        }
        let ext_str = path.substring_char(start, n);
        if raster_format_known(ext_str) {
            return Some(DocumentKind::Raster);
        }
        None
    }

    /// A short human-readable label for the kind.
    pub fn label(&self) -> (s: &'static str)
        ensures
            self is Raster ==> s@ == "Raster"@,
            self is Vector ==> s@ == "Vector"@,
            self is Portable ==> s@ == "Portable"@,
    {
        match self {
            DocumentKind::Raster => "Raster",
            DocumentKind::Vector => "Vector",
            DocumentKind::Portable => "Portable",
        }
    }
}

} // verus!
