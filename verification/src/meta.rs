//! Metadata snapshots, built on demand and never cached.

use vstd::prelude::*;

verus! {

/// The decimal digit character for `d` in `0..10`.
pub open spec fn spec_digit_char(d: int) -> char {
    if d == 0 {
        '0'
    } else if d == 1 {
        '1'
    } else if d == 2 {
        '2'
    } else if d == 3 {
        '3'
    } else if d == 4 {
        '4'
    } else if d == 5 {
        '5'
    } else if d == 6 {
        '6'
    } else if d == 7 {
        '7'
    } else if d == 8 {
        '8'
    } else {
        '9'
    }
}

/// The decimal digits of `n`, most significant first.
pub open spec fn spec_decimal(n: int) -> Seq<char>
    decreases n,
{
    if n < 10 {
        seq![spec_digit_char(n)]
    } else {
        spec_decimal(n / 10) + seq![spec_digit_char(n % 10)]
    }
}

/// The one-character string for a decimal digit.
fn digit_str(d: u32) -> (s: &'static str)
    requires
        d < 10,
    ensures
        s@ == seq![spec_digit_char(d as int)],
{
    proof {
        reveal_strlit("0");
        reveal_strlit("1");
        reveal_strlit("2");
        reveal_strlit("3");
        reveal_strlit("4");
        reveal_strlit("5");
        reveal_strlit("6");
        reveal_strlit("7");
        reveal_strlit("8");
        reveal_strlit("9");
    }
    let s = if d == 0 {
        "0"
    } else if d == 1 {
        "1"
    } else if d == 2 {
        "2"
    } else if d == 3 {
        "3"
    } else if d == 4 {
        "4"
    } else if d == 5 {
        "5"
    } else if d == 6 {
        "6"
    } else if d == 7 {
        "7"
    } else if d == 8 {
        "8"
    } else {
        "9"
    };
    proof {
        assert(s@ =~= seq![spec_digit_char(d as int)]);
    }
    s
}

/// Format `n` in decimal.
pub fn u32_to_string(n: u32) -> (s: String)
    ensures
        s@ == spec_decimal(n as int),
    decreases n,
{
    if n < 10 {
        String::from_str(digit_str(n))
    } else {
        let mut s = u32_to_string(n / 10);
        s.append(digit_str(n % 10));
        proof {
            assert(s@ =~= spec_decimal(n as int));
        }
        s
    }
}

/// Basic information a backend reports about itself.
#[derive(Debug)]
pub struct DocumentInfo {
    pub width: u32,
    pub height: u32,
    pub format: String,
}

/// The read-only metadata snapshot a properties panel consumes.
#[derive(Debug)]
pub struct DocumentMeta {
    /// File name of the source document.
    pub file_name: String,
    /// Display path of the source document.
    pub file_path: String,
    /// Format label; for paginated documents it includes the page count.
    pub format: String,
    /// Current width after transformations.
    pub width: u32,
    /// Current height after transformations.
    pub height: u32,
    /// Source file size in bytes.
    pub file_size: u64,
    /// Label for the pixel representation.
    pub color_type: String,
}

/// The format label of a paginated document: its kind and page count.
pub open spec fn spec_portable_format_label(pages: int) -> Seq<char> {
    "PDF ("@ + spec_decimal(pages) + " pages)"@
}

/// Build the metadata snapshot of a raster document.
pub fn build_raster_meta(
    file_name: String,
    file_path: String,
    file_size: u64,
    width: u32,
    height: u32,
) -> (m: DocumentMeta)
    ensures
        m.file_name == file_name,
        m.file_path == file_path,
        m.file_size == file_size,
        m.width == width,
        m.height == height,
        m.format@ == "Raster"@,
        m.color_type@ == "RGBA"@,
{
    DocumentMeta {
        file_name,
        file_path,
        format: String::from_str("Raster"),
        width,
        height,
        file_size,
        color_type: String::from_str("RGBA"),
    }
}

/// Build the metadata snapshot of a vector document; it reports the
/// native (intrinsic) dimensions.
pub fn build_vector_meta(
    file_name: String,
    file_path: String,
    file_size: u64,
    native_width: u32,
    native_height: u32,
) -> (m: DocumentMeta)
    ensures
        m.file_name == file_name,
        m.file_path == file_path,
        m.file_size == file_size,
        m.width == native_width,
        m.height == native_height,
        m.format@ == "SVG"@,
        m.color_type@ == "Rendered"@,
{
    DocumentMeta {
        file_name,
        file_path,
        format: String::from_str("SVG"),
        width: native_width,
        height: native_height,
        file_size,
        color_type: String::from_str("Rendered"),
    }
}

/// Build the metadata snapshot of a paginated document; the format
/// label carries the page count.
pub fn build_portable_meta(
    file_name: String,
    file_path: String,
    file_size: u64,
    width: u32,
    height: u32,
    pages: u32,
) -> (m: DocumentMeta)
    ensures
        m.file_name == file_name,
        m.file_path == file_path,
        m.file_size == file_size,
        m.width == width,
        m.height == height,
        m.format@ == spec_portable_format_label(pages as int),
        m.color_type@ == "Rendered"@,
{
    let mut format = String::from_str("PDF (");
    let count = u32_to_string(pages);
    format.append(count.as_str());
    format.append(" pages)");
    proof {
        assert(format@ =~= spec_portable_format_label(pages as int));
    }
    DocumentMeta {
        file_name,
        file_path,
        format,
        width,
        height,
        file_size,
        color_type: String::from_str("Rendered"),
    }
}

} // verus!
