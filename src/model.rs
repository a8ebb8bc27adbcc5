use vstd::prelude::*;
use vstd::string::StringSliceAdditionalSpecFns;
use vstd::utf8::{decode_utf8, encode_utf8, valid_utf8};

use crate::file_type::FileType;
use crate::lines::{sampled_lines, uniform_commas};
use crate::text::{lower_of, path_extension, trim_leading_white_space};
use crate::window::{holds_window, starts_with};

verus! {

/// How many leading bytes the comma test samples.
pub const SAMPLE_BYTES: usize = 1000;

/// The largest message length that an Arrow stream header may announce, exclusive.
pub const ARROW_MESSAGE_LIMIT: u32 = 0x100000;

/// The byte of `{`.
pub const OPEN_BRACE: u8 = 0x7B;

/// The byte of `"`.
pub const QUOTE: u8 = 0x22;

/// A zip local file header.
pub open spec fn zip_magic() -> Seq<u8> {
    seq![0x50u8, 0x4B, 0x03, 0x04]
}

/// An OLE compound file, the legacy Excel container.
pub open spec fn ole_magic() -> Seq<u8> {
    seq![0xD0u8, 0xCF, 0x11, 0xE0, 0xA1, 0xB1, 0x1A, 0xE1]
}

/// `PAR1`, the head of a Parquet file.
pub open spec fn parquet_magic() -> Seq<u8> {
    seq![0x50u8, 0x41, 0x52, 0x31]
}

/// The head of an SQLite database, which a GeoPackage is.
pub open spec fn sqlite_magic() -> Seq<u8> {
    "SQLite format 3\0".spec_bytes()
}

/// The head of an Arrow IPC file.
pub open spec fn arrow_file_magic() -> Seq<u8> {
    "ARROW1".spec_bytes()
}

/// A fragment of a spreadsheet package's member names occurs in `b`.
pub open spec fn has_excel_marker(b: Seq<u8>) -> bool {
    ||| holds_window(b, "xl/worksheets".spec_bytes())
    ||| holds_window(b, "xl/_rels".spec_bytes())
    ||| holds_window(b, "docProps/".spec_bytes())
    ||| holds_window(b, "[Content_Types]".spec_bytes())
    ||| holds_window(b, "xl/workbook".spec_bytes())
    ||| holds_window(b, "xl/styles".spec_bytes())
    ||| holds_window(b, "xl/theme".spec_bytes())
    ||| holds_window(b, "xl/strings".spec_bytes())
    ||| holds_window(b, "xl/charts".spec_bytes())
    ||| holds_window(b, "xl/drawings".spec_bytes())
    ||| holds_window(b, "xl/sharedStrings".spec_bytes())
    ||| holds_window(b, "xl/metadata".spec_bytes())
    ||| holds_window(b, "xl/calc".spec_bytes())
}

/// A shapefile member's extension occurs in `b`.
pub open spec fn has_shapefile_marker(b: Seq<u8>) -> bool {
    ||| holds_window(b, ".shp".spec_bytes())
    ||| holds_window(b, ".dbf".spec_bytes())
    ||| holds_window(b, ".prj".spec_bytes())
    ||| holds_window(b, ".shx".spec_bytes())
}

/// What the bytes after a zip header show: one kind of marker without the other.
pub open spec fn zip_kind(rest: Seq<u8>) -> Option<FileType> {
    let excel = has_excel_marker(rest);
    let shapefile = has_shapefile_marker(rest);
    if excel && !shapefile {
        Some(FileType::Excel)
    } else if shapefile && !excel {
        Some(FileType::Shapefile)
    } else {
        None
    }
}

/// The little-endian 32-bit number in `b[at..at + 4]`.
pub open spec fn le_u32(b: Seq<u8>, at: int) -> int {
    b[at] + 0x100 * b[at + 1] + 0x10000 * b[at + 2] + 0x1000000 * b[at + 3]
}

/// Four zero bytes and then the continuation marker `FF FF FF FF`.
pub open spec fn arrow_continuation(b: Seq<u8>) -> bool {
    &&& b.len() >= 8
    &&& b[0] == 0 && b[1] == 0 && b[2] == 0 && b[3] == 0
    &&& b[4] == 0xFF && b[5] == 0xFF && b[6] == 0xFF && b[7] == 0xFF
}

/// A plausible pair of message and metadata lengths, followed by something that
/// does not open JSON or a string.
pub open spec fn arrow_plausible_lengths(b: Seq<u8>) -> bool {
    &&& b.len() > 8
    &&& 8 < le_u32(b, 0) < ARROW_MESSAGE_LIMIT
    &&& 0 < le_u32(b, 4) < le_u32(b, 0)
    &&& le_u32(b, 0) <= b.len()
    &&& b[8] != OPEN_BRACE
    &&& b[8] != QUOTE
}

/// The first bytes of `b` look like the header of an Arrow IPC stream.
pub open spec fn arrow_stream_header(b: Seq<u8>) -> bool {
    arrow_continuation(b) || arrow_plausible_lengths(b)
}

/// The format that the signatures at the head of `b` give, the first that matches.
pub open spec fn magic_kind(b: Seq<u8>) -> Option<FileType> {
    if starts_with(b, zip_magic()) {
        zip_kind(b.subrange(4, b.len() as int))
    } else if starts_with(b, ole_magic()) {
        Some(FileType::Excel)
    } else if starts_with(b, parquet_magic()) {
        Some(FileType::Parquet)
    } else if starts_with(b, sqlite_magic()) {
        Some(FileType::Geopackage)
    } else if starts_with(b, arrow_file_magic()) {
        Some(FileType::Arrow)
    } else if arrow_stream_header(b) {
        Some(FileType::Arrow)
    } else {
        None
    }
}

/// Lower-cased text, as bytes, that opens an object and names a GeoJSON type.
pub open spec fn geojson_shape(t: Seq<u8>) -> bool {
    &&& t.len() > 0
    &&& t[0] == OPEN_BRACE
    &&& holds_window(t, "\"type\"".spec_bytes())
    &&& {
        ||| holds_window(t, "\"featurecollection\"".spec_bytes())
        ||| holds_window(t, "\"feature\"".spec_bytes())
        ||| holds_window(t, "\"geometry\"".spec_bytes())
    }
}

/// `b` is UTF-8 text that, without leading white space and lower-cased, has the
/// shape of GeoJSON.
pub open spec fn geojson_sniff(b: Seq<u8>) -> bool {
    valid_utf8(b) && geojson_shape(
        encode_utf8(lower_of(trim_leading_white_space(decode_utf8(b)))),
    )
}

/// The leading bytes that the comma test looks at.
pub open spec fn csv_sample(b: Seq<u8>) -> Seq<u8> {
    if b.len() > SAMPLE_BYTES {
        b.take(SAMPLE_BYTES as int)
    } else {
        b
    }
}

/// `b` is non-empty UTF-8 text whose sampled lines hold one and the same positive
/// number of commas each.
pub open spec fn csv_sniff(b: Seq<u8>) -> bool {
    b.len() > 0 && valid_utf8(b) && uniform_commas(sampled_lines(csv_sample(b)))
}

/// The format of `b` judged by its content alone.
pub open spec fn classify(b: Seq<u8>) -> FileType {
    match magic_kind(b) {
        Some(t) => t,
        None => if geojson_sniff(b) {
            FileType::Geojson
        } else if csv_sniff(b) {
            FileType::Csv
        } else {
            FileType::Unknown
        },
    }
}

/// What a lower-cased extension `ext` makes of content that was not recognised.
pub open spec fn extension_verdict(ext: Seq<char>, b: Seq<u8>) -> FileType {
    if ext == "csv"@ {
        FileType::Csv
    } else if (ext == "json"@ || ext == "geojson"@) && geojson_sniff(b) {
        FileType::Geojson
    } else {
        FileType::Unknown
    }
}

/// The format of `b` judged by its content, and else by the extension of `path`.
pub open spec fn classify_with_path(path: Seq<char>, b: Seq<u8>) -> FileType {
    if classify(b) != FileType::Unknown {
        classify(b)
    } else {
        match path_extension(path) {
            Some(ext) => extension_verdict(lower_of(ext), b),
            None => FileType::Unknown,
        }
    }
}

} // verus!
