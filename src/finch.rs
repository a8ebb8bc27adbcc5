use vstd::prelude::*;
use vstd::slice::slice_subrange;
use vstd::string::StringSliceAdditionalSpecFns;
use vstd::utf8::encode_utf8_decode_utf8;

use crate::file_type::FileType;
use crate::lines::lines_have_uniform_commas;
use crate::model::{
    arrow_stream_header, classify, classify_with_path, csv_sample, csv_sniff, extension_verdict,
    geojson_shape, geojson_sniff, le_u32, magic_kind, ole_magic, parquet_magic, zip_kind,
    zip_magic, ARROW_MESSAGE_LIMIT, OPEN_BRACE, QUOTE, SAMPLE_BYTES,
};
use crate::text::{file_extension, lowercase, trim_start, utf8_text};
use crate::window::{contains_bytes, starts_with_bytes};

verus! {

/// The little-endian 32-bit number in `b[at..at + 4]`.
pub fn read_u32_le(b: &[u8], at: usize) -> (r: u32)
    requires
        at + 4 <= b@.len(),
    ensures
        r == le_u32(b@, at as int),
{
    let b0 = b[at] as u32;
    let b1 = b[at + 1] as u32;
    let b2 = b[at + 2] as u32;
    let b3 = b[at + 3] as u32;
    b0 + 0x100 * b1 + 0x10000 * b2 + 0x1000000 * b3
}

/// Whether two texts hold the same characters.
pub fn same_text(a: &str, b: &str) -> (r: bool)
    ensures
        r == (a@ == b@),
{
    let x = a.as_bytes();
    let y = b.as_bytes();
    let r = x.len() == y.len() && starts_with_bytes(x, y);
    proof {
        encode_utf8_decode_utf8(a@);
        encode_utf8_decode_utf8(b@);
        if r {
            assert(x@ =~= y@);
        }
        if a@ == b@ {
            assert(x@.subrange(0, y@.len() as int) =~= y@);
        }
    }
    r
}

/// Classifies byte buffers by their content and, failing that, by a file name.
pub struct FileFinch;

impl FileFinch {
    /// The format of `bytes`, judged by content alone: first the signatures at its
    /// head, then the GeoJSON test, then the comma test.
    pub fn detect(bytes: &[u8]) -> (r: FileType)
        ensures
            r == classify(bytes@),
    {
        if let Some(file_type) = Self::detect_by_magic(bytes) {
            return file_type;
        }
        if let Ok(file_type) = Self::detect_geojson(bytes) {
            return file_type;
        }
        if Self::looks_like_csv(bytes) {
            return FileType::Csv;
        }
        FileType::Unknown
    }

    /// The format of `bytes` by content; where that is unknown, by the extension of
    /// `path`, without regard to case.
    pub fn detect_from_path(path: &str, bytes: &[u8]) -> (r: FileType)
        ensures
            r == classify_with_path(path@, bytes@),
    {
        let detected = Self::detect(bytes);
        if detected != FileType::Unknown {
            return detected;
        }
        match file_extension(path) {
            Some(extension) => {
                let lowered = lowercase(extension);
                Self::extension_fallback(lowered.as_str(), bytes)
            },
            None => FileType::Unknown,
        }
    }

    /// What a lower-cased extension decides for content that was not recognised:
    /// `csv` is trusted as it is, `json` and `geojson` only with GeoJSON content.
    pub fn extension_fallback(extension: &str, bytes: &[u8]) -> (r: FileType)
        ensures
            r == extension_verdict(extension@, bytes@),
    {
        if same_text(extension, "csv") {
            FileType::Csv
        } else if same_text(extension, "json") || same_text(extension, "geojson") {
            if Self::detect_geojson(bytes).is_ok() {
                FileType::Geojson
            } else {
                FileType::Unknown
            }
        } else {
            FileType::Unknown
        }
    }

    /// The format that the signatures at the head of `bytes` give, if any.
    pub fn detect_by_magic(bytes: &[u8]) -> (r: Option<FileType>)
        ensures
            r == magic_kind(bytes@),
    {
        let zip: [u8; 4] = [0x50, 0x4B, 0x03, 0x04];
        let ole: [u8; 8] = [0xD0, 0xCF, 0x11, 0xE0, 0xA1, 0xB1, 0x1A, 0xE1];
        let parquet: [u8; 4] = [0x50, 0x41, 0x52, 0x31];
        assert(zip@ == zip_magic());
        assert(ole@ == ole_magic());
        assert(parquet@ == parquet_magic());
        if starts_with_bytes(bytes, zip.as_slice()) {
            let rest = slice_subrange(bytes, 4, bytes.len());
            Self::detect_zip_content(rest)
        } else if starts_with_bytes(bytes, ole.as_slice()) {
            Some(FileType::Excel)
        } else if starts_with_bytes(bytes, parquet.as_slice()) {
            Some(FileType::Parquet)
        } else if starts_with_bytes(bytes, "SQLite format 3\0".as_bytes()) {
            Some(FileType::Geopackage)
        } else if starts_with_bytes(bytes, "ARROW1".as_bytes()) {
            Some(FileType::Arrow)
        } else if Self::is_arrow_ipc_stream(bytes) {
            Some(FileType::Arrow)
        } else {
            None
        }
    }

    /// What the bytes after a zip header show: a spreadsheet package, a shapefile
    /// bundle, or neither for certain.
    pub fn detect_zip_content(bytes: &[u8]) -> (r: Option<FileType>)
        ensures
            r == zip_kind(bytes@),
    {
        let is_excel = contains_bytes(bytes, "xl/worksheets".as_bytes())
            || contains_bytes(bytes, "xl/_rels".as_bytes())
            || contains_bytes(bytes, "docProps/".as_bytes())
            || contains_bytes(bytes, "[Content_Types]".as_bytes())
            || contains_bytes(bytes, "xl/workbook".as_bytes())
            || contains_bytes(bytes, "xl/styles".as_bytes())
            || contains_bytes(bytes, "xl/theme".as_bytes())
            || contains_bytes(bytes, "xl/strings".as_bytes())
            || contains_bytes(bytes, "xl/charts".as_bytes())
            || contains_bytes(bytes, "xl/drawings".as_bytes())
            || contains_bytes(bytes, "xl/sharedStrings".as_bytes())
            || contains_bytes(bytes, "xl/metadata".as_bytes())
            || contains_bytes(bytes, "xl/calc".as_bytes());
        let is_shapefile = contains_bytes(bytes, ".shp".as_bytes())
            || contains_bytes(bytes, ".dbf".as_bytes())
            || contains_bytes(bytes, ".prj".as_bytes())
            || contains_bytes(bytes, ".shx".as_bytes());
        if is_excel && !is_shapefile {
            Some(FileType::Excel)
        } else if is_shapefile && !is_excel {
            Some(FileType::Shapefile)
        } else {
            None
        }
    }

    /// `Ok(Geojson)` when `bytes` is UTF-8 text that, without leading white space
    /// and lower-cased, has the shape of GeoJSON; `Err` otherwise.
    pub fn detect_geojson(bytes: &[u8]) -> (r: Result<FileType, ()>)
        ensures
            r == (if geojson_sniff(bytes@) {
                Ok::<FileType, ()>(FileType::Geojson)
            } else {
                Err::<FileType, ()>(())
            }),
    {
        match utf8_text(bytes) {
            Some(text) => {
                let trimmed = trim_start(text);
                let lowered = lowercase(trimmed);
                if Self::has_geojson_shape(lowered.as_str()) {
                    Ok(FileType::Geojson)
                } else {
                    Err(())
                }
            },
            None => Err(()),
        }
    }

    /// Whether lower-cased text opens an object and names a GeoJSON type.
    pub fn has_geojson_shape(text: &str) -> (r: bool)
        ensures
            r == geojson_shape(text.spec_bytes()),
    {
        let t = text.as_bytes();
        t.len() > 0 && t[0] == OPEN_BRACE && contains_bytes(t, "\"type\"".as_bytes()) && (
        contains_bytes(t, "\"featurecollection\"".as_bytes()) || contains_bytes(
            t,
            "\"feature\"".as_bytes(),
        ) || contains_bytes(t, "\"geometry\"".as_bytes()))
    }

    /// Whether `bytes` is non-empty UTF-8 text whose first lines, within the first
    /// `SAMPLE_BYTES` bytes, hold one and the same positive number of commas each.
    pub fn looks_like_csv(bytes: &[u8]) -> (r: bool)
        ensures
            r == csv_sniff(bytes@),
    {
        if bytes.len() == 0 {
            return false;
        }
        match utf8_text(bytes) {
            Some(_) => {
                let n: usize = if bytes.len() > SAMPLE_BYTES {
                    SAMPLE_BYTES
                } else {
                    bytes.len()
                };
                assert(bytes@.take(n as int) =~= csv_sample(bytes@));
                lines_have_uniform_commas(bytes, n)
            },
            None => false,
        }
    }

    /// Whether the head of `bytes` looks like an Arrow IPC stream frame: the
    /// continuation marker after four zero bytes, or plausible lengths.
    pub fn is_arrow_ipc_stream(bytes: &[u8]) -> (r: bool)
        ensures
            r == arrow_stream_header(bytes@),
    {
        if bytes.len() < 8 {
            return false;
        }
        if bytes[0] == 0 && bytes[1] == 0 && bytes[2] == 0 && bytes[3] == 0 && bytes[4] == 0xFF
            && bytes[5] == 0xFF && bytes[6] == 0xFF && bytes[7] == 0xFF {
            return true;
        }
        let message_length = read_u32_le(bytes, 0);
        let metadata_length = read_u32_le(bytes, 4);
        8 < message_length && message_length < ARROW_MESSAGE_LIMIT && metadata_length > 0
            && metadata_length < message_length && (message_length as usize) <= bytes.len()
            && bytes.len() > 8 && bytes[8] != OPEN_BRACE && bytes[8] != QUOTE
    }
}

} // verus!
