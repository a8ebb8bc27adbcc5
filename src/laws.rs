use vstd::prelude::*;
use vstd::utf8::valid_utf8;

use crate::file_type::FileType;
use crate::lines::{comma_count, sampled_lines, SAMPLE_LINES};
use crate::model::{
    classify, classify_with_path, csv_sample, csv_sniff, geojson_sniff, has_excel_marker,
    has_shapefile_marker, magic_kind, sqlite_magic, zip_magic, SAMPLE_BYTES,
};
use crate::text::{lower_of, path_extension};
use crate::window::starts_with;

verus! {

/// Classification depends on the bytes (and the path) alone: equal inputs get
/// equal results.
pub proof fn detection_is_deterministic(a: Seq<u8>, b: Seq<u8>, path: Seq<char>)
    requires
        a == b,
    ensures
        classify(a) == classify(b),
        classify_with_path(path, a) == classify_with_path(path, b),
{
}

/// A buffer that begins with the SQLite header is a GeoPackage, whatever follows.
pub proof fn sqlite_head_is_geopackage(b: Seq<u8>)
    requires
        starts_with(b, sqlite_magic()),
    ensures
        classify(b) == FileType::Geopackage,
{
    reveal_strlit("SQLite format 3\0");
    assert(vstd::string::is_ascii("SQLite format 3\0"));
    assert(sqlite_magic()[0] == 0x53u8);
    assert(b[0] == b.subrange(0, sqlite_magic().len() as int)[0]);
    assert(b[0] == 0x53u8);
}

/// A zip buffer that shows both a spreadsheet marker and a shapefile marker is
/// neither: it goes on to the GeoJSON and comma tests.
pub proof fn zip_with_both_markers_falls_through(b: Seq<u8>)
    requires
        starts_with(b, zip_magic()),
        has_excel_marker(b.subrange(4, b.len() as int)),
        has_shapefile_marker(b.subrange(4, b.len() as int)),
    ensures
        magic_kind(b) is None,
        classify(b) == (if geojson_sniff(b) {
            FileType::Geojson
        } else if csv_sniff(b) {
            FileType::Csv
        } else {
            FileType::Unknown
        }),
        classify(b) != FileType::Excel,
        classify(b) != FileType::Shapefile,
{
}

/// The comma test holds exactly when the sample (at most `SAMPLE_BYTES` bytes) is
/// UTF-8 text whose first line holds commas and whose sampled lines (at most
/// `SAMPLE_LINES`) each hold as many; a first line without a comma never passes.
pub proof fn csv_needs_uniform_positive_commas(b: Seq<u8>)
    ensures
        csv_sample(b).len() <= SAMPLE_BYTES,
        sampled_lines(csv_sample(b)).len() <= SAMPLE_LINES,
        csv_sniff(b) <==> {
            let ls = sampled_lines(csv_sample(b));
            &&& b.len() > 0
            &&& valid_utf8(b)
            &&& ls.len() > 0
            &&& comma_count(ls[0]) > 0
            &&& forall|i: int| 0 <= i < ls.len() ==> comma_count(#[trigger] ls[i]) == comma_count(ls[0])
        },
        ({
            let ls = sampled_lines(csv_sample(b));
            ls.len() > 0 && comma_count(ls[0]) == 0
        }) ==> !csv_sniff(b),
{
}

/// When the content is recognised, the path makes no difference.
pub proof fn content_wins_over_extension(path: Seq<char>, b: Seq<u8>)
    requires
        classify(b) != FileType::Unknown,
    ensures
        classify_with_path(path, b) == classify(b),
{
}

/// Unrecognised content under a `csv` extension, in any case, is CSV.
pub proof fn csv_extension_is_trusted(path: Seq<char>, b: Seq<u8>, ext: Seq<char>)
    requires
        classify(b) == FileType::Unknown,
        path_extension(path) == Some(ext),
        lower_of(ext) == "csv"@,
    ensures
        classify_with_path(path, b) == FileType::Csv,
{
}

/// Under a `json` or `geojson` extension, unrecognised content becomes GeoJSON only
/// when it passes the GeoJSON test, and otherwise stays unknown.
pub proof fn json_extension_needs_geojson_content(path: Seq<char>, b: Seq<u8>, ext: Seq<char>)
    requires
        classify(b) == FileType::Unknown,
        path_extension(path) == Some(ext),
        lower_of(ext) == "json"@ || lower_of(ext) == "geojson"@,
    ensures
        classify_with_path(path, b) == (if geojson_sniff(b) {
            FileType::Geojson
        } else {
            FileType::Unknown
        }),
{
    assert("json"@ != "csv"@) by {
        reveal_strlit("json");
        reveal_strlit("csv");
        assert("json"@.len() != "csv"@.len());
    }
    assert("geojson"@ != "csv"@) by {
        reveal_strlit("geojson");
        reveal_strlit("csv");
        assert("geojson"@.len() != "csv"@.len());
    }
}

} // verus!
