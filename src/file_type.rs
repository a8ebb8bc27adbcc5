use vstd::prelude::*;

verus! {

/// The formats a buffer can be classified as.
#[derive(Debug, Clone, Copy, PartialEq, Eq, Hash, Structural)]
pub enum FileType {
    Geopackage,
    Shapefile,
    Geojson,
    Excel,
    Csv,
    Parquet,
    Arrow,
    Unknown,
}

impl FileType {
    /// The canonical display name of each format.
    pub open spec fn display_name(self) -> Seq<char> {
        match self {
            FileType::Geopackage => "Geopackage"@,
            FileType::Shapefile => "Shapefile"@,
            FileType::Geojson => "GeoJSON"@,
            FileType::Excel => "Excel"@,
            FileType::Csv => "CSV"@,
            FileType::Parquet => "Parquet"@,
            FileType::Arrow => "Arrow"@,
            FileType::Unknown => "Unknown"@,
        }
    }

    /// The display name, as `display_name` gives it.
    pub fn name(&self) -> (r: &'static str)
        ensures
            r@ == self.display_name(),
    {
        match self {
            FileType::Geopackage => "Geopackage",
            FileType::Shapefile => "Shapefile",
            FileType::Geojson => "GeoJSON",
            FileType::Excel => "Excel",
            FileType::Csv => "CSV",
            FileType::Parquet => "Parquet",
            FileType::Arrow => "Arrow",
            FileType::Unknown => "Unknown",
        }
    }
}

} // verus!
