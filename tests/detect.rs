use file_finch::{FileFinch, FileType};

#[test]
fn test_detect_excel_xlsx() {
    let xlsx_header = vec![0x50, 0x4B, 0x03, 0x04];
    let mut bytes = xlsx_header;
    bytes.extend_from_slice(b"some data xl/worksheets more data");

    assert_eq!(FileFinch::detect(&bytes), FileType::Excel);
}

#[test]
fn test_detect_excel_xls() {
    let xls_header = vec![0xD0, 0xCF, 0x11, 0xE0, 0xA1, 0xB1, 0x1A, 0xE1];
    assert_eq!(FileFinch::detect(&xls_header), FileType::Excel);
}

#[test]
fn test_detect_parquet() {
    let parquet_header = vec![0x50, 0x41, 0x52, 0x31];
    assert_eq!(FileFinch::detect(&parquet_header), FileType::Parquet);
}

#[test]
fn test_detect_geopackage() {
    let mut gpkg_header = b"SQLite format 3\x00".to_vec();
    gpkg_header.extend_from_slice(&[0; 100]);
    assert_eq!(FileFinch::detect(&gpkg_header), FileType::Geopackage);
}

#[test]
fn test_detect_shapefile() {
    let mut shp_zip = vec![0x50, 0x4B, 0x03, 0x04];
    shp_zip.extend_from_slice(b"some data test.shp more data");
    assert_eq!(FileFinch::detect(&shp_zip), FileType::Shapefile);
}

#[test]
fn test_detect_geojson() {
    let geojson = br#"{"type":"FeatureCollection","features":[]}"#;
    assert_eq!(FileFinch::detect(geojson), FileType::Geojson);
}

#[test]
fn test_detect_csv() {
    let csv_data = b"name,age,city\nJohn,30,NYC\nJane,25,LA\n";
    assert_eq!(FileFinch::detect(csv_data), FileType::Csv);
}

#[test]
fn test_detect_arrow_ipc_file() {
    let arrow_file = b"ARROW1\x00\x00";
    assert_eq!(FileFinch::detect(arrow_file), FileType::Arrow);
}

#[test]
fn test_detect_arrow_ipc_stream() {
    let mut arrow_stream = vec![0x10, 0x00, 0x00, 0x00];
    arrow_stream.extend_from_slice(&[0x08, 0x00, 0x00, 0x00]);
    arrow_stream.extend_from_slice(&[0x00; 8]);
    assert_eq!(FileFinch::detect(&arrow_stream), FileType::Arrow);
}

#[test]
fn test_detect_arrow_continuation() {
    let mut arrow_continuation = vec![0x00, 0x00, 0x00, 0x00];
    arrow_continuation.extend_from_slice(&[0xFF, 0xFF, 0xFF, 0xFF]);
    assert_eq!(FileFinch::detect(&arrow_continuation), FileType::Arrow);
}

#[test]
fn test_detect_unknown() {
    let random_bytes = vec![0x12, 0x34, 0x56, 0x78];
    assert_eq!(FileFinch::detect(&random_bytes), FileType::Unknown);
}
