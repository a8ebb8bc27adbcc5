use file_finch::{ArrowLayout, FileFinch};

#[test]
fn summary_of_a_short_buffer() {
    let s = FileFinch::summarize(&[1, 2, 3]);
    assert_eq!(s.size, 3);
    assert_eq!(s.message_length, None);
    assert_eq!(s.head, vec![1, 2, 3]);
    assert_eq!(s.tail, None);
    assert_eq!(s.arrow, ArrowLayout::Absent);
}

#[test]
fn summary_of_a_stream_header() {
    let mut bytes = vec![0x10, 0x00, 0x00, 0x00, 0x08, 0x00, 0x00, 0x00];
    bytes.extend((0u8..12).collect::<Vec<u8>>());
    let s = FileFinch::summarize(&bytes);
    assert_eq!(s.size, 20);
    assert_eq!(s.message_length, Some(16));
    assert_eq!(s.head, bytes[..16].to_vec());
    assert_eq!(s.tail, Some(bytes[4..].to_vec()));
    assert_eq!(s.arrow, ArrowLayout::Stream { metadata_length: 8 });
}

#[test]
fn summary_of_an_arrow_file() {
    let s = FileFinch::summarize(b"ARROW1\x00\x00");
    assert_eq!(s.message_length, Some(u32::from_le_bytes(*b"ARRO")));
    assert_eq!(s.tail, None);
    assert_eq!(s.arrow, ArrowLayout::File);
}
