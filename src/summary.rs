use vstd::prelude::*;
use vstd::slice::{slice_subrange, slice_to_vec};

use crate::finch::{read_u32_le, FileFinch};
use crate::model::{arrow_file_magic, arrow_stream_header, le_u32};
use crate::window::{starts_with, starts_with_bytes};

verus! {

/// How many bytes a summary shows at each end of a buffer.
pub const EDGE_BYTES: usize = 16;

/// Which Arrow IPC layout a buffer shows, if any.
#[derive(Debug, Clone, Copy, PartialEq, Eq, Structural)]
pub enum ArrowLayout {
    /// Neither the file magic nor a stream header.
    Absent,
    /// The `ARROW1` file magic.
    File,
    /// A stream header, with the metadata length that it announces.
    Stream { metadata_length: u32 },
}

/// The facts about a buffer that a structural inspection reports.
pub struct DataSummary {
    /// The number of bytes.
    pub size: usize,
    /// The little-endian number in the first four bytes, when there are at least
    /// eight (room for a length-prefixed header).
    pub message_length: Option<u32>,
    /// The first bytes, at most `EDGE_BYTES`.
    pub head: Vec<u8>,
    /// The last `EDGE_BYTES` bytes, when there are more than that.
    pub tail: Option<Vec<u8>>,
    /// The Arrow layout that the buffer shows.
    pub arrow: ArrowLayout,
}

impl FileFinch {
    /// The structural facts about `data` that an inspection reports.
    pub fn summarize(data: &[u8]) -> (r: DataSummary)
        ensures
            r.size == data@.len(),
            r.message_length == (if data@.len() >= 8 {
                Some(le_u32(data@, 0) as u32)
            } else {
                None
            }),
            r.head@ == data@.take(if data@.len() < EDGE_BYTES { data@.len() as int } else { EDGE_BYTES as int }),
            r.tail is Some <==> data@.len() > EDGE_BYTES,
            r.tail matches Some(t) ==> t@ == data@.subrange(data@.len() - EDGE_BYTES, data@.len() as int),
            r.arrow == (if starts_with(data@, arrow_file_magic()) {
                ArrowLayout::File
            } else if arrow_stream_header(data@) {
                ArrowLayout::Stream { metadata_length: le_u32(data@, 4) as u32 }
            } else {
                ArrowLayout::Absent
            }),
    {
        let n = data.len();
        let message_length = if n >= 8 {
            Some(read_u32_le(data, 0))
        } else {
            None
        };
        let shown: usize = if n < EDGE_BYTES {
            n
        } else {
            EDGE_BYTES
        };
        let head = slice_to_vec(slice_subrange(data, 0, shown));
        let tail = if n > EDGE_BYTES {
            Some(slice_to_vec(slice_subrange(data, n - EDGE_BYTES, n)))
        } else {
            None
        };
        let arrow = if starts_with_bytes(data, "ARROW1".as_bytes()) {
            ArrowLayout::File
        } else if Self::is_arrow_ipc_stream(data) {
            ArrowLayout::Stream { metadata_length: read_u32_le(data, 4) }
        } else {
            ArrowLayout::Absent
        };
        DataSummary { size: n, message_length, head, tail, arrow }
    }
}

} // verus!
