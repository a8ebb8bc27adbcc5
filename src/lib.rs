pub mod file_type;
pub mod finch;
pub mod laws;
pub mod lines;
pub mod model;
pub mod summary;
pub mod text;
pub mod window;

pub use file_type::FileType;
pub use finch::FileFinch;
pub use summary::{ArrowLayout, DataSummary};
