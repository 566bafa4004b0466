//! Video metadata records: their JSON documents, the queries over a
//! collection of them, and the rules by which a directory of documents
//! becomes such a collection.

pub mod calendar;
pub mod codec;
pub mod display;
pub mod fixture;
pub mod json;
pub mod loader;
pub mod query;
pub mod record;

pub use crate::codec::decode;
pub use crate::codec::encode;
pub use crate::fixture::generate_fixture;
pub use crate::fixture::write_metadata_file;
pub use crate::loader::get_video_metadata;
pub use crate::loader::load_metadata_json;
pub use crate::query::get_by_device_id;
pub use crate::query::sort_by_capture_start;
pub use crate::record::MetaError;
pub use crate::record::Record;
pub use crate::record::VideoMeta;
