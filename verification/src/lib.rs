//! Metadata orchestration for a photo library's backing store.
//!
//! The library plans and interprets invocations of an external
//! command-line metadata tool (exiftool): it validates requests,
//! builds the tool's argument lists for tag writes, interprets the
//! tool's exit status and streams, and normalizes its JSON read
//! output into one canonical record per file. The caller performs
//! the actual process spawn and filesystem checks and hands the
//! observed outcomes back in as plain values.

pub mod exiftool;
pub mod models;
pub mod normalize;
pub mod text;

pub use exiftool::build_exiftool_command;
pub use exiftool::execute_exiftool;
pub use exiftool::get_exiftool_path;
pub use exiftool::has_metadata;
pub use exiftool::plan_embed_metadata;
pub use exiftool::plan_read_metadata;
pub use exiftool::validate_file;
pub use models::EmbedMetadataRequest;
pub use models::EmbedMetadataResult;
pub use models::EmbedPlan;
pub use models::ExifData;
pub use models::RawItem;
pub use models::RawRecord;
pub use models::RawValue;
pub use models::SpawnOutcome;
pub use normalize::extract_description;
pub use normalize::extract_keywords;
pub use normalize::extract_title;
pub use normalize::normalize_record;
pub use normalize::read_exif_metadata;
pub use text::i32_to_string;
pub use text::join_keywords;
pub use text::split_keywords;
pub use text::str_eq;
pub use text::str_is_blank;
pub use text::trim;
pub use text::u64_to_string;
