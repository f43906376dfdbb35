//! Size metrics for text content: byte, line, word and character counts,
//! with per-file aggregation and report formatting.

pub mod metrics;
pub mod report;
pub mod settings;

pub use metrics::bytes;
pub use metrics::characters;
pub use metrics::lines;
pub use metrics::measure;
pub use metrics::words;
pub use metrics::ObjectAttributes;
pub use report::compute_entries;
pub use report::read_files;
pub use settings::Conf;
pub use settings::config;
