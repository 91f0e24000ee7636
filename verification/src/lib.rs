//! Sanitizes untrusted text: removes terminal escape sequences from raw
//! bytes, reports characters that can be used for spoofing, and reduces
//! Unicode text to a restricted character set.

pub mod convert;
pub mod detector;
pub mod escape;
pub mod links;
pub mod pipeline;
pub mod raw_bytes;
pub mod report;
pub mod text;
pub mod transforms;
pub mod unicode_string;
