//! A process-wide logging sink: severity filtering, exact line formatting with
//! elapsed time since the sink was opened, and a write protocol that falls back
//! to standard output when the destination stops accepting writes.

pub mod format;
pub mod protocol;
pub mod severity;
pub mod sink;
