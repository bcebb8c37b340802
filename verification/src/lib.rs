//! Batch renaming of files by a prefix and a suffix.
//!
//! Every file of a batch gets the prefix in front of its name and the suffix
//! in front of its extension. The library decides the new names and the
//! target paths and keeps the account of a batch: how many files were renamed
//! and which message each of the others left. Moving the files is the
//! caller's part.

pub mod batch;
pub mod filename;
pub mod paths;
