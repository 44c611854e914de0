//! Batch editing of audio tags: records of many files are folded into one
//! consolidated view, the view is edited, and each record is written back
//! with the edits applied and every untouched field kept.

pub mod agent;
pub mod decimal;
pub mod editor;
pub mod entry;
pub mod error;
pub mod lemmas;
pub mod metadata;
pub mod row;
