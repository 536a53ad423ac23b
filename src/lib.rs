//! A text store for a platform input-method framework: a UTF-16 buffer
//! with its selection, lock grants to subscribers, the composition
//! lifecycle, candidate-list snapshots and focus association.

pub mod adapter;
pub mod candidates;
pub mod composition;
pub mod content;
pub mod error;
pub mod focus;
