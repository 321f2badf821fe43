//! Reconciles a published aeronautical facility dataset with locally
//! maintained sector files: catalog lookup, the join of concurrently ingested
//! datasets, the match-then-update-or-insert fold over local entities, and the
//! backup-then-write protocol for rewriting a sector file.
pub mod catalog;
pub mod clock;
pub mod facility;
pub mod frequency;
pub mod ingest;
pub mod local;
pub mod message;
pub mod persist;
pub mod reconcile;
pub mod text;
