//! Ingestion pipeline for a fixed set of remote, gzip-compressed,
//! tab-separated datasets: each is fetched, decompressed, given a flat
//! all-text schema inferred from its header row, and bulk-loaded into a
//! relational store, replacing any prior contents of the same table.
//!
//! The decisions are made — and verified — here; the I/O is left to the
//! caller. [`pipeline`] holds the orchestrating state machine, which walks
//! one dataset at a time through its stages, fail-fast, and hands the caller
//! the actions to perform. [`naming`] derives local file names, decompressed
//! paths and table identifiers; [`schema`] derives the column list from a
//! header line; [`ddl`] builds the provisioning and bulk-import statements;
//! [`report`] derives the per-dataset success summary. [`store`] models what
//! the issued statements do to the store, [`copyin`] the import statement's
//! record grammar, and [`memstore`] realizes that model in process, so a
//! run's replace-not-duplicate behaviour can be exercised without a live
//! store. [`config`] carries the curated dataset list; [`text`] the
//! character-level operations everything else is built from.

pub mod config;
pub mod copyin;
pub mod ddl;
pub mod memstore;
pub mod naming;
pub mod pipeline;
pub mod report;
pub mod schema;
pub mod store;
pub mod text;
