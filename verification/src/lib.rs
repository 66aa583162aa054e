//! A memoizing cache with durable backing storage.
//!
//! The store keeps a mapping from text keys to text values and decides what
//! has to reach the disk and when; the cache on top of it computes missing
//! values lazily and keeps only those results that are fit to be reused.

pub mod policy;
pub mod codec;
pub mod store;
pub mod cache;
pub mod app_paths;
pub mod error;
pub mod laws;
pub mod windows;
pub mod utils;
