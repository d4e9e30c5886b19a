//! A small web-application toolkit centred on a process-wide cache.
//!
//! The heart of the crate is [`cache`]: a store of typed values under string
//! keys, each with its own expiration deadline, together with an invalidation
//! map and a sweep pass that reclaims entries marked stale.  Around it stand
//! the pure helpers of the application: pagination arithmetic, log
//! sanitisation, cookie parsing, path checks for static assets, and
//! configuration validation.  Everything here is verified; the I/O shell
//! (HTTP, database, threads, the clock) lives outside and hands these
//! functions plain values.

pub mod cache;
pub mod cache_laws;
pub mod config;
pub mod db;
pub mod landing;
pub mod log_sanitizer;
pub mod monitoring;
pub mod pages;
pub mod pagination;
pub mod sanitization;
pub mod security;
pub mod static_assets;
pub mod text;
pub mod todos;
pub mod users;
