//! Asset filters, build sequencing and cache-backed URL resolution for a
//! static website builder.
//!
//! The library decides; its caller performs. Every function here maps plain
//! values to plain values: which program to start and with which arguments,
//! what to write after it ran, which step of a build comes next, and which
//! URL a logical asset name stands for. Reading files, starting processes and
//! rendering templates are left to the caller.

pub mod filters;

pub mod context;
pub mod manifest;
pub mod site_build;
pub mod tera_filter;
