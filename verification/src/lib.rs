//! YARHS: an HTTP edge server core with a live, xDS-style control plane.
//!
//! This crate holds the verified logic of the server: the versioned resource
//! store with optimistic-concurrency updates, the virtual-host and route
//! matchers, conditional-GET caching (ETag, If-None-Match, If-Modified-Since)
//! with HTTP Range support, path-security-checked static file resolution,
//! the discovery API decision logic, and the access-log formatter.
//!
//! All I/O (sockets, files, signals) lives outside this crate; the functions
//! here take plain values and return plain values or response descriptions.

// Foundations: numbers, text, and time.
pub mod numfmt;
pub mod text;
pub mod httpdate;

// The data model and the versioned resource store.
pub mod config;
pub mod persist;
pub mod version;

// The request pipeline: caching, ranges, content types, routing, responses.
pub mod cache;
pub mod mime;
pub mod range;
pub mod response;
pub mod routing;
pub mod router;
pub mod static_files;

// The control plane and the server's operational decisions.
pub mod api;
pub mod conn;
pub mod logfmt;
