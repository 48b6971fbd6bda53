//! A verified core for a web-page simplifying proxy.
//!
//! The library turns a fetched HTML page into a stripped-down,
//! link-rewritten document: URLs are normalized, a base URL is derived
//! from the final (post-redirect) URL, and a single-pass transducer
//! filters the markup, drops script and style content, and routes every
//! anchor back through the proxy.  A small usage ledger keeps per-key
//! byte counters.  All I/O (the HTTP fetch, the HTTP server, and the
//! persistence of the ledger) lives outside this crate; the functions
//! here are pure computations with proved contracts.

pub mod api_key;
pub mod api_types;
pub mod clock;
pub mod escape;
pub mod handlers;
pub mod html_model;
pub mod html_parser;
pub mod laws;
pub mod text;
pub mod web_ui;
