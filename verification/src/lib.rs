//! Request execution for a desktop API client.
//!
//! One call forwards one HTTP request: it reads the trust material the request
//! names, builds a client, translates the headers, sends, and marshals the
//! response. The decisions live here and are verified; reading files and
//! talking to the network is the caller's part, which this crate directs
//! through [`handlers::Action`].

pub mod assoc;
pub mod commands;
pub mod dispatch;
pub mod error;
pub mod handlers;
pub mod header_specs;
pub mod headers;
pub mod laws;
pub mod marshal;
pub mod method;
pub mod tls_specs;
pub mod trust;
pub mod types;
