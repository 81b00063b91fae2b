//! Issues short-lived license keys to callers that present a pre-shared key
//! (PSK) found in a configured allow-list.
//!
//! The library decides every request from plain values: the `PSK` header as
//! received (if any) and the allow-list configuration text (if set). Reading
//! the request and the process configuration is left to the caller.

pub mod outside;

pub mod grant;
pub mod handler;
pub mod policy;
