//! Publishing one message to several social networks at once.
//!
//! The crate holds the decisions of a publish call: how the text is put
//! together, which platforms take part, what each platform is asked to do
//! next and how the outcomes are gathered. Network and file access belong
//! to the caller, which performs the actions that the library names and
//! hands the results back.
pub mod data;
pub mod config;
pub mod error;
pub mod result;
pub mod gather;
pub mod json;
pub mod http;
pub mod twitter;
pub mod gab;
pub mod mastodon;
pub mod minds;
pub mod fanout;
pub mod api;
pub mod number;
pub mod cli;
