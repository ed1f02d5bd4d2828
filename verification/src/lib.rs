//! Verified core of the smashnet plugin: the decisions behind its libcurl
//! downloads, its text requests and its self-update check.
pub mod text;
pub mod curl;
pub mod curler;
pub mod download;
pub mod update;
pub mod request;
