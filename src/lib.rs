//! Panel acquisition for paginated, script-rendered chapter readers: URL
//! validation, readiness decisions, snapshot decoding, the two-pass
//! extraction job with its retry set, and the reports built from it.

pub mod text;
pub mod style;
pub mod error;
pub mod cli;
pub mod outcome;
pub mod codec;
pub mod readiness;
pub mod extraction;
pub mod job;
pub mod report;
pub mod loading;
pub mod adapter;
