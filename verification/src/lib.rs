//! Verified core of the campus-lms command line tool: argument validation,
//! error classification, warning aggregation, task aggregation and the
//! redaction rules applied before LMS data is cached.

pub mod text;
pub mod error;
pub mod cli;
pub mod external;
pub mod moodle;
pub mod dto;
pub mod cache;
pub mod config;
pub mod keychain;
pub mod output;
pub mod ai;
pub mod auth;
pub mod doctor;
pub mod lifecycle;
pub mod schema;
pub mod docs;
