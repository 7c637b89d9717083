//! The Moodle side of the tool: response models, the client interface and
//! the logic that turns responses into the tool's outputs.

pub mod api;
pub mod models;
pub mod assignments;
pub mod calendar;
pub mod client;
pub mod courses;
pub mod params;
