//! A verified core for a command-line client of a remote time-tracking
//! service: typed resource access (paths, envelope keys, name resolution),
//! stopwatch orchestration decisions, and output rendering.

pub mod clock;
pub mod model;
pub mod numfmt;
pub mod parse;
pub mod render;
pub mod resource;
pub mod transport;
pub mod view;
