//! Model and rules of a dashboard for the workflows of hosted repositories:
//! building the requests to the workflow API, decoding its replies and
//! folding the replies of many repositories into one tree.

pub mod config;
pub mod model;
pub mod text;
pub mod ui;
pub mod workflows;
