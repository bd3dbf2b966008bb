//! Decision logic of a desktop application's self-update flow.
//!
//! `policy` decides whether a check runs at all; `controller` is the state
//! machine that turns the update source's answers into the next thing the
//! host application has to do; `progress` reports download progress;
//! `flight` keeps two triggers from running a cycle at the same time.
pub mod controller;
pub mod flight;
pub mod policy;
pub mod progress;
