//! Plain data exchanged between the controller and its callers.

pub mod messages;
