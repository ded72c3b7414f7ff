//! The records the status page keeps, with the rules that turn their stored
//! states into labels and style classes.

pub mod incident;
pub mod maintenance;
pub mod service;
pub mod settings;
pub mod uptime;
