pub mod config;
pub mod jira;
pub mod search;
pub mod session;
pub mod store;
pub mod controller;
