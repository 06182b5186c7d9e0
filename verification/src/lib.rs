//! Verified core of the GitJobs job board server.

pub mod text;
pub mod tally;
pub mod event_tracker;
pub mod img;
pub mod config;
pub mod auth;
pub mod handlers;
pub mod db;
pub mod router;
pub mod notifications;
