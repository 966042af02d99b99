//! Bulk deletion of order records held in a content API and a commerce
//! platform: configuration checks, request building, page planning,
//! per-page deletion plans and progress accounting.

pub mod decimal;
pub mod model;
pub mod config;
pub mod request;
pub mod page;
pub mod run;
