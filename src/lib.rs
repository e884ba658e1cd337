//! A personal blog's post pipeline: parsing, summaries and a queryable post store.

pub mod blog;
pub mod config;
pub mod date;
pub mod helpers;
pub mod markdown;
pub mod models;
pub mod post;
pub mod summary;
pub mod text;
