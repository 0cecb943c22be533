pub mod app;
pub mod body;
pub mod commands;
pub mod error;
pub mod list;
pub mod metadata;
