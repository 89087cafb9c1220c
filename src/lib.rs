pub mod timestamp;
pub mod error;
pub mod models;
pub mod database;
pub mod commands;
