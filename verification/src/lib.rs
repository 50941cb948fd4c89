pub mod commands;
pub mod config;
pub mod error;
pub mod models;
pub mod occ;
pub mod packaging;
pub mod paths;
pub mod sign;
