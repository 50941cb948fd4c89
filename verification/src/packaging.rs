pub mod archive;
pub mod artifacts;
pub mod commands;
pub mod exclude;
pub mod pipeline;
