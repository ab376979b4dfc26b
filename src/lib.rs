pub mod cleanup;
pub mod commands;
pub mod files;
pub mod pipeline;
pub mod progress;
pub mod schedule;
pub mod settings;
pub mod supervisor;
pub mod sync;
pub mod text;
