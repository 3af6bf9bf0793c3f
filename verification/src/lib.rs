pub mod config;
pub mod heartbeat;
pub mod matcher;
pub mod processor;
pub mod slack;
pub mod text;
pub mod time;
pub mod tracker;
