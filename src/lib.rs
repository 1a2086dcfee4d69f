pub mod json;
pub mod record;
pub mod retry;
pub mod pipeline;
pub mod provider;
pub mod input;
pub mod train;
pub mod config;
