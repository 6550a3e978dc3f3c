pub mod config;
pub mod proxy;
