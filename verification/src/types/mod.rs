pub mod agents;
pub mod amp;
pub mod api_keys;
pub mod auth;
pub mod auth_files;
pub mod copilot;
pub mod health;
pub mod logs;
pub mod models;
pub mod proxy;
pub mod settings;
