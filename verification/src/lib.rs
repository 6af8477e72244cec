pub mod api;
pub mod config;
pub mod event;
pub mod handle;
pub mod response;
pub mod rule;
pub mod signature;
