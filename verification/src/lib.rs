pub mod api;
pub mod auth;
pub mod cache;
pub mod collections;
pub mod notifications;
pub mod preferences;
pub mod storage;
pub mod text;
pub mod ui;
