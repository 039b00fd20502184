pub mod config;
pub mod dispatch;
pub mod downloader;
pub mod error;
pub mod text;
pub mod ui;
pub mod utils;
