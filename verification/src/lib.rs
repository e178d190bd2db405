pub mod bot;
pub mod clock;
pub mod config;
pub mod db;
pub mod i18n;
pub mod moderation;
pub mod text;
pub mod utils;
