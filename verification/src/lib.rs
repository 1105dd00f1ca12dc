pub mod db;
pub mod download;
pub mod monitor;
pub mod platform;
pub mod queue;
pub mod text;
pub mod ui;
