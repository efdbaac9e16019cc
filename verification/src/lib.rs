//! Verified core of a desktop notifier for the Jilin University OA portal.
pub mod item;
pub mod text;
pub mod scrape;
pub mod html;
pub mod table;
pub mod poll;
pub mod update;
pub mod style;
pub mod actions;
pub mod laws;
