//! Catalog scraping, episode navigation and stream-source resolution for a
//! streaming catalog site, with the decisions proved by Verus.
pub mod args;
pub mod config;
pub mod cli;
pub mod flixhq;
pub mod html;
pub mod json;
pub mod navigator;
pub mod players;
pub mod providers;
pub mod quality;
pub mod stream;
pub mod text;
pub mod tools;
