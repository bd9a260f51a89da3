//! Verified core of a save server for a browser game: the rules that decide
//! how requests are authorised and routed, how save files are named, encoded
//! and listed, how the configuration is completed and checked, and when the
//! save directory is backed up.

pub mod api;
pub mod backup;
pub mod config;
pub mod mod_install;
pub mod path;
pub mod saves_page;
pub mod text;
pub mod web;
