//! Bulk renaming and deletion of filesystem entries through an edited text listing.

pub mod action;
pub mod config;
pub mod file;
pub mod scan;
pub mod session;
pub mod text;
