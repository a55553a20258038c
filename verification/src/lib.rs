//! A translation table for an editor of game texts: entries in a fixed order,
//! each with its texts by language, read from and written as JSON.
//!
//! The table is `text_model::DqxTranslationsModel`, the texts of one entry
//! are `variants::LanguageVariants`, and `shell::DqxTextApp` is the editor's
//! state with its commands. `format` says which JSON is a table. The library
//! opens no file and no window: its caller does, and hands over what it got.

pub mod error;
pub mod file;
pub mod format;
pub mod json;
pub mod keyed;
pub mod ordered;
pub mod shell;
pub mod text_model;
pub mod variants;
