//! A personal note manager: tips made of a subject, tags and free text,
//! edited through a template document and searched by pattern.

pub mod add;
pub mod config;
pub mod error;
pub mod init;
pub mod list;
pub mod metadata;
pub mod query;
pub mod remove;
pub mod show;
pub mod template;
pub mod text;
pub mod tip;
pub mod tips;
pub mod update;
