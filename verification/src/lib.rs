//! Rules of the Moments photo library: identifiers, records, listing queries,
//! import and upload pipelines, edit bookkeeping and the commands that drive
//! them. Everything here is a plain value or a pure decision; disk, database
//! and network work is done by the application around it.

pub mod album;
pub mod bundle;
pub mod calendar;
pub mod commands;
pub mod config;
pub mod editing;
pub mod error;
pub mod event;
pub mod exif;
pub mod faces;
pub mod format;
pub mod ident;
pub mod immich_client;
pub mod immich_importer;
pub mod import;
pub mod importer;
pub mod keyring;
pub mod laws;
pub mod library;
pub mod local;
pub mod media;
pub mod metadata;
pub mod mutation;
pub mod path;
pub mod render;
pub mod run;
pub mod sql;
pub mod sync;
pub mod text;
pub mod thumbnail;
pub mod upload;
