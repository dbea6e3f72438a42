//! What the operations of the library are for, stated over what goes in and what comes out.

pub mod commands;
pub mod edits;
pub mod flows;
pub mod formats;
pub mod homes;
pub mod imports;
pub mod listings;
pub mod photos;
pub mod pictures;
pub mod queries;
pub mod rows;
pub mod runs;
pub mod services;
pub mod statements;
pub mod texts;
pub mod uploads;
