//! Tagged file storage: resumable staged writes, integrity and type metadata,
//! tag validation and the rules that decide what a listing may show.

pub mod collections;
pub mod file_driver;
pub mod hash;
pub mod identity;
pub mod listing;
pub mod mime;
pub mod multipart;
pub mod prepare;
pub mod records;
pub mod response;
pub mod schema;
pub mod sql;
pub mod stagings;
pub mod store;
pub mod tags;
pub mod text;
pub mod upload;
pub mod uploads;
pub mod write;
