//! Decoding of ASPRS LAS point-cloud files: a byte cursor, the public header
//! block and the point data records.

pub mod bytes;
pub mod error;
pub mod header;
pub mod points;
pub mod las_file;
