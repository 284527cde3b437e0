pub mod bech;
pub mod checksum;
pub mod error;
pub mod hex;
pub mod phrase;
pub mod run;
