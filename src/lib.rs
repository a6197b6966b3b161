//! Small verified building blocks: integer helpers, string and slice
//! scanning, records with derived text, enums with exact mappings, a
//! number-guessing round, generic searches over slices, and word counts.

pub mod basics;
pub mod text;
pub mod structs;
pub mod ownership;
pub mod slices;
pub mod enums;
pub mod generics;
pub mod summary;
pub mod guessing;
pub mod words;
