//! Core of a local music library: the entities it stores, the SQL it issues
//! against its catalogue, and the decisions it takes while scanning a music
//! folder into that catalogue.

pub mod model;
pub mod text;
pub mod sql;
pub mod metadata;
pub mod populate;
pub mod sync;
pub mod catalogue;
