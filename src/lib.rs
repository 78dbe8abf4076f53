//! Safe boundary around the native inference runtime: status translation,
//! the error taxonomy, and the integrity rules of model downloads.

pub mod error;
pub mod status;
pub mod fetch;
pub mod download;
