//! Filesystem inspection records: what a path's metadata looks like once its
//! timestamps are normalised, its identifier attached and its children probed.

pub mod error;
pub mod ident;
pub mod listing;
pub mod metadata;
pub mod time;
