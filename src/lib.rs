//! The in-memory core of a small hierarchical document store: a registry of
//! named databases, each holding named documents stamped with TAI64N instants.
pub mod database;
pub mod document;
pub mod keyed;
pub mod laws;
pub mod outcome;
pub mod repository;
pub mod time;



pub use database::{DbView, TuringFeedsDB};
pub use document::{DocView, TFDocument};
pub use keyed::{stored_under_own_names, Named};
pub use outcome::{DbOps, DirFault, FileOps};

pub use repository::TuringFeeds;
pub use time::TaiInstant;
