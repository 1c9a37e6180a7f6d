//! Keeps local bare mirrors of a remote account's repositories in step with
//! that account, using a small catalog of what was last seen to decide which
//! repositories need work.

pub mod timestamp;
pub mod github;
pub mod repo;
pub mod database;
pub mod catalog;
pub mod sync;
pub mod laws;
pub mod multi_error;
pub mod layout;
pub mod projector;
pub mod options;
