//! Get-or-create resolution of chat users and their talk rooms, with a
//! two-phase creation protocol that keeps a relational identity store and a
//! document store consistent.

pub mod model;
pub mod relational;
pub mod documents;
pub mod conversation;
pub mod usecase;
pub mod laws;
pub mod timestamp_utils;
