//! The persistent store: entities and the two repositories.

pub mod entity;
pub mod import;
pub mod index;
