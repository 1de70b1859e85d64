//! Message types exchanged with the remote importer and scraper services,
//! and the identifier type their intents carry.

pub mod data;
pub mod import;
pub mod scraping;
pub mod uuid;
