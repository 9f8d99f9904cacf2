//! Log collection for a fleet of nodes: the scraper that pulls journal
//! entries from each node, labels them and forwards them, the helpers that
//! watch its configuration, and the fake log source used to exercise it.

pub mod assoc;
pub mod json;
pub mod cursors;
pub mod ic_node;
pub mod config;
pub mod scrapper;
pub mod scrapper_laws;
pub mod log_scraper;
pub mod log_types;
pub mod logger;
pub mod file_watcher;
pub mod config_watcher;
