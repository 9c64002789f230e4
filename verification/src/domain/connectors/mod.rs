//! Connectors: one for each kind of source.
//!
//! A connector does no input or output itself. It says what it needs next, is handed
//! the answer, and goes on from there until it has its documents or has failed.

pub mod bitbucket;
pub mod dispatch;
pub mod dropbox;
pub mod filetype;
pub mod github;
pub mod gitlab;
pub mod google_drive;
pub mod limit;
pub mod local_file;
pub mod session;
pub mod slack;
pub mod url_scraper;

pub use dispatch::Connector;
pub use dispatch::ConnectorManager;
pub use dispatch::Fetch;
