//! The clients of the services that this one talks to.

pub mod auth;
pub mod chunker;
pub mod github_api;
pub mod http;

pub use auth::AuthClient;
pub use chunker::ChunkerClient;
pub use github_api::GitHubApiClient;
