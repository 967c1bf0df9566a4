pub mod error;
pub mod http;
pub mod jobs;
pub mod models;
pub mod repos;
pub mod runs;
pub mod workflows;

pub use error::GitHubError;
