//! GitHub research runner: the verified core of a tool that lists the
//! stargazers, subscribers and contributors of a GitHub repository and
//! writes their enriched profiles as CSV rows.

pub mod text;
pub mod models;
pub mod errors;
pub mod auth;
pub mod github_client;
pub mod csv_output;
pub mod progress;
pub mod cli;
