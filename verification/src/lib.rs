//! Adapter core that exposes an Elasticsearch cluster as callable tools:
//! per-request client resolution, the tool configuration model, and the
//! normalization of backend outcomes into protocol results.

pub mod text;
pub mod endpoint;
pub mod headers;
pub mod client;
pub mod provider;
pub mod json;
pub mod tools;
pub mod response;
pub mod config;
pub mod rewrite;
pub mod startup;
