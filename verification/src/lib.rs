//! Verified domain model and planning logic for temporary, scoped Kubernetes
//! sandbox sessions used by agents and test traffic.

pub mod text;
pub mod token;
pub mod ids;
pub mod order;
pub mod values;
pub mod graph;
pub mod session;
pub mod metadata;
pub mod manifest;
pub mod json;
pub mod gateway;
pub mod k8s;
pub mod cleanup;
pub mod routing;
pub mod sanitize;
pub mod lines;
pub mod checks;
pub mod policy;
pub mod settings;
pub mod pattern;
pub mod fixtures;
pub mod cli;
