//! Record stores and entity resolution for federated music subgraphs.

pub mod entity;
pub mod reply;
pub mod representation;
pub mod resolver;
pub mod store;
pub mod subgraph;
pub mod text;
