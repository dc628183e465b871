//! Protocol layer of a document store front end: the document model, the
//! row operations behind each request, query window resolution, the
//! streaming bridge and the failure taxonomy.

pub mod bridge;
pub mod channel;
pub mod config;
pub mod document;
pub mod envelope;
pub mod error;
pub mod ident;
pub mod manager;
pub mod pipeline;
pub mod service;
pub mod store;
pub mod text;
pub mod timestamp;
