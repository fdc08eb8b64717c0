//! Core of a payment-orchestration router: a canonical transaction model is
//! translated to and from the wire dialects of external payment processors
//! ("connectors"), dispatched through a registry of connector integrations,
//! and every failure is classified into one layered error taxonomy.

pub mod domain;
pub mod errors;
pub mod executor;
pub mod opayo;
pub mod registry;
pub mod outside;
pub mod secret;
