//! A message broadcasting library based on the Plumtree/HyParView algorithms.
//!
//! Every node of a cluster runs two coupled protocol engines: a membership
//! engine that keeps a small active view of live peers, and a broadcast engine
//! that diffuses application messages along an implicit spanning tree of those
//! peers. This crate holds the per-node runtime that drives the two engines,
//! the registry that routes incoming casts to the nodes of a process, the
//! description of the casts that leave it, and their wire format.
//!
//! - `node` holds the identifiers, the inbox handle and the node itself;
//!   `runtime` holds the model that the node is verified against.
//! - `service` holds the registry of a process and the queue of its casts.
//! - `rpc` describes the casts of both protocols; `codec` puts them on the
//!   wire and takes them off it.
//! - `message` holds the application and protocol messages as plain data.
//! - `membership` and `broadcast` are the doors to the two engines. What they
//!   state of the engines is taken on trust; everything else is proved.
//!
//! The library performs no input or output. A process hands it the casts that
//! arrive, polls its nodes, and sends the casts that it finds queued.
pub mod broadcast;
pub mod codec;
pub mod error;
pub mod membership;
pub mod message;
pub mod node;
pub mod rpc;
pub mod runtime;
pub mod service;

pub use error::{Error, ErrorKind};
