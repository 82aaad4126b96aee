//! A request/response bridge over a message bus, with a cache kept beside an
//! authoritative friendship store.
//!
//! A client turns a publish into an awaitable reply by tagging the request with
//! a correlation key and waiting on the reply slot of that key. A dispatcher
//! consumes the request, runs it against the store, refreshes the cache after
//! every mutation and delivers one correlated reply. Everything that decides
//! lives here as verified code; the network and the clock are reached through
//! narrow capability traits or handed in as plain values.

pub mod cachers;
pub mod capability;
pub mod client;
pub mod dispatcher;
pub mod error;
pub mod handlers;
pub mod json;
pub mod message;
pub mod outputers;
pub mod persisters;
pub mod pool;
pub mod sequencer;
pub mod text;

pub use crate::capability::{Cacher, Outputer, Persister};
pub use crate::error::Error;
pub use crate::message::{Request, Response};
pub use crate::pool::{KafkaManager, RedisManager};
