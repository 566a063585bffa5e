//! An in-process publish/subscribe broker: named topics, each holding one
//! delivery channel, with a registry shared between threads.
use vstd::prelude::*;

pub mod broker;
pub mod channel;
pub mod error;
pub mod laws;
pub mod message;
pub mod topic;
pub mod topics;

pub use broker::{PubSub, PubSubTrait, SharedTopics};
pub use error::PubSubError;
pub use message::Message;
pub use topic::{send_outcome, Topic};
pub use topics::Topics;
