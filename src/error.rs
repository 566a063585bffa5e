use vstd::prelude::*;

verus! {

/// Why a broker operation failed.
#[derive(Clone, Copy, Debug, PartialEq, Eq, Structural)]
pub enum PubSubError {
    /// The operation named a topic that is not registered, or whose
    /// incarnation has already been handed to a listener.
    TopicNotFound,
    /// The topic's channel has no receive handle left.
    SendFailed,
}

} // verus!
