use vstd::prelude::*;

verus! {

/// Error taxonomy of the control core.
#[derive(Clone, Copy, Debug, PartialEq, Eq, Structural)]
pub enum CoreError {
    /// A duplicate resource or task registration, or an out-of-range
    /// channel-table index.
    ConfigurationError,
    /// A bounded task queue was full: the event was dropped and counted,
    /// never retried.
    QueueFull,
    /// A foreign-function call reported a link failure.
    TransportError,
    /// The MAC layer reported an error.
    ProtocolError,
}

} // verus!
