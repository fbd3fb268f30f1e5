//! Control core of a battery-powered LoRa end-node: the regional channel
//! plan, the single-timer timeout multiplexer, the priority event
//! dispatcher with bounded task queues, and the write-once radio binding
//! table.

pub mod bindings;
pub mod channel_plan;
pub mod dispatcher;
pub mod errors;
pub mod events;
pub mod queue;
pub mod timer;
