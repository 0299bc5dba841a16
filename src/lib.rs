//! Connection and channel core of an AMQP 0.9.1 client: the per-channel
//! protocol state machine, the channel status record, connection options,
//! the heartbeat task's decisions and the client's channel bookkeeping.

pub mod channel_state;
pub mod channel_status;
pub mod options;
pub mod heartbeat;
pub mod client;
