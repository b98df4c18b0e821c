//! Verified core of a live market-data connection manager.
//!
//! The crate models the component that owns one bidirectional session with a
//! streaming data source: a caller-facing handle that installs and clears the
//! command sender for the live session, a FIFO command queue carrying
//! subscribe/unsubscribe requests, the session event loop's state machine
//! (including the one-handshake-at-a-time protocol over the shared inbound
//! stream), one-to-many fan-out of decoded frames to independently paced
//! subscribers, and a hierarchical cancellation signal.
//!
//! The asynchronous runtime, the network transport and logging live outside
//! this crate; they drive the state machines defined here and perform the
//! effects these functions return.

pub mod cancel;
pub mod command;
pub mod errors;
pub mod fanout;
pub mod frame;
pub mod session;
pub mod subs;

pub use command::Command;
pub use command::ControlAction;
pub use errors::ControlError;
pub use errors::DecodeError;
pub use errors::SessionClosedError;
pub use errors::TransportError;
pub use frame::Bar;
pub use frame::Frame;
pub use frame::FrameKind;
pub use frame::Quote;
pub use frame::Trade;
pub use session::Completion;
pub use session::InboundItem;
pub use session::LoopEffect;
pub use session::Service;
pub use session::SessionHandle;
pub use session::Settings;
pub use subs::SubscriptionSet;
