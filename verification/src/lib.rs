//! Per-call execution context and middleware rules of a remote-procedure-call
//! framework.
//!
//! Every call carries a deadline and a trace identity. The deadline crosses
//! process boundaries as the time that is left, so that clocks on different
//! machines never have to agree. Around a raw message transport, layers for
//! compression, bounded retry, round-robin balancing and request hooks can be
//! stacked; the rules by which each of them decides are stated and proved here.

pub mod absolute_to_relative_time;
pub mod channel;
pub mod compression;
pub mod context;
pub mod dispatch;
pub mod error;
pub mod load_balance;
pub mod request_hook;
pub mod retry;
pub mod time;
pub mod trace;
