//! Dispatch engine of a framed byte-stream transport, written as a state
//! machine that is driven from outside: it decides, the driver performs.

mod dispatcher;
mod error;
mod timer;

pub use dispatcher::{
    decoded_frames, dispatched_frames, final_result, lemma_frames_dispatched_in_order,
    lemma_keepalive_disabled, lemma_no_decode_after_error, lemma_shutdown_after_drain,
    lemma_stopped_unregistered, rank, recorded, Action, Awaiting, Dispatcher, DispatcherShared,
    DispatcherState, Event, PollService, Readiness, State, WakeOn, DEFAULT_DISCONNECT,
    DEFAULT_KEEPALIVE,
};
pub use error::{DispatchItem, DispatcherError};
pub use timer::{after_unregister, lemma_unregister_idempotent, Timer};
