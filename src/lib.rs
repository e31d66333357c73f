//! Adapts one multiplexed remote-execution channel into the shape of a child
//! process: separate stdout and stderr byte streams, a stdin stream and an
//! exit status.
//!
//! The library holds the decisions: which pipe each channel event feeds, when
//! the exit status is known, when the streams end, and what the stdin
//! forwarder sends. The asynchronous pipes and tasks that carry them out
//! live outside it and hand the events in.
mod command;
mod drain;
mod error;
mod event;
mod forward;
mod laws;
mod status;

pub use crate::command::Command;
pub use crate::drain::{
    DrainAction, DrainLoop, Output, routes, stdout_written, stderr_written, lemma_routes_writes,
};
pub use crate::error::Error;
pub use crate::event::{
    ChannelEvent, EventView, EXTENDED_STDERR, events_view, stdout_part, stderr_part, stdout_of,
    stderr_of, exit_of, lemma_stdout_append, lemma_stderr_append, lemma_exit_append,
};
pub use crate::forward::{ForwardAction, StdinForwarder};
pub use crate::laws::{
    data_events, law_silent_command_exit_code, law_data_chunks_delivered, law_streams_do_not_mix,
    law_data_after_exit, law_no_exit_status, law_echo_round_trip,
};
pub use crate::status::ExitStatus;
