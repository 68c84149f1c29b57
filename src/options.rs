//! Configuration captured when a connection is made.
use vstd::prelude::*;

verus! {

/// The largest incoming frame accepted by default: 64 MiB.
pub const DEFAULT_MAX_INCOMING_FRAME_SIZE: usize = 67108864;

/// The default polling interval, in milliseconds.
pub const DEFAULT_DELAY_BLOCKING_MS: u64 = 10;

/// What `Duration::from_millis` returns for a number of milliseconds.
pub uninterp spec fn duration_of_millis(ms: u64) -> std::time::Duration;

/// Relies on `core::time::Duration::from_millis`: a function of its argument
/// alone, which never panics.
pub assume_specification[ core::time::Duration::from_millis ](millis: u64) -> (d:
    core::time::Duration)
    ensures
        d == duration_of_millis(millis),
;

/// Options for a connection.
#[derive(Clone, Copy, Debug, PartialEq, Eq)]
pub struct Options {
    /// The maximum size of a single incoming message frame, in bytes.
    ///
    /// The primary reason for setting this to something other than `usize::MAX`
    /// is to prevent a malicious server from eating up all your RAM.
    pub max_incoming_frame_size: usize,
    /// How long a backend that must poll waits between two checks.
    pub delay_blocking: std::time::Duration,
}

impl Default for Options {
    fn default() -> (r: Self)
        ensures
            r.max_incoming_frame_size == DEFAULT_MAX_INCOMING_FRAME_SIZE,
            r.delay_blocking == duration_of_millis(DEFAULT_DELAY_BLOCKING_MS),
    {
        Options {
            max_incoming_frame_size: DEFAULT_MAX_INCOMING_FRAME_SIZE,
            delay_blocking: std::time::Duration::from_millis(DEFAULT_DELAY_BLOCKING_MS),
        }
    }
}

impl Options {
    /// The frame-size limit handed to the protocol layer: none where the
    /// options allow every size.
    pub open spec fn spec_frame_limit(&self) -> Option<usize> {
        if self.max_incoming_frame_size == usize::MAX {
            None
        } else {
            Some(self.max_incoming_frame_size)
        }
    }

    /// The frame-size limit handed to the protocol layer.
    pub fn frame_limit(&self) -> (r: Option<usize>)
        ensures
            r == self.spec_frame_limit(),
    {
        if self.max_incoming_frame_size == usize::MAX {
            None
        } else {
            Some(self.max_incoming_frame_size)
        }
    }

}

} // verus!
