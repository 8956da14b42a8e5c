//! States of PipeWire filters.

use vstd::prelude::*;

verus! {

/// Current connection state of a filter.
#[derive(Debug, PartialEq)]
pub enum FilterState {
    Error(String),
    Unconnected,
    Connecting,
    Paused,
    Streaming,
}

/// Native filter state codes.
pub const FILTER_STATE_ERROR: i32 = -1;

pub const FILTER_STATE_UNCONNECTED: i32 = 0;

pub const FILTER_STATE_CONNECTING: i32 = 1;

pub const FILTER_STATE_PAUSED: i32 = 2;

pub const FILTER_STATE_STREAMING: i32 = 3;

impl FilterState {
    /// The state with native code `state`; any other code is an error whose
    /// message is `error`, or empty when the filter reported none.
    pub fn from_raw(state: i32, error: Option<String>) -> (r: FilterState)
        ensures
            state == FILTER_STATE_UNCONNECTED ==> r == FilterState::Unconnected,
            state == FILTER_STATE_CONNECTING ==> r == FilterState::Connecting,
            state == FILTER_STATE_PAUSED ==> r == FilterState::Paused,
            state == FILTER_STATE_STREAMING ==> r == FilterState::Streaming,
            !(0 <= state <= 3) ==> (r matches FilterState::Error(message) && message@ == match error {
                Some(text) => text@,
                None => Seq::<char>::empty(),
            }),
    {
        match state {
            FILTER_STATE_UNCONNECTED => FilterState::Unconnected,
            FILTER_STATE_CONNECTING => FilterState::Connecting,
            FILTER_STATE_PAUSED => FilterState::Paused,
            FILTER_STATE_STREAMING => FilterState::Streaming,
            _ => FilterState::Error(
                match error {
                    Some(text) => text,
                    None => String::new(),
                },
            ),
        }
    }
}

} // verus!
