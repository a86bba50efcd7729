use vstd::prelude::*;

use crate::keys::KeyCode;
use crate::types::{Counter, ServerMessage};

verus! {

/// What one key press on the counter pane does to the shared count and the
/// redraw flag, and what it broadcasts: Enter adds one to the shared count
/// and announces it; every other key does nothing.
pub open spec fn counter_key_step(
    shared: u32,
    redraw: bool,
    key: KeyCode,
    new_shared: u32,
    new_redraw: bool,
    message: Option<ServerMessage>,
) -> bool {
    if key == KeyCode::Enter {
        new_shared == shared + 1 && new_redraw && message == Some(ServerMessage::Increment)
    } else {
        new_shared == shared && new_redraw == redraw && message is None
    }
}

impl Counter {
    /// A counter showing zero.
    pub fn new() -> (r: Self)
        ensures
            r.count == 0,
            r.last_increment_time is None,
    {
        Counter { count: 0, last_increment_time: None }
    }

    /// Applies one key press on the counter pane to the shared count, and
    /// returns the message to broadcast to every client, if any.
    pub fn handle_key(
        &mut self,
        key: KeyCode,
        shared_count: &mut u32,
        needs_redraw: &mut bool,
    ) -> (r: Option<ServerMessage>)
        requires
            key == KeyCode::Enter ==> *old(shared_count) < u32::MAX,
        ensures
            *final(self) == *old(self),
            counter_key_step(
                *old(shared_count),
                *old(needs_redraw),
                key,
                *final(shared_count),
                *final(needs_redraw),
                r,
            ),
    {
        if key == KeyCode::Enter {
            *shared_count = *shared_count + 1;
            *needs_redraw = true;
            Some(ServerMessage::Increment)
        } else {
            None
        }
    }
}

} // verus!
