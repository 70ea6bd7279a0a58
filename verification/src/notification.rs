//! What the operating system posts to the thread that runs the dispatch loop.

use vstd::prelude::*;

verus! {

/// The kind of message that reports a fired hotkey.
pub const WM_HOTKEY: u32 = 0x0312;

/// One message taken from the queue, reduced to what the dispatch loop reads.
#[derive(Clone, Copy, Debug, PartialEq, Eq, Structural)]
pub struct Notification {
    /// The kind of the message.
    pub message: u32,
    /// The first parameter of the message; for a fired hotkey, its id.
    pub w_param: u64,
}

impl Notification {
    /// Whether the message reports a fired hotkey.
    pub open spec fn is_hotkey(self) -> bool {
        self.message == WM_HOTKEY
    }

    /// The id that the parameter names, if it lies in the range that ids are
    /// drawn from.
    pub open spec fn hotkey_id(self) -> Option<i32> {
        if self.w_param <= i32::MAX {
            Some(self.w_param as i32)
        } else {
            None
        }
    }
}

} // verus!
