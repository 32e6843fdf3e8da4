//! A joined channel.
use vstd::prelude::*;
use crate::client::write::SameMessageBypass;

verus! {

/// A joined channel, with the bypass of the same-message slow mode for its messages.
#[derive(Clone, Debug)]
pub struct Channel {
    /// The channel name.
    pub name: String,
    /// The bypass for the messages sent to the channel.
    pub smb: SameMessageBypass,
}

} // verus!
