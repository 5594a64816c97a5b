//! Subcommands the library gives meaning to.
use vstd::prelude::*;

verus! {

/// What the `channel` subcommand is asked to do.
#[derive(Debug, Clone)]
pub enum ChannelAction {
    /// Make `channel` the default channel.
    SetDefault { channel: String },
    /// Show the current channel.
    List,
}

} // verus!
