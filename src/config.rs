//! The local configuration: the active channel and the target identifier.
use vstd::prelude::*;
use crate::text::owned;
use crate::validation::{ValidationError, parse_channel, is_channel_name, channel_name_spec};

verus! {

/// The persisted local configuration.
#[derive(Debug, Clone)]
pub struct LocalConfig {
    pub channel: String,
    pub architecture: String,
}

/// The configuration written when none exists: the stable channel and the
/// detected target.
pub fn default_config(target: &str) -> (r: LocalConfig)
    ensures
        r.channel@ == "stable"@,
        r.architecture@ == target@,
{
    LocalConfig { channel: owned("stable"), architecture: owned(target) }
}

/// A configuration read from its stored values; a missing channel or
/// target identifier takes its default.
pub fn config_from_stored(channel: Option<String>, architecture: Option<String>, target: &str) -> (r: LocalConfig)
    ensures
        channel matches Some(c) ==> r.channel == c,
        channel is None ==> r.channel@ == "stable"@,
        architecture matches Some(a) ==> r.architecture == a,
        architecture is None ==> r.architecture@ == target@,
{
    let d = default_config(target);
    LocalConfig {
        channel: match channel {
            Some(c) => c,
            None => d.channel,
        },
        architecture: match architecture {
            Some(a) => a,
            None => d.architecture,
        },
    }
}

/// Sets the active channel. A name other than `stable` or `nightly` is
/// rejected and the configuration is left as it was, so nothing need be
/// written.
pub fn set_channel(config: &mut LocalConfig, channel: &str) -> (r: Result<(), ValidationError>)
    ensures
        is_channel_name(channel@) <==> r is Ok,
        r is Ok ==> final(config).channel@ == channel@ && final(config).architecture == old(config).architecture,
        r is Err ==> *final(config) == *old(config),
        !is_channel_name(channel@) ==> match r {
            Err(ValidationError::InvalidChannelName(s)) => s@ == channel@,
            _ => false,
        },
{
    proof {
        reveal_strlit("stable");
        reveal_strlit("nightly");
    }
    let c = parse_channel(channel)?;
    config.channel = owned(c.name());
    assert(channel_name_spec(c) == channel@);
    Ok(())
}

/// Sets the target identifier.
pub fn set_architecture(config: &mut LocalConfig, target: &str)
    ensures
        final(config).architecture@ == target@,
        final(config).channel == old(config).channel,
{
    config.architecture = owned(target);
}

} // verus!
