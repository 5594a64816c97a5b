//! Validation of user-supplied names: project names, channel names and the
//! existence checks around project directories.
use vstd::prelude::*;
use vstd::string::*;
use crate::text::{owned, push_char, same_text, chars_of};

verus! {

/// Longest accepted project name, in bytes.
pub const MAX_PROJECT_NAME_BYTES: usize = 50;

/// Why a name or path was rejected.
#[derive(Debug, Clone)]
pub enum ValidationError {
    EmptyProjectName,
    /// Holds the offending characters, in the order they occur.
    InvalidProjectNameChars(String),
    ProjectNameTooLong,
    InvalidChannelName(String),
    DirectoryExists(String),
    PathNotFound(String),
}

/// A release track.
#[derive(Debug, Clone, Copy, PartialEq, Eq, Structural)]
pub enum Channel {
    Stable,
    Nightly,
}

/// The name under which a channel is written.
pub open spec fn channel_name_spec(c: Channel) -> Seq<char> {
    match c {
        Channel::Stable => "stable"@,
        Channel::Nightly => "nightly"@,
    }
}

/// Whether `s` names one of the release tracks.
pub open spec fn is_channel_name(s: Seq<char>) -> bool {
    s == "stable"@ || s == "nightly"@
}

impl Channel {
    /// The name under which the channel is written.
    pub fn name(&self) -> (r: &'static str)
        ensures
            r@ == channel_name_spec(*self),
    {
        match self {
            Channel::Stable => "stable",
            Channel::Nightly => "nightly",
        }
    }
}

/// Reads a channel name; anything but `stable` or `nightly` is rejected.
pub fn parse_channel(channel: &str) -> (r: Result<Channel, ValidationError>)
    ensures
        channel@ == "stable"@ <==> r == Ok::<Channel, ValidationError>(Channel::Stable),
        channel@ == "nightly"@ <==> r == Ok::<Channel, ValidationError>(Channel::Nightly),
        !is_channel_name(channel@) <==> match r {
            Err(ValidationError::InvalidChannelName(s)) => s@ == channel@,
            _ => false,
        },
{
    proof {
        reveal_strlit("stable");
        reveal_strlit("nightly");
        assert("stable"@.len() != "nightly"@.len());
    }
    if same_text(channel, "stable") {
        Ok(Channel::Stable)
    } else if same_text(channel, "nightly") {
        Ok(Channel::Nightly)
    } else {
        Err(ValidationError::InvalidChannelName(owned(channel)))
    }
}

/// Accepts exactly the channel names `stable` and `nightly`.
pub fn validate_channel_name(channel: &str) -> (r: Result<(), ValidationError>)
    ensures
        is_channel_name(channel@) <==> r is Ok,
        !is_channel_name(channel@) <==> match r {
            Err(ValidationError::InvalidChannelName(s)) => s@ == channel@,
            _ => false,
        },
{
    match parse_channel(channel) {
        Ok(_) => Ok(()),
        Err(e) => Err(e),
    }
}

/// Whether a character counts as alphanumeric (Unicode letters and numbers).
pub uninterp spec fn alphanumeric(c: char) -> bool;

/// Relies on `char::is_alphanumeric`.
#[verifier::external_body]
pub(crate) fn is_alphanumeric(c: char) -> (r: bool)
    ensures
        r == alphanumeric(c),
{
    c.is_alphanumeric()
}

/// Characters allowed in a project name.
pub open spec fn project_name_char(c: char) -> bool {
    alphanumeric(c) || c == '-' || c == '_'
}

/// The characters of `s` that a project name may not hold, in order.
pub open spec fn invalid_name_chars(s: Seq<char>) -> Seq<char> {
    s.filter(|c: char| !project_name_char(c))
}

/// Accepts a non-empty name of at most fifty bytes made of alphanumeric
/// characters, `-` and `_`. A name with other characters is rejected with
/// those characters.
pub fn validate_project_name(name: &str) -> (r: Result<(), ValidationError>)
    ensures
        r is Ok <==> name@.len() > 0 && name.len() <= MAX_PROJECT_NAME_BYTES && invalid_name_chars(name@).len()
            == 0,
        name@.len() == 0 ==> r matches Err(ValidationError::EmptyProjectName),
        name@.len() > 0 && name.len() > MAX_PROJECT_NAME_BYTES
            ==> r matches Err(ValidationError::ProjectNameTooLong),
        name@.len() > 0 && name.len() <= MAX_PROJECT_NAME_BYTES
            && invalid_name_chars(name@).len() > 0 ==> match r {
                Err(ValidationError::InvalidProjectNameChars(s)) => s@ == invalid_name_chars(name@),
                _ => false,
            },
{
    if name.is_empty() {
        return Err(ValidationError::EmptyProjectName);
    }
    if name.len() > MAX_PROJECT_NAME_BYTES {
        return Err(ValidationError::ProjectNameTooLong);
    }
    let cs = chars_of(name);
    let mut bad = String::new();
    let mut i: usize = 0;
    while i < cs.len()
        invariant
            i <= cs@.len(),
            cs@ == name@,
            bad@ == invalid_name_chars(cs@.subrange(0, i as int)),
        decreases cs@.len() - i,
    {
        let c = cs[i];
        proof {
            reveal(Seq::filter);
            assert(cs@.subrange(0, i + 1).drop_last() =~= cs@.subrange(0, i as int));
        }
        if !(is_alphanumeric(c) || c == '-' || c == '_') {
            push_char(&mut bad, c);
        }
        i = i + 1;
    }
    assert(cs@.subrange(0, cs@.len() as int) =~= cs@);
    if bad.as_str().is_empty() {
        Ok(())
    } else {
        Err(ValidationError::InvalidProjectNameChars(bad))
    }
}

/// A new project's directory must not exist yet.
pub fn validate_project_path(path: &str, exists: bool) -> (r: Result<(), ValidationError>)
    ensures
        !exists <==> r is Ok,
        exists ==> match r {
            Err(ValidationError::DirectoryExists(p)) => p@ == path@,
            _ => false,
        },
{
    if exists {
        return Err(ValidationError::DirectoryExists(owned(path)));
    }
    Ok(())
}

/// An existing project needs its directory and a `manifest.toml` in it.
pub fn validate_existing_project(path: &str, exists: bool, has_manifest: bool) -> (r: Result<
    (),
    ValidationError,
>)
    ensures
        (exists && has_manifest) <==> r is Ok,
        !exists ==> match r {
            Err(ValidationError::PathNotFound(p)) => p@ == path@,
            _ => false,
        },
        exists && !has_manifest ==> match r {
            Err(ValidationError::PathNotFound(p)) => p@ == "manifest.toml not found in project directory"@,
            _ => false,
        },
{
    if !exists {
        return Err(ValidationError::PathNotFound(owned(path)));
    }
    if !has_manifest {
        return Err(ValidationError::PathNotFound(owned("manifest.toml not found in project directory")));
    }
    Ok(())
}

} // verus!
