//! The Rust toolchain this tree pins, as `rust-toolchain.toml` states it.
//!
//! The channel ends up on a command line inside a guest, so it is checked
//! here; reading the file and its TOML belong to the caller, who hands over
//! what the `[toolchain]` table held.

use vstd::prelude::*;

use crate::fmt::{debug_char, debug_char_spec, debug_quoted, debug_str};
use crate::split::{lines_of};
use crate::text::{chars_of, copy_strings, lines_spec, owned, push_view, trim, trim_spec, views};

verus! {

/// The file rustup reads, at the repository root.
pub const PINNED_FILE: &'static str = "rust-toolchain.toml";

/// What the repository pins.
#[derive(Debug, Clone, PartialEq, Eq)]
pub struct Toolchain {
    /// The channel as rustup spells it, `1.94.0` or `stable`.
    pub channel: String,
    /// The profile the pin asks for.
    pub profile: String,
    pub components: Vec<String>,
}

/// What the `[toolchain]` table of the file held, each key at its default
/// where the table did not carry it.
#[derive(Debug, Clone, PartialEq, Eq)]
pub struct RawPin {
    pub channel: Option<String>,
    pub profile: Option<String>,
    pub components: Vec<String>,
}

pub open spec fn install_args_spec(channel: Seq<char>) -> Seq<Seq<char>> {
    seq!["toolchain"@, "install"@, channel, "--profile"@, "minimal"@]
}

impl Toolchain {
    /// The `rustup toolchain install` arguments a builder's job runs: the
    /// channel, with the minimal profile the guests install.
    pub fn install_args(&self) -> (r: Vec<String>)
        ensures
            views(r@) == install_args_spec(self.channel@),
    {
        let mut a: Vec<String> = Vec::new();
        push_view(&mut a, owned("toolchain"));
        push_view(&mut a, owned("install"));
        push_view(&mut a, owned(self.channel.as_str()));
        push_view(&mut a, owned("--profile"));
        push_view(&mut a, owned("minimal"));
        assert(views(a@) =~= install_args_spec(self.channel@));
        a
    }
}

/// A character a rustup channel name may hold.
pub open spec fn channel_char(c: char) -> bool {
    ('a' <= c && c <= 'z') || ('A' <= c && c <= 'Z') || ('0' <= c && c <= '9') || c == '.' || c == '-' || c
        == '_'
}

pub open spec fn no_channel_spec() -> Seq<char> {
    PINNED_FILE@ + " names no channel"@
}

pub open spec fn bad_channel_spec(channel: Seq<char>, bad: char) -> Seq<char> {
    PINNED_FILE@ + " channel "@ + debug_quoted(channel) + " contains "@ + debug_char_spec(bad)
        + ", which is not part of a rustup channel name; the channel is passed to a command line inside a guest"@
}

/// `e` is the refusal of `channel`: that it names none, where it is empty, and
/// otherwise the first character it may not hold.
pub open spec fn channel_refused(channel: Seq<char>, e: Seq<char>) -> bool {
    if channel.len() == 0 {
        e == no_channel_spec()
    } else {
        exists|i: int|
            0 <= i < channel.len() && !channel_char(channel[i]) && (forall|k: int|
                0 <= k < i ==> channel_char(#[trigger] channel[k])) && e == bad_channel_spec(channel, channel[i])
    }
}

/// Refuse a channel that is not a bare rustup channel name: empty, or holding
/// a character other than ASCII letters, digits, `.`, `-` and `_`, the first
/// such character named.
pub fn check_channel(channel: &str) -> (r: Result<(), String>)
    ensures
        match r {
            Ok(()) => channel@.len() > 0 && forall|i: int| 0 <= i < channel@.len() ==> channel_char(#[trigger] channel@[i]),
            Err(e) => channel_refused(channel@, e@),
        },
{
    let v = chars_of(channel);
    if v.len() == 0 {
        let mut e = owned(PINNED_FILE);
        e.append(" names no channel");
        return Err(e);
    }
    let mut i: usize = 0;
    while i < v.len()
        invariant
            i <= v.len(),
            v@ == channel@,
            forall|k: int| 0 <= k < i ==> channel_char(#[trigger] v@[k]),
        decreases v.len() - i,
    {
        let c = v[i];
        let ok = ('a' <= c && c <= 'z') || ('A' <= c && c <= 'Z') || ('0' <= c && c <= '9') || c == '.'
            || c == '-' || c == '_';
        if !ok {
            let mut e = owned(PINNED_FILE);
            e.append(" channel ");
            let q = debug_str(channel);
            e.append(q.as_str());
            e.append(" contains ");
            let b = debug_char(c);
            e.append(b.as_str());
            e.append(
                ", which is not part of a rustup channel name; the channel is passed to a command line inside a guest",
            );
            return Err(e);
        }
        i = i + 1;
    }
    Ok(())
}

pub open spec fn missing_channel_spec() -> Seq<char> {
    "malformed "@ + PINNED_FILE@ + ": missing field `channel`"@
}

/// The pin a `[toolchain]` table stands for: its channel trimmed and checked,
/// its profile `default` where it names none, its components as they are.
pub fn toolchain_from(raw: &RawPin) -> (r: Result<Toolchain, String>)
    ensures
        match raw.channel {
            None => r matches Err(e) && e@ == missing_channel_spec(),
            Some(c) => {
                let ch = trim_spec(c@);
                match r {
                    Ok(t) => t.channel@ == ch && ch.len() > 0 && (forall|i: int|
                        0 <= i < ch.len() ==> channel_char(#[trigger] ch[i])) && t.profile@ == match raw.profile {
                        Some(p) => p@,
                        None => "default"@,
                    } && views(t.components@) == views(raw.components@),
                    Err(e) => !(ch.len() > 0 && forall|i: int| 0 <= i < ch.len() ==> channel_char(#[trigger] ch[i]))
                        && channel_refused(ch, e@),
                }
            },
        },
{
    let c = match &raw.channel {
        Some(c) => c,
        None => {
            let mut e = owned("malformed ");
            e.append(PINNED_FILE);
            e.append(": missing field `channel`");
            return Err(e);
        },
    };
    let channel = trim(c.as_str());
    match check_channel(channel.as_str()) {
        Ok(()) => {},
        Err(e) => return Err(e),
    }
    let profile = match &raw.profile {
        Some(p) => owned(p.as_str()),
        None => owned("default"),
    };
    Ok(Toolchain { channel, profile, components: copy_strings(&raw.components) })
}

pub open spec fn malformed_spec(message: Seq<char>) -> Seq<char> {
    "malformed "@ + PINNED_FILE@ + ": "@ + if lines_spec(message).len() > 0 {
        lines_spec(message)[0]
    } else {
        "unparseable"@
    }
}

/// The refusal for a file the TOML reader could not read: only the first line
/// of its message, which otherwise carries a diagram over several lines.
pub fn malformed(message: &str) -> (r: String)
    ensures
        r@ == malformed_spec(message@),
{
    let mut r = owned("malformed ");
    r.append(PINNED_FILE);
    r.append(": ");
    let lines = lines_of(message);
    if lines.len() > 0 {
        assert(views(lines@)[0] == lines@[0]@);
        r.append(lines[0].as_str());
    } else {
        r.append("unparseable");
    }
    r
}

/// Where the pin is, under a repository root.
pub fn pinned_path(repo_root: &str) -> (r: String)
    ensures
        r@ == repo_root@ + "/"@ + PINNED_FILE@,
{
    let mut r = owned(repo_root);
    r.append("/");
    r.append(PINNED_FILE);
    r
}

} // verus!
