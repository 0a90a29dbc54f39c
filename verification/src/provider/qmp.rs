//! The QEMU Machine Protocol's lines: the requests this sends, and what each
//! line the server sends back is. The socket belongs to the caller.

use vstd::prelude::*;

use crate::split::{strip_prefix, words, words_spec};
use crate::text::{dec, dec_string, owned, starts_with_spec, trim, trim_spec, views};

verus! {

/// How long to wait for the QMP socket and for each reply, in seconds.
pub const TIMEOUT_SECS: u64 = 10;

/// What one line from the server is.
#[derive(Debug, Clone, PartialEq, Eq)]
pub enum Reply {
    /// The banner sent on connect, before capabilities are negotiated.
    Greeting,
    /// A successful command result.
    Return,
    /// A command that failed, with the server's description.
    Error(String),
    /// An asynchronous event, which is not a reply to anything.
    Event(String),
    /// Valid JSON that is none of the above.
    Other,
}

pub open spec fn request_spec(execute: Seq<char>) -> Seq<char> {
    "{\"execute\":\""@ + execute + "\"}\n"@
}

/// A command line, ready to send.
pub fn request(execute: &str) -> (r: String)
    ensures
        r@ == request_spec(execute@),
{
    let mut r = owned("{\"execute\":\"");
    r.append(execute);
    r.append("\"}\n");
    r
}

pub open spec fn send_key_spec(qcode: Seq<char>, hold_ms: u32) -> Seq<char> {
    "{\"execute\":\"send-key\",\"arguments\":{\"keys\":[{\"type\":\"qcode\",\"data\":\""@ + qcode
        + "\"}],\"hold-time\":"@ + dec(hold_ms as nat) + "}}\n"@
}

/// A `send-key` line for one key, named the way QEMU names keys, held for
/// `hold_ms`.
pub fn send_key_request(qcode: &str, hold_ms: u32) -> (r: String)
    ensures
        r@ == send_key_spec(qcode@, hold_ms),
{
    let mut r = owned("{\"execute\":\"send-key\",\"arguments\":{\"keys\":[{\"type\":\"qcode\",\"data\":\"");
    r.append(qcode);
    r.append("\"}],\"hold-time\":");
    let h = dec_string(hold_ms as u64);
    r.append(h.as_str());
    r.append("}}\n");
    r
}

/// The parts of a server line that say what it is: whether it has a `QMP`
/// member, its `event` where that is a string, its `error` (with the `desc`
/// inside, where that is a string), and whether it has a `return` member.
#[derive(Debug, Clone, PartialEq, Eq)]
pub struct ReplyFields {
    pub greeting: bool,
    pub event: Option<String>,
    pub error: Option<Option<String>>,
    pub returned: bool,
}

pub open spec fn fields_view(f: ReplyFields) -> (bool, Option<Seq<char>>, Option<Option<Seq<char>>>, bool) {
    (
        f.greeting,
        match f.event {
            Some(e) => Some(e@),
            None => None,
        },
        match f.error {
            Some(Some(d)) => Some(Some(d@)),
            Some(None) => Some(None),
            None => None,
        },
        f.returned,
    )
}

/// What `serde_json` reads out of a line of text: those parts of the JSON
/// value, or the text of its error where the line is not JSON.
pub uninterp spec fn json_reply_fields(line: Seq<char>) -> Result<
    (bool, Option<Seq<char>>, Option<Option<Seq<char>>>, bool),
    Seq<char>,
>;

/// `serde_json::from_str::<serde_json::Value>`, with the value's members that
/// tell a QMP line apart taken out: `get("QMP")`, `get("event")` as a string,
/// `get("error")` with its `desc` as a string, `get("return")`. Its error is
/// written with `Display`. What it returns is named by `json_reply_fields`, a
/// function of the text alone.
#[verifier::external_body]
fn read_reply_fields(line: &str) -> (r: Result<ReplyFields, String>)
    ensures
        match r {
            Ok(f) => json_reply_fields(line@) == Ok::<_, Seq<char>>(fields_view(f)),
            Err(e) => json_reply_fields(line@) == Err::<(bool, Option<Seq<char>>, Option<Option<Seq<char>>>, bool), _>(e@),
        },
{
    let v: serde_json::Value = serde_json::from_str(line).map_err(|e| e.to_string())?;
    let text = |x: &serde_json::Value| x.as_str().map(str::to_owned);
    Ok(ReplyFields {
        greeting: v.get("QMP").is_some(),
        event: v.get("event").and_then(text),
        error: v.get("error").map(|e| e.get("desc").and_then(text)),
        returned: v.get("return").is_some(),
    })
}

/// What a line is, given the parts of it that say so: a greeting first, then
/// an event, then an error (with a stock description where it gives none),
/// then a result; anything else is other.
pub open spec fn reply_of(f: (bool, Option<Seq<char>>, Option<Option<Seq<char>>>, bool)) -> (Seq<char>, Seq<char>) {
    if f.0 {
        ("greeting"@, Seq::empty())
    } else if f.1 is Some {
        ("event"@, f.1->0)
    } else if f.2 is Some {
        ("error"@, match f.2->0 {
            Some(d) => d,
            None => "unspecified QMP error"@,
        })
    } else if f.3 {
        ("return"@, Seq::empty())
    } else {
        ("other"@, Seq::empty())
    }
}

pub open spec fn reply_view(r: Reply) -> (Seq<char>, Seq<char>) {
    match r {
        Reply::Greeting => ("greeting"@, Seq::empty()),
        Reply::Event(e) => ("event"@, e@),
        Reply::Error(d) => ("error"@, d@),
        Reply::Return => ("return"@, Seq::empty()),
        Reply::Other => ("other"@, Seq::empty()),
    }
}

/// What one line of server output is, from its parts as `fields` gives them.
pub fn reply_from(fields: ReplyFields) -> (r: Reply)
    ensures
        reply_view(r) == reply_of(fields_view(fields)),
{
    if fields.greeting {
        return Reply::Greeting;
    }
    if let Some(event) = fields.event {
        return Reply::Event(event);
    }
    if let Some(error) = fields.error {
        return match error {
            Some(d) => Reply::Error(d),
            None => Reply::Error(owned("unspecified QMP error")),
        };
    }
    if fields.returned {
        return Reply::Return;
    }
    Reply::Other
}

/// Classify one line of server output; a line that is not JSON is an error
/// naming why.
pub fn classify(line: &str) -> (r: Result<Reply, String>)
    ensures
        match json_reply_fields(trim_spec(line@)) {
            Ok(f) => r matches Ok(reply) && reply_view(reply) == reply_of(f),
            Err(e) => r matches Err(m) && m@ == "QMP sent unreadable JSON: "@ + e,
        },
{
    let t = trim(line);
    match read_reply_fields(t.as_str()) {
        Ok(fields) => Ok(reply_from(fields)),
        Err(e) => {
            let mut m = owned("QMP sent unreadable JSON: ");
            m.append(e.as_str());
            Err(m)
        },
    }
}

/// The value of the first whitespace-separated token that starts with
/// `RIP=`, written as hex.
pub open spec fn rip_in(tokens: Seq<Seq<char>>) -> Option<Seq<char>>
    decreases tokens.len(),
{
    if tokens.len() == 0 {
        None
    } else if starts_with_spec(tokens[0], "RIP="@) {
        Some("0x"@ + tokens[0].skip(4))
    } else {
        rip_in(tokens.drop_first())
    }
}

/// The instruction pointer out of `info registers`.
pub fn parse_rip(info_registers: &str) -> (r: Option<String>)
    ensures
        match r {
            Some(rip) => rip_in(words_spec(info_registers@)) == Some(rip@),
            None => rip_in(words_spec(info_registers@)) is None,
        },
{
    let tokens = words(info_registers);
    let ghost tv = views(tokens@);
    let mut i: usize = 0;
    assert(tv.skip(0) =~= tv);
    proof {
        reveal_strlit("RIP=");
    }
    while i < tokens.len()
        invariant
            i <= tokens@.len(),
            tv == views(tokens@),
            tv == words_spec(info_registers@),
            "RIP="@.len() == 4,
            rip_in(tv) == rip_in(tv.skip(i as int)),
        decreases tokens@.len() - i,
    {
        proof {
            assert(tv.skip(i as int)[0] == tokens@[i as int]@);
            assert(tv.skip(i as int).drop_first() =~= tv.skip(i + 1));
        }
        match strip_prefix(tokens[i].as_str(), "RIP=") {
            Some(rip) => {
                let mut r = owned("0x");
                r.append(rip.as_str());
                return Some(r);
            },
            None => {},
        }
        i = i + 1;
    }
    assert(tv.skip(tokens@.len() as int) =~= Seq::<Seq<char>>::empty());
    None
}

/// What a reply means to a conversation waiting for one: keep reading past
/// an event, fail on an error, and take anything else as the answer.
#[derive(Debug, Clone, PartialEq, Eq)]
pub enum ReplyStep {
    Skip,
    Failed(String),
    Answered,
}

pub fn reply_step(what: &str, reply: &Reply) -> (r: ReplyStep)
    ensures
        match reply {
            Reply::Event(_) => r == ReplyStep::Skip,
            Reply::Error(d) => r matches ReplyStep::Failed(m) && m@ == what@ + " failed: "@ + d@,
            _ => r == ReplyStep::Answered,
        },
{
    match reply {
        Reply::Event(_) => ReplyStep::Skip,
        Reply::Error(d) => {
            let mut m = owned(what);
            m.append(" failed: ");
            m.append(d.as_str());
            ReplyStep::Failed(m)
        },
        _ => ReplyStep::Answered,
    }
}

/// How many lines a wait for a reply reads before it gives up on a server that
/// sends nothing but events.
pub const REPLY_READS: u32 = 32;

/// What a conversation waiting for a reply does after one read.
#[derive(Debug, Clone, PartialEq, Eq)]
pub enum ReadStep {
    /// Read another line.
    ReadOn,
    /// Stop waiting, for this reason.
    Failed(String),
    /// The line read is the reply.
    Answered,
}

/// The decision after each read of a wait for the reply to `what`: `read` is
/// what the read gave (`None` where the socket was closed, otherwise the line
/// classified), and `read_before` how many lines came before it. A closed
/// socket and an unreadable line end the wait; an event is read past, unless
/// it is the last read the wait allows; an error reply fails with its
/// description; anything else is the reply.
pub fn read_step(what: &str, read: Option<Result<Reply, String>>, read_before: u32) -> (r: ReadStep)
    requires
        read_before < REPLY_READS,
    ensures
        match read {
            None => r matches ReadStep::Failed(m) && m@ == "the QMP socket closed while waiting for "@ + what@,
            Some(Err(e)) => r matches ReadStep::Failed(m) && m@ == e@,
            Some(Ok(Reply::Event(_))) => if read_before + 1 >= REPLY_READS {
                r matches ReadStep::Failed(m) && m@ == "QMP sent only events while waiting for "@ + what@
            } else {
                r == ReadStep::ReadOn
            },
            Some(Ok(Reply::Error(d))) => r matches ReadStep::Failed(m) && m@ == what@ + " failed: "@ + d@,
            Some(Ok(_)) => r == ReadStep::Answered,
        },
{
    match read {
        None => {
            let mut m = owned("the QMP socket closed while waiting for ");
            m.append(what);
            ReadStep::Failed(m)
        },
        Some(Err(e)) => ReadStep::Failed(e),
        Some(Ok(reply)) => match reply_step(what, &reply) {
            ReplyStep::Skip => {
                if read_before + 1 >= REPLY_READS {
                    let mut m = owned("QMP sent only events while waiting for ");
                    m.append(what);
                    ReadStep::Failed(m)
                } else {
                    ReadStep::ReadOn
                }
            },
            ReplyStep::Failed(m) => ReadStep::Failed(m),
            ReplyStep::Answered => ReadStep::Answered,
        },
    }
}

} // verus!
