//! Building a message from what one request/response exchange showed.
use vstd::prelude::*;
use crate::message::Message;
use crate::output::{instant_in_range, instant_ok};
use crate::timestamp::Timestamp;

verus! {

/// The text that percent-decoding `raw` and reading the bytes as UTF-8,
/// with invalid sequences replaced, yields.
pub uninterp spec fn percent_decoded(raw: Seq<char>) -> Seq<char>;

/// Relies on `percent_encoding::percent_decode` and `decode_utf8_lossy`: the
/// result depends on the input alone, and text without `%` comes back as it is.
#[verifier::external_body]
fn decode_percent(raw: &str) -> (r: String)
    ensures
        r@ == percent_decoded(raw@),
        !raw@.contains('%') ==> r@ == raw@,
{
    percent_encoding::percent_decode(raw.as_bytes()).decode_utf8_lossy().into_owned()
}

/// The decoded request path, followed by ` -> <target>` when the response
/// redirects.
pub open spec fn path_text(path: Seq<char>, target: Option<Seq<char>>) -> Seq<char> {
    match target {
        Some(t) => path + " -> "@ + t,
        None => path,
    }
}

/// The notes of a request: ` Error(<error>)` first, then ` <other>`.
pub open spec fn notes_text(error: Option<Seq<char>>, other: Option<Seq<char>>) -> Seq<char> {
    let e = match error {
        Some(e) => " Error("@ + e + ")"@,
        None => Seq::empty(),
    };
    let o = match other {
        Some(o) => " "@ + o,
        None => Seq::empty(),
    };
    e + o
}

/// Nanoseconds from `begin` to `end`: none when `end` comes first, and at
/// most what a `u64` holds.
pub open spec fn elapsed_spec(begin: i128, end: i128) -> u64 {
    if end <= begin {
        0
    } else if end - begin > u64::MAX {
        u64::MAX
    } else {
        (end - begin) as u64
    }
}

/// The view of an optional string.
pub open spec fn opt_view(s: Option<String>) -> Option<Seq<char>> {
    match s {
        Some(t) => Some(t@),
        None => None,
    }
}

/// Appends the redirect target, if any, to an already decoded path.
pub fn redirect_path(path: String, target: Option<String>) -> (r: String)
    ensures
        r@ == path_text(path@, opt_view(target)),
{
    let mut p = path;
    if let Some(t) = target {
        p.append(" -> ");
        p.append(t.as_str());
    }
    p
}

/// Joins the error note and the general note of a request.
pub fn notes(error: Option<String>, other: Option<String>) -> (r: String)
    ensures
        r@ == notes_text(opt_view(error), opt_view(other)),
{
    let mut s = String::new();
    if let Some(e) = error {
        s.append(" Error(");
        s.append(e.as_str());
        s.append(")");
    }
    if let Some(o) = other {
        s.append(" ");
        s.append(o.as_str());
    }
    proof {
        assert(s@ =~= notes_text(opt_view(error), opt_view(other)));
    }
    s
}

/// Nanoseconds from `begin` to `end`, never negative.
pub fn elapsed_between(begin: i128, end: i128) -> (r: u64)
    requires
        instant_in_range(begin),
        instant_in_range(end),
    ensures
        r == elapsed_spec(begin, end),
{
    if end <= begin {
        0
    } else if end - begin > u64::MAX as i128 {
        u64::MAX
    } else {
        (end - begin) as u64
    }
}

/// What the request middleware saw of one exchange.
#[derive(Clone, Debug)]
pub struct Exchange {
    /// When handling began.
    pub begin: Timestamp,
    /// When the response was complete, in nanoseconds since the Unix epoch.
    pub end: i128,
    pub method: String,
    /// The request path as received, still percent-encoded.
    pub raw_path: String,
    /// The response's `Location` header, still percent-encoded.
    pub location: Option<String>,
    /// The response status, if one was set.
    pub status: Option<u16>,
    /// The peer address, or a marker for an unknown kind of address.
    pub ip: String,
    /// The note staged under "error".
    pub error: Option<String>,
    /// The note staged under "other".
    pub other: Option<String>,
}

impl Exchange {
    pub open spec fn wf(&self) -> bool {
        self.begin.wf() && instant_in_range(self.begin.unix_nanos) && instant_in_range(self.end)
    }

    /// Whether the exchange can be recorded: its times are in range.
    pub fn is_valid(&self) -> (r: bool)
        ensures
            r == self.wf(),
    {
        self.begin.is_valid() && instant_ok(self.begin.unix_nanos) && instant_ok(self.end)
    }

    /// The path of the message: the decoded path and decoded redirect target.
    pub open spec fn path_spec(&self) -> Seq<char> {
        path_text(
            percent_decoded(self.raw_path@),
            match self.location {
                Some(l) => Some(percent_decoded(l@)),
                None => None,
            },
        )
    }
}

impl Message {
    /// The message that records `x`.
    pub fn from_exchange(x: Exchange) -> (r: Message)
        requires
            x.wf(),
        ensures
            r.wf(),
            r.begin == x.begin,
            r.elapsed == elapsed_spec(x.begin.unix_nanos, x.end),
            r.method@ == x.method@,
            r.path@ == x.path_spec(),
            r.status == match x.status {
                Some(s) => s,
                None => 0u16,
            },
            r.ip@ == x.ip@,
            r.other@ == notes_text(opt_view(x.error), opt_view(x.other)),
    {
        let path = decode_percent(x.raw_path.as_str());
        let target = match &x.location {
            Some(l) => Some(decode_percent(l.as_str())),
            None => None,
        };
        let path = redirect_path(path, target);
        let status = match x.status {
            Some(s) => s,
            None => 0,
        };
        Message {
            begin: x.begin,
            elapsed: elapsed_between(x.begin.unix_nanos, x.end),
            method: x.method,
            path,
            status,
            ip: x.ip,
            other: notes(x.error, x.other),
        }
    }
}

} // verus!
