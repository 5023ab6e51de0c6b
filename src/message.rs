//! One completed request's telemetry and its single-line renderings.
use vstd::prelude::*;
use crate::text::{decimal, pad_left, pad_right, push_decimal, push_pad_left, push_pad_right};
use crate::timestamp::Timestamp;

verus! {

/// A color of the console palette.
#[derive(Clone, Copy, Debug, PartialEq, Eq, Structural)]
pub enum Color {
    Blue,
    Green,
    Yellow,
    Red,
    Purple,
}

/// The background color of a status code.
pub open spec fn status_bucket(status: u16) -> Color {
    if status < 200 {
        Color::Blue
    } else if status < 300 {
        Color::Green
    } else if status < 400 {
        Color::Yellow
    } else if status < 600 {
        Color::Red
    } else {
        Color::Purple
    }
}

/// The foreground color of an elapsed time in whole milliseconds.
pub open spec fn elapsed_bucket(ms: u64) -> Color {
    if ms < 10 {
        Color::Green
    } else if ms < 20 {
        Color::Blue
    } else if ms < 30 {
        Color::Yellow
    } else {
        Color::Red
    }
}

/// The background color of a request method.
pub open spec fn method_bucket(method: Seq<char>) -> Color {
    if method == "GET"@ {
        Color::Green
    } else if method == "POST"@ {
        Color::Blue
    } else if method == "PATCH"@ || method == "PUT"@ {
        Color::Yellow
    } else if method == "DELETE"@ {
        Color::Red
    } else {
        Color::Purple
    }
}

/// The escape sequence that selects `c` as foreground color.
pub open spec fn fg_spec(c: Color) -> Seq<char> {
    match c {
        Color::Red => "\x1b[31m"@,
        Color::Green => "\x1b[32m"@,
        Color::Yellow => "\x1b[33m"@,
        Color::Blue => "\x1b[34m"@,
        Color::Purple => "\x1b[35m"@,
    }
}

/// The escape sequence that selects `c` as background color.
pub open spec fn bg_spec(c: Color) -> Seq<char> {
    match c {
        Color::Red => "\x1b[41m"@,
        Color::Green => "\x1b[42m"@,
        Color::Yellow => "\x1b[43m"@,
        Color::Blue => "\x1b[44m"@,
        Color::Purple => "\x1b[45m"@,
    }
}

/// The escape sequence that resets all attributes.
pub open spec fn reset_spec() -> Seq<char> {
    "\x1b[0m"@
}

impl Color {
    /// The escape sequence that selects this color as foreground.
    pub fn fg(self) -> (r: &'static str)
        ensures
            r@ == fg_spec(self),
    {
        match self {
            Color::Red => "\x1b[31m",
            Color::Green => "\x1b[32m",
            Color::Yellow => "\x1b[33m",
            Color::Blue => "\x1b[34m",
            Color::Purple => "\x1b[35m",
        }
    }

    /// The escape sequence that selects this color as background.
    pub fn bg(self) -> (r: &'static str)
        ensures
            r@ == bg_spec(self),
    {
        match self {
            Color::Red => "\x1b[41m",
            Color::Green => "\x1b[42m",
            Color::Yellow => "\x1b[43m",
            Color::Blue => "\x1b[44m",
            Color::Purple => "\x1b[45m",
        }
    }
}

/// The color bucket of a status code: `[0,200)` blue, `[200,300)` green,
/// `[300,400)` yellow, `[400,600)` red, anything else purple.
pub fn status_color(status: u16) -> (r: Color)
    ensures
        r == status_bucket(status),
{
    if status < 200 {
        Color::Blue
    } else if status < 300 {
        Color::Green
    } else if status < 400 {
        Color::Yellow
    } else if status < 600 {
        Color::Red
    } else {
        Color::Purple
    }
}

/// The color bucket of an elapsed time in whole milliseconds: under 10 green,
/// under 20 blue, under 30 yellow, red from 30 on.
pub fn elapsed_color(ms: u64) -> (r: Color)
    ensures
        r == elapsed_bucket(ms),
{
    if ms < 10 {
        Color::Green
    } else if ms < 20 {
        Color::Blue
    } else if ms < 30 {
        Color::Yellow
    } else {
        Color::Red
    }
}

fn same_text(a: &String, b: &str) -> (r: bool)
    ensures
        r == (a@ == b@),
{
    let t = String::from_str(b);
    a.eq(&t)
}

/// The color bucket of a request method: GET green, POST blue, PATCH and PUT
/// yellow, DELETE red, any other verb purple.
pub fn method_color(method: &String) -> (r: Color)
    ensures
        r == method_bucket(method@),
{
    if same_text(method, "GET") {
        Color::Green
    } else if same_text(method, "POST") {
        Color::Blue
    } else if same_text(method, "PATCH") || same_text(method, "PUT") {
        Color::Yellow
    } else if same_text(method, "DELETE") {
        Color::Red
    } else {
        Color::Purple
    }
}

/// Telemetry of one completed request. It is never changed once built.
#[derive(Clone, Debug)]
pub struct Message {
    /// When handling of the request began.
    pub begin: Timestamp,
    /// Time from `begin` to completion, in nanoseconds.
    pub elapsed: u64,
    pub method: String,
    /// The decoded path, followed by ` -> <target>` for a redirect.
    pub path: String,
    /// The response status; `0` when none was set.
    pub status: u16,
    pub ip: String,
    /// Notes attached while the request was handled, each after one space.
    pub other: String,
}

impl Message {
    pub open spec fn wf(&self) -> bool {
        self.begin.wf()
    }

    /// Whole milliseconds of the elapsed time.
    pub open spec fn elapsed_ms(&self) -> u64 {
        self.elapsed / 1_000_000
    }

    /// The elapsed milliseconds, right-aligned to three places, then `ms`.
    pub open spec fn elapsed_text(&self) -> Seq<char> {
        pad_left(decimal(self.elapsed_ms() as nat), 3, ' ') + "ms"@
    }

    /// The uncolored line: timestamp, tag, status, elapsed time, peer address
    /// left-aligned to 15, method right-aligned to 6, path and notes.
    pub open spec fn plain_line(&self) -> Seq<char> {
        "["@ + self.begin.text() + "] "@ + "SALVO │ "@ + decimal(self.status as nat) + " │ "@
            + self.elapsed_text() + " │ "@ + pad_right(self.ip@, 15) + " │ "@ + pad_left(
            self.method@,
            6,
            ' ',
        ) + " │ "@ + self.path@ + " "@ + self.other@ + "\n"@
    }

    /// The line with status, elapsed time, address and method wrapped in
    /// their colors.
    pub open spec fn color_line(&self) -> Seq<char> {
        "["@ + self.begin.text() + "] "@ + fg_spec(Color::Yellow) + "SALVO"@ + reset_spec()
            + " │ "@ + bg_spec(status_bucket(self.status)) + " "@ + decimal(self.status as nat)
            + " "@ + reset_spec() + " │ "@ + fg_spec(elapsed_bucket(self.elapsed_ms()))
            + self.elapsed_text() + reset_spec() + " │ "@ + fg_spec(Color::Yellow) + pad_right(
            self.ip@,
            15,
        ) + reset_spec() + " │ "@ + bg_spec(method_bucket(self.method@)) + " "@ + pad_left(
            self.method@,
            6,
            ' ',
        ) + " "@ + reset_spec() + " "@ + self.path@ + " "@ + fg_spec(Color::Red) + self.other@
            + reset_spec() + "\n"@
    }

    fn push_elapsed(&self, out: &mut String)
        ensures
            final(out)@ == old(out)@ + self.elapsed_text(),
    {
        let d = crate::text::decimal_string(self.elapsed / 1_000_000);
        proof {
            reveal_strlit(" ");
        }
        push_pad_left(out, d.as_str(), 3, " ");
        out.append("ms");
    }

    /// The uncolored line, as written to log files.
    pub fn write(&self) -> (r: String)
        requires
            self.wf(),
        ensures
            r@ == self.plain_line(),
    {
        let mut s = String::from_str("[");
        let stamp = self.begin.to_text();
        s.append(stamp.as_str());
        s.append("] ");
        s.append("SALVO │ ");
        push_decimal(&mut s, self.status as u64);
        s.append(" │ ");
        self.push_elapsed(&mut s);
        s.append(" │ ");
        push_pad_right(&mut s, self.ip.as_str(), 15);
        s.append(" │ ");
        proof {
            reveal_strlit(" ");
        }
        push_pad_left(&mut s, self.method.as_str(), 6, " ");
        s.append(" │ ");
        s.append(self.path.as_str());
        s.append(" ");
        s.append(self.other.as_str());
        s.append("\n");
        assert(s@ =~= self.plain_line());
        s
    }

    /// The colored line, as written to a terminal.
    pub fn write_color(&self) -> (r: String)
        requires
            self.wf(),
        ensures
            r@ == self.color_line(),
    {
        let reset = "\x1b[0m";
        let mut s = String::from_str("[");
        let stamp = self.begin.to_text();
        s.append(stamp.as_str());
        s.append("] ");
        s.append(Color::Yellow.fg());
        s.append("SALVO");
        s.append(reset);
        s.append(" │ ");
        s.append(status_color(self.status).bg());
        s.append(" ");
        push_decimal(&mut s, self.status as u64);
        s.append(" ");
        s.append(reset);
        s.append(" │ ");
        s.append(elapsed_color(self.elapsed / 1_000_000).fg());
        self.push_elapsed(&mut s);
        s.append(reset);
        s.append(" │ ");
        s.append(Color::Yellow.fg());
        push_pad_right(&mut s, self.ip.as_str(), 15);
        s.append(reset);
        s.append(" │ ");
        s.append(method_color(&self.method).bg());
        s.append(" ");
        proof {
            reveal_strlit(" ");
        }
        push_pad_left(&mut s, self.method.as_str(), 6, " ");
        s.append(" ");
        s.append(reset);
        s.append(" ");
        s.append(self.path.as_str());
        s.append(" ");
        s.append(Color::Red.fg());
        s.append(self.other.as_str());
        s.append(reset);
        s.append("\n");
        assert(s@ =~= self.color_line());
        s
    }
}

} // verus!
