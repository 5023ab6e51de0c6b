//! Sinks: what each one does with a message, short of the I/O itself.
use vstd::prelude::*;
use crate::message::Message;
use crate::template::{replace_all, replace_text};
use crate::timestamp::{CalendarDate, Timestamp};

verus! {

/// Nanoseconds in a day.
pub const NANOS_PER_DAY: i128 = 86_400_000_000_000;

/// Bound on the instants handled, far beyond any representable date.
pub const MAX_INSTANT: i128 = 1_000_000_000_000_000_000_000_000;

/// Whole days in a span of nanoseconds, truncated toward zero.
pub open spec fn whole_days(span: int) -> int {
    if span >= 0 {
        span / (NANOS_PER_DAY as int)
    } else {
        -((-span) / (NANOS_PER_DAY as int))
    }
}

/// Whether an instant lies in the handled range.
pub open spec fn instant_in_range(t: i128) -> bool {
    -MAX_INSTANT <= t <= MAX_INSTANT
}

/// Whether an instant lies in the handled range.
pub fn instant_ok(t: i128) -> (r: bool)
    ensures
        r == instant_in_range(t),
{
    -MAX_INSTANT <= t && t <= MAX_INSTANT
}

/// Whether a file created at `created` is past a retention of `days` at `now`.
pub open spec fn expired(now: i128, created: i128, days: i64) -> bool {
    whole_days(now - created) > days
}

/// The placeholder that file-name templates carry.
pub open spec fn placeholder() -> Seq<char> {
    "{date}"@
}

/// Writes messages to the terminal, colored or plain.
#[derive(Clone, Copy, Debug, PartialEq, Eq, Structural)]
pub struct Stdout {
    pub color: bool,
}

impl Stdout {
    pub open spec fn line(&self, m: &Message) -> Seq<char> {
        if self.color {
            m.color_line()
        } else {
            m.plain_line()
        }
    }

    /// The line this sink prints for `m`.
    pub fn output(&self, m: &Message) -> (r: String)
        requires
            m.wf(),
        ensures
            r@ == self.line(m),
    {
        if self.color {
            m.write_color()
        } else {
            m.write()
        }
    }
}

impl Default for Stdout {
    fn default() -> (r: Stdout)
        ensures
            r.color,
    {
        Stdout { color: true }
    }
}

/// A switch to the file of another date.
#[derive(Clone, Debug)]
pub struct Rotation {
    /// The name of the file to open, inside the sink's directory.
    pub file_name: String,
    /// The date that file holds.
    pub date: CalendarDate,
}

/// Appends messages to one file per date in a directory, removing old files
/// on each change of date when a retention window is set.
#[derive(Clone, Debug)]
pub struct OutFile {
    /// File-name template; each `{date}` stands for the date as `YYYY-MM-DD`.
    pub name: String,
    /// Directory of the log files.
    pub path: String,
    /// Retention window in days.
    pub delete: Option<i64>,
    /// Date of the file currently open.
    pub created_at: CalendarDate,
}

impl OutFile {
    pub open spec fn wf(&self) -> bool {
        self.created_at.wf()
    }

    /// The name of the file that holds `date`.
    pub open spec fn name_for(&self, date: CalendarDate) -> Seq<char> {
        replace_all(self.name@, placeholder(), date.text())
    }

    /// The sink with the file of `date` open.
    pub open spec fn reopened(&self, date: CalendarDate) -> OutFile {
        OutFile { created_at: date, ..*self }
    }

    /// Whether a message begun at `t` must go to another file than the open
    /// one: whenever its date differs, earlier dates included. Files are
    /// opened for appending, so going back to an earlier date loses nothing.
    pub open spec fn must_rotate(&self, t: Timestamp) -> bool {
        t.date_spec() != self.created_at
    }

    /// A sink whose open file holds `today`.
    pub fn new(path: String, name: String, delete: Option<i64>, today: CalendarDate) -> (r: OutFile)
        ensures
            r.path == path,
            r.name == name,
            r.delete == delete,
            r.created_at == today,
    {
        OutFile { name, path, delete, created_at: today }
    }

    /// The file name for `date`.
    pub fn file_name(&self, date: CalendarDate) -> (r: String)
        requires
            date.wf(),
        ensures
            r@ == self.name_for(date),
    {
        let d = date.to_text();
        proof {
            reveal_strlit("{date}");
        }
        replace_text(self.name.as_str(), "{date}", d.as_str())
    }

    /// Which of the directory's files the retention window removes at `now`,
    /// given each file's creation instant: none without a window.
    pub fn delete_log_file(&self, now: &Timestamp, created: &Vec<i128>) -> (r: Vec<bool>)
        requires
            instant_in_range(now.unix_nanos),
            forall|i: int| 0 <= i < created@.len() ==> instant_in_range(#[trigger] created@[i]),
        ensures
            r@.len() == created@.len(),
            forall|i: int|
                0 <= i < created@.len() ==> #[trigger] r@[i] == match self.delete {
                    Some(days) => expired(now.unix_nanos, created@[i], days),
                    None => false,
                },
    {
        let mut r: Vec<bool> = Vec::new();
        let mut i: usize = 0;
        while i < created.len()
            invariant
                instant_in_range(now.unix_nanos),
                forall|j: int| 0 <= j < created@.len() ==> instant_in_range(#[trigger] created@[j]),
                i <= created@.len(),
                r@.len() == i,
                forall|j: int|
                    0 <= j < i ==> #[trigger] r@[j] == match self.delete {
                        Some(days) => expired(now.unix_nanos, created@[j], days),
                        None => false,
                    },
            decreases created@.len() - i,
        {
            let gone = match self.delete {
                Some(days) => {
                    let span: i128 = now.unix_nanos - created[i];
                    let whole: i128 = if span >= 0 {
                        span / NANOS_PER_DAY
                    } else {
                        -((-span) / NANOS_PER_DAY)
                    };
                    whole > days as i128
                },
                None => false,
            };
            r.push(gone);
            i = i + 1;
        }
        r
    }

    /// The switch to the file of `now`'s date.
    pub fn update_log_file(&self, now: &Timestamp) -> (r: Rotation)
        requires
            now.wf(),
        ensures
            r.file_name@ == self.name_for(now.date_spec()),
            r.date == now.date_spec(),
    {
        let date = now.date();
        Rotation { file_name: self.file_name(date), date }
    }

    /// What writing `m` takes: a switch of file when its date differs from
    /// the open file's, then the uncolored line.
    pub fn output(&self, m: &Message) -> (r: (Option<Rotation>, String))
        requires
            m.wf(),
        ensures
            r.1@ == m.plain_line(),
            r.0.is_some() == self.must_rotate(m.begin),
            r.0 matches Some(rot) ==> rot.file_name@ == self.name_for(m.begin.date_spec())
                && rot.date == m.begin.date_spec(),
    {
        let rotation = if m.begin.date() != self.created_at {
            Some(self.update_log_file(&m.begin))
        } else {
            None
        };
        (rotation, m.write())
    }

    /// Records that the file of `date` is now the open one.
    pub fn rotated(&mut self, date: CalendarDate)
        ensures
            *final(self) == old(self).reopened(date),
    {
        self.created_at = date;
    }
}

/// A sink of either kind.
#[derive(Clone, Debug)]
pub enum OutputMethod {
    Stdout(Stdout),
    OutputFile(OutFile),
}

/// What a sink must do with one message.
#[derive(Clone, Debug)]
pub enum Render {
    /// Print this line to standard output.
    Console(String),
    /// Switch files first when a rotation is given, then append this line.
    File(Option<Rotation>, String),
}

impl OutputMethod {
    pub open spec fn wf(&self) -> bool {
        match self {
            OutputMethod::Stdout(_) => true,
            OutputMethod::OutputFile(f) => f.wf(),
        }
    }

    /// Whether `r` is what this sink must do with `m`.
    pub open spec fn renders(&self, m: &Message, r: &Render) -> bool {
        match (self, r) {
            (OutputMethod::Stdout(o), Render::Console(line)) => line@ == o.line(m),
            (OutputMethod::OutputFile(f), Render::File(rot, line)) => {
                &&& line@ == m.plain_line()
                &&& rot.is_some() == f.must_rotate(m.begin)
                &&& rot matches Some(x) ==> x.file_name@ == f.name_for(m.begin.date_spec())
                    && x.date == m.begin.date_spec()
            },
            _ => false,
        }
    }

    /// The sink after the outcome of its last render: a file sink that has
    /// opened the file of `opened` holds that date; anything else is kept.
    pub open spec fn settled(&self, opened: Option<CalendarDate>) -> OutputMethod {
        match (self, opened) {
            (OutputMethod::OutputFile(f), Some(d)) => OutputMethod::OutputFile(f.reopened(d)),
            _ => *self,
        }
    }

    /// What this sink must do with `m`.
    pub fn output(&self, m: &Message) -> (r: Render)
        requires
            m.wf(),
        ensures
            self.renders(m, &r),
    {
        match self {
            OutputMethod::Stdout(o) => Render::Console(o.output(m)),
            OutputMethod::OutputFile(f) => {
                let (rot, line) = f.output(m);
                Render::File(rot, line)
            },
        }
    }

    /// Takes in the outcome of the last render: `opened` is the date whose
    /// file a file sink has opened, if it switched files.
    pub fn settle(&mut self, opened: Option<CalendarDate>)
        requires
            old(self).wf(),
            opened matches Some(d) ==> d.wf(),
        ensures
            *final(self) == old(self).settled(opened),
            final(self).wf(),
    {
        match self {
            OutputMethod::OutputFile(f) => {
                if let Some(d) = opened {
                    f.rotated(d);
                }
            },
            OutputMethod::Stdout(_) => {},
        }
    }
}

} // verus!
