//! The consumer side of the logger: each message, in the order received,
//! goes to every sink in their fixed order, and one sink's outcome never
//! touches another sink.
use vstd::prelude::*;
use crate::message::Message;
use crate::output::{OutFile, OutputMethod, Render};
use crate::timestamp::{CalendarDate, Timestamp};

verus! {

/// The fixed list of sinks and, as ghost state, what was submitted and what
/// each sink was handed.
pub struct Dispatcher {
    pub sinks: Vec<OutputMethod>,
    /// Messages in the order they were delivered.
    pub submitted: Ghost<Seq<Message>>,
    /// For each sink, the messages it was handed, in order.
    pub received: Ghost<Seq<Seq<Message>>>,
}

impl Dispatcher {
    pub open spec fn wf(&self) -> bool {
        &&& forall|i: int| 0 <= i < self.sinks@.len() ==> (#[trigger] self.sinks@[i]).wf()
        &&& self.received@.len() == self.sinks@.len()
        &&& forall|i: int|
            0 <= i < self.sinks@.len() ==> #[trigger] self.received@[i] == self.submitted@
    }

    /// A dispatcher over `sinks`, in that order, that has delivered nothing.
    pub fn new(sinks: Vec<OutputMethod>) -> (r: Dispatcher)
        requires
            forall|i: int| 0 <= i < sinks@.len() ==> (#[trigger] sinks@[i]).wf(),
        ensures
            r.wf(),
            r.sinks@ == sinks@,
            r.submitted@ == Seq::<Message>::empty(),
    {
        let ghost n = sinks@.len();
        Dispatcher {
            sinks,
            submitted: Ghost(Seq::empty()),
            received: Ghost(Seq::new(n, |_i: int| Seq::<Message>::empty())),
        }
    }

    /// The number of sinks.
    pub fn sink_count(&self) -> (r: usize)
        ensures
            r == self.sinks@.len(),
    {
        self.sinks.len()
    }

    /// What each sink, in order, must do with `m`.
    pub fn deliver(&mut self, m: &Message) -> (r: Vec<Render>)
        requires
            old(self).wf(),
            m.wf(),
        ensures
            final(self).wf(),
            final(self).sinks@ == old(self).sinks@,
            final(self).submitted@ == old(self).submitted@.push(*m),
            r@.len() == old(self).sinks@.len(),
            forall|i: int| 0 <= i < r@.len() ==> old(self).sinks@[i].renders(m, &#[trigger] r@[i]),
            forall|i: int|
                0 <= i < r@.len() ==> #[trigger] final(self).received@[i] == old(
                    self,
                ).received@[i].push(*m),
    {
        let mut r: Vec<Render> = Vec::new();
        let mut i: usize = 0;
        while i < self.sinks.len()
            invariant
                self.wf(),
                m.wf(),
                i <= self.sinks@.len(),
                r@.len() == i,
                forall|j: int| 0 <= j < i ==> self.sinks@[j].renders(m, &#[trigger] r@[j]),
            decreases self.sinks@.len() - i,
        {
            let out = self.sinks[i].output(m);
            r.push(out);
            i = i + 1;
        }
        let ghost n = self.sinks@.len();
        proof {
            let old_received = self.received@;
            self.submitted@ = self.submitted@.push(*m);
            self.received@ = Seq::new(n, |j: int| old_received[j].push(*m));
        }
        r
    }

    /// Takes in the outcome at sink `i` of the last delivery: `opened` is the
    /// date whose file it switched to, or none when it did not switch or failed.
    pub fn settle(&mut self, i: usize, opened: Option<CalendarDate>)
        requires
            old(self).wf(),
            i < old(self).sinks@.len(),
            opened matches Some(d) ==> d.wf(),
        ensures
            final(self).wf(),
            final(self).sinks@ == old(self).sinks@.update(i as int, old(self).sinks@[i as int].settled(opened)),
            final(self).submitted == old(self).submitted,
            final(self).received == old(self).received,
    {
        let mut sink = self.sinks.remove(i);
        sink.settle(opened);
        self.sinks.insert(i, sink);
        assert(self.sinks@ =~= old(self).sinks@.update(i as int, old(self).sinks@[i as int].settled(opened)));
    }
}

/// Every sink is handed every delivered message, each once, in the order
/// of delivery.
pub proof fn lemma_every_sink_in_order(d: &Dispatcher)
    requires
        d.wf(),
    ensures
        forall|i: int|
            0 <= i < d.sinks@.len() ==> #[trigger] d.received@[i] == d.submitted@
                && d.received@[i].len() == d.submitted@.len(),
{
}

/// The outcome at one sink, a failure included, leaves every other sink as
/// it was; a failure leaves the failing sink as it was too.
pub proof fn lemma_sink_isolation(sinks: Seq<OutputMethod>, i: int, opened: Option<CalendarDate>)
    requires
        0 <= i < sinks.len(),
    ensures
        forall|j: int|
            0 <= j < sinks.len() && j != i ==> #[trigger] sinks.update(i, sinks[i].settled(opened))[j]
                == sinks[j],
        sinks[i].settled(None) == sinks[i],
{
}

/// A message of another date than the open file's makes a file sink switch
/// to the file named with that date; once switched, messages of that date
/// stay in that file.
pub proof fn lemma_rotation(f: OutFile, m: Timestamp, n: Timestamp)
    requires
        m.date_spec() != f.created_at,
        n.date_spec() == m.date_spec(),
    ensures
        f.must_rotate(m),
        !f.reopened(m.date_spec()).must_rotate(n),
        f.reopened(m.date_spec()).name_for(n.date_spec()) == f.name_for(m.date_spec()),
{
}

/// The uncolored line depends on the message's content alone, so rendering
/// one message twice, or two equal messages, yields the same text.
pub proof fn lemma_plain_line_deterministic(a: Message, b: Message)
    requires
        a.begin == b.begin,
        a.elapsed == b.elapsed,
        a.method@ == b.method@,
        a.path@ == b.path@,
        a.status == b.status,
        a.ip@ == b.ip@,
        a.other@ == b.other@,
    ensures
        a.plain_line() == b.plain_line(),
        a.color_line() == b.color_line(),
{
}

} // verus!
