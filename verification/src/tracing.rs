//! The span timing table behind the timing log: every span gets a process
//! unique number and remembers its parent's, and entering or leaving a span
//! produces one line of the log.

use std::collections::HashMap;
use std::time::Instant;

use vstd::prelude::*;

use crate::text::{decimal, decimal_string};

verus! {

broadcast use vstd::std_specs::hash::group_hash_axioms;

/// `std::time::Instant`, carried through unread.
#[verifier::external_type_specification]
#[verifier::external_body]
pub struct ExInstant(Instant);

/// What the table knows of a span.
#[derive(Clone, Copy)]
pub struct Timer {
    pub name: &'static str,
    pub unique_id: usize,
    pub start: Instant,
    pub parent_unique_id: Option<usize>,
    pub parent_start: Option<Instant>,
}

/// The timers of the spans seen so far, keyed by span id, and the writer
/// that the log lines go to.
pub struct TimingLayer<W> {
    timers: HashMap<u64, Timer>,
    writer: W,
}

impl<W> View for TimingLayer<W> {
    type V = Map<u64, Timer>;

    closed spec fn view(&self) -> Map<u64, Timer> {
        self.timers@
    }
}

/// The timer a new span gets: its own name, number and start, and, where it
/// has a parent, the parent's number and start as the table holds them.
pub open spec fn new_timer(
    table: Map<u64, Timer>,
    name: &'static str,
    parent_span: Option<u64>,
    unique_id: usize,
    start: Instant,
) -> Timer {
    Timer {
        name,
        unique_id,
        start,
        parent_unique_id: match parent_span {
            Some(p) => Some(table[p].unique_id),
            None => None,
        },
        parent_start: match parent_span {
            Some(p) => Some(table[p].start),
            None => None,
        },
    }
}

/// What `{:?}` prints for a string slice: the string quoted and escaped.
pub uninterp spec fn debug_str(s: Seq<char>) -> Seq<char>;

/// `format!("{:?}", s)` for a string slice, from the standard library.
/// Claimed: the result is `debug_str` of the argument; nothing is said of
/// how the quoting escapes characters.
#[verifier::external_body]
fn debug_format_str(s: &str) -> (r: String)
    ensures
        r@ == debug_str(s@),
{
    format!("{:?}", s)
}

/// What `{:?}` prints for an `Option<usize>`.
pub open spec fn debug_option(o: Option<usize>) -> Seq<char> {
    match o {
        Some(n) => "Some("@ + decimal(n as nat) + ")"@,
        None => "None"@,
    }
}

fn debug_format_option(o: Option<usize>) -> (r: String)
    ensures
        r@ == debug_option(o),
{
    match o {
        Some(n) => {
            let mut r = String::from_str("Some(");
            let digits = decimal_string(n as u128);
            r.append(digits.as_str());
            r.append(")");
            r
        },
        None => String::from_str("None"),
    }
}

/// One line of the timing log (without its newline):
/// `{type:KIND,name:NAME,id:ID,parent_id:PARENT,elapsed:MICROS}`.
pub open spec fn event_line(kind: Seq<char>, timer: Timer, elapsed_micros: nat) -> Seq<char> {
    "{type:"@ + kind + ",name:"@ + debug_str(timer.name@) + ",id:"@ + decimal(
        timer.unique_id as nat,
    ) + ",parent_id:"@ + debug_option(timer.parent_unique_id) + ",elapsed:"@ + decimal(
        elapsed_micros,
    ) + "}"@
}

fn format_event(kind: &str, timer: &Timer, elapsed_micros: u128) -> (line: String)
    ensures
        line@ == event_line(kind@, *timer, elapsed_micros as nat),
{
    let mut line = String::from_str("{type:");
    line.append(kind);
    line.append(",name:");
    let name = debug_format_str(timer.name);
    line.append(name.as_str());
    line.append(",id:");
    let id = decimal_string(timer.unique_id as u128);
    line.append(id.as_str());
    line.append(",parent_id:");
    let parent = debug_format_option(timer.parent_unique_id);
    line.append(parent.as_str());
    line.append(",elapsed:");
    let elapsed = decimal_string(elapsed_micros);
    line.append(elapsed.as_str());
    line.append("}");
    line
}

impl<W> TimingLayer<W> {
    /// The writer that the log lines go to.
    pub closed spec fn sink(&self) -> W {
        self.writer
    }

    /// The writer, to write log lines to; the table stays as it is.
    pub fn writer_mut(&mut self) -> (w: &mut W)
        ensures
            *w == old(self).sink(),
            final(self).sink() == *final(w),
            final(self)@ == old(self)@,
    {
        &mut self.writer
    }

    /// An empty table writing to `writer`.
    pub fn new(writer: W) -> (layer: Self)
        ensures
            layer@ == Map::<u64, Timer>::empty(),
            layer.sink() == writer,
    {
        TimingLayer { timers: HashMap::with_capacity(128), writer }
    }

    /// Records a new span `span_id` named `name`, numbered `unique_id` and
    /// started at `start`, under the span `parent_span` where it has one,
    /// which must be in the table. A span id seen before gets a fresh timer.
    pub fn on_new_span(
        &mut self,
        span_id: u64,
        name: &'static str,
        parent_span: Option<u64>,
        unique_id: usize,
        start: Instant,
    )
        requires
            match parent_span {
                Some(p) => old(self)@.contains_key(p),
                None => true,
            },
        ensures
            final(self)@ == old(self)@.insert(
                span_id,
                new_timer(old(self)@, name, parent_span, unique_id, start),
            ),
            final(self)@.contains_key(span_id),
            final(self)@[span_id].name == name,
            final(self)@[span_id].unique_id == unique_id,
            final(self)@[span_id].start == start,
            match parent_span {
                Some(p) => {
                    &&& final(self)@[span_id].parent_unique_id == Some(old(self)@[p].unique_id)
                    &&& final(self)@[span_id].parent_start == Some(old(self)@[p].start)
                },
                None => {
                    &&& final(self)@[span_id].parent_unique_id is None
                    &&& final(self)@[span_id].parent_start is None
                },
            },
            forall|k: u64|
                k != span_id && old(self)@.contains_key(k) ==> final(self)@.contains_key(k)
                    && #[trigger] final(self)@[k] == old(self)@[k],
            final(self).sink() == old(self).sink(),
    {
        let (parent_unique_id, parent_start) = match parent_span {
            Some(p) => {
                let parent = self.timers.get(&p).unwrap();
                (Some(parent.unique_id), Some(parent.start))
            },
            None => (None, None),
        };
        let _ = self.timers.insert(
            span_id,
            Timer { name, unique_id, start, parent_unique_id, parent_start },
        );
    }

    /// Whether span `span_id` is in the table.
    pub fn has_span(&self, span_id: u64) -> (b: bool)
        ensures
            b == self@.contains_key(span_id),
    {
        self.timers.contains_key(&span_id)
    }

    /// The timer of span `span_id`, which must be in the table.
    pub fn timer(&self, span_id: u64) -> (t: Timer)
        requires
            self@.contains_key(span_id),
        ensures
            t == self@[span_id],
    {
        *self.timers.get(&span_id).unwrap()
    }

    /// The line logged on entering span `span_id`, which must be in the
    /// table. `since_parent_start` is the time in microseconds since the
    /// span's parent started; it is used only where the span has a parent,
    /// and a span without one reports 0.
    pub fn enter_line(&self, span_id: u64, since_parent_start: u128) -> (line: String)
        requires
            self@.contains_key(span_id),
        ensures
            line@ == event_line(
                "enter"@,
                self@[span_id],
                if self@[span_id].parent_start is Some {
                    since_parent_start as nat
                } else {
                    0
                },
            ),
            line@ == "{type:"@ + "enter"@ + ",name:"@ + debug_str(self@[span_id].name@) + ",id:"@
                + decimal(self@[span_id].unique_id as nat) + ",parent_id:"@ + match self@[span_id].parent_unique_id {
                Some(p) => "Some("@ + decimal(p as nat) + ")"@,
                None => "None"@,
            } + ",elapsed:"@ + if self@[span_id].parent_start is Some {
                decimal(since_parent_start as nat)
            } else {
                seq!['0']
            } + "}"@,
    {
        let timer = self.timer(span_id);
        let elapsed: u128 = match timer.parent_start {
            Some(_) => since_parent_start,
            None => 0,
        };
        format_event("enter", &timer, elapsed)
    }

    /// The line logged on leaving span `span_id`, which must be in the
    /// table, `since_start` microseconds after the span started.
    pub fn exit_line(&self, span_id: u64, since_start: u128) -> (line: String)
        requires
            self@.contains_key(span_id),
        ensures
            line@ == event_line("exit"@, self@[span_id], since_start as nat),
            line@ == "{type:"@ + "exit"@ + ",name:"@ + debug_str(self@[span_id].name@) + ",id:"@
                + decimal(self@[span_id].unique_id as nat) + ",parent_id:"@ + match self@[span_id].parent_unique_id {
                Some(p) => "Some("@ + decimal(p as nat) + ")"@,
                None => "None"@,
            } + ",elapsed:"@ + decimal(since_start as nat) + "}"@,
    {
        let timer = self.timer(span_id);
        format_event("exit", &timer, since_start)
    }
}

} // verus!
