use vstd::arithmetic::div_mod::lemma_fundamental_div_mod_converse;
use vstd::prelude::*;

use crate::session::{texts, ToDo, ToDoView};
use crate::text::{MAX_SPAN, NANOS_PER_SEC};
use crate::time::Time;

verus! {

/// Nanoseconds in one millisecond.
pub const NANOS_PER_MILLI: u128 = 1_000_000;

/// Why a document could not be turned into a session.
#[derive(Debug, Clone, Copy, PartialEq, Eq)]
pub enum DecodeError {
    /// A span holds fewer than two numbers.
    MissingSpan,
    /// A span's millisecond part is 1000 or more.
    MillisOutOfRange,
}

/// A span as stored: whole seconds and the milliseconds beyond them.
pub open spec fn parts_of(nanos: nat) -> (u64, u32) {
    ((nanos / NANOS_PER_SEC as nat) as u64, ((nanos % NANOS_PER_SEC as nat) / NANOS_PER_MILLI as nat) as u32)
}

/// The nanoseconds a stored span stands for.
pub open spec fn span_of(parts: (u64, u32)) -> nat {
    (parts.0 * NANOS_PER_SEC + parts.1 * NANOS_PER_MILLI) as nat
}

/// `nanos` cut down to whole milliseconds.
pub open spec fn whole_millis(nanos: nat) -> nat {
    (nanos / NANOS_PER_MILLI as nat) * NANOS_PER_MILLI as nat
}

/// A stopwatch's total at `now`, refreshed first if it is running.
pub open spec fn total_at(t: Time, running: bool, now: u64) -> nat {
    if running {
        t.ticked(now).total()
    } else {
        t.total()
    }
}

/// The persisted form of a session, as mathematical values.
pub struct DocumentView {
    pub completed: u32,
    pub removed: u32,
    pub tasks: Seq<Seq<char>>,
    pub break_time: (u64, u32),
    pub cur_task: (u64, u32),
    pub prev_task: (u64, u32),
}

impl DocumentView {
    /// Every millisecond part lies in `[0, 999]`.
    pub open spec fn wf(self) -> bool {
        &&& self.break_time.1 < 1000
        &&& self.cur_task.1 < 1000
        &&& self.prev_task.1 < 1000
    }

    /// The session this document restores at `now`: tasks and counters as
    /// stored, each span banked in a stopwatch that starts at `now`.
    pub open spec fn decoded(self, now: u64) -> ToDoView {
        ToDoView {
            tasks: self.tasks,
            complete: self.completed,
            removed: self.removed,
            current_task: Time::started(now, span_of(self.cur_task)),
            last_task: Time::started(now, span_of(self.prev_task)),
            break_time: Time::started(now, span_of(self.break_time)),
            ..ToDoView::fresh(now)
        }
    }
}

impl ToDoView {
    /// The tasks shown to the user, without a draft.
    pub open spec fn visible_tasks(self) -> Seq<Seq<char>> {
        self.tasks.take(self.visible_len() as int)
    }

    /// The document saved at `now`: visible tasks, counters, and each
    /// stopwatch's total at `now` split into seconds and milliseconds.
    pub open spec fn encoded(self, now: u64) -> DocumentView {
        DocumentView {
            completed: self.complete,
            removed: self.removed,
            tasks: self.visible_tasks(),
            break_time: parts_of(total_at(self.break_time, self.break_running(), now)),
            cur_task: parts_of(total_at(self.current_task, self.current_running(), now)),
            prev_task: parts_of(self.last_task.total()),
        }
    }
}

/// The persisted form of a session.
#[derive(Debug)]
pub struct Document {
    pub completed: u32,
    pub removed: u32,
    pub tasks: Vec<String>,
    pub break_time: (u64, u32),
    pub cur_task: (u64, u32),
    pub prev_task: (u64, u32),
}

impl View for Document {
    type V = DocumentView;

    open spec fn view(&self) -> DocumentView {
        DocumentView {
            completed: self.completed,
            removed: self.removed,
            tasks: texts(self.tasks@),
            break_time: self.break_time,
            cur_task: self.cur_task,
            prev_task: self.prev_task,
        }
    }
}

/// Splits a span into whole seconds and the milliseconds beyond them.
pub fn span_parts(nanos: u128) -> (r: (u64, u32))
    requires
        nanos <= MAX_SPAN,
    ensures
        r == parts_of(nanos as nat),
        r.1 < 1000,
{
    let secs: u64 = (nanos / NANOS_PER_SEC) as u64;
    let millis: u32 = ((nanos % NANOS_PER_SEC) / NANOS_PER_MILLI) as u32;
    (secs, millis)
}

/// The nanoseconds of a stored span.
pub fn parts_span(parts: (u64, u32)) -> (r: u128)
    requires
        parts.1 < 1000,
    ensures
        r as nat == span_of(parts),
        r <= MAX_SPAN,
{
    parts.0 as u128 * NANOS_PER_SEC + parts.1 as u128 * NANOS_PER_MILLI
}

impl ToDo {
    /// The document to save at `now`.
    pub fn to_document(&self, now: u64) -> (r: Document)
        requires
            self@.wf(),
            self@.fits_at(now),
        ensures
            r@ == self@.encoded(now),
            r@.wf(),
    {
        let visible: usize = if self.add { self.tasks.len() - 1 } else { self.tasks.len() };
        let mut tasks: Vec<String> = Vec::new();
        let mut i: usize = 0;
        while i < visible
            invariant
                visible == self@.visible_len(),
                visible <= self.tasks.len(),
                i <= visible,
                texts(tasks@) =~= texts(self.tasks@).take(i as int),
            decreases visible - i,
        {
            let ghost before = tasks@;
            tasks.push(self.tasks[i].clone());
            assert(texts(tasks@) =~= texts(before).push(self.tasks@[i as int]@));
            i = i + 1;
        }
        let mut current = self.current_task;
        if !self.rest {
            current.tick(now);
        }
        let mut pause = self.break_time;
        if self.rest && !self.sleep {
            pause.tick(now);
        }
        Document {
            completed: self.complete,
            removed: self.removed,
            tasks,
            break_time: span_parts(pause.export_time()),
            cur_task: span_parts(current.export_time()),
            prev_task: span_parts(self.last_task.export_time()),
        }
    }
}

impl Document {
    /// The session this document restores, with stopwatches starting at
    /// `now`; fails exactly when a millisecond part is out of range.
    pub fn decode(self, now: u64) -> (r: Result<ToDo, DecodeError>)
        ensures
            self@.wf() <==> r is Ok,
            r is Ok ==> r->Ok_0@ == self@.decoded(now) && r->Ok_0@.wf(),
            r is Err ==> r->Err_0 == DecodeError::MillisOutOfRange,
    {
        if self.cur_task.1 >= 1000 || self.prev_task.1 >= 1000 || self.break_time.1 >= 1000 {
            return Err(DecodeError::MillisOutOfRange);
        }
        let cur = parts_span(self.cur_task);
        let prev = parts_span(self.prev_task);
        let pause = parts_span(self.break_time);
        Ok(ToDo::from(self.tasks, self.completed, self.removed, cur, prev, pause, now))
    }
}

/// The values present, in order, with the gaps left out.
pub open spec fn present<T>(s: Seq<Option<T>>) -> Seq<T>
    decreases s.len(),
{
    if s.len() == 0 {
        Seq::empty()
    } else {
        let rest = present(s.drop_last());
        match s.last() {
            Option::Some(x) => rest.push(x),
            Option::None => rest,
        }
    }
}

/// The first two numbers of a stored span, if it has two.
pub open spec fn first_two(s: Seq<Option<u64>>) -> Option<(u64, u64)> {
    let n = present(s);
    if n.len() >= 2 {
        Some((n[0], n[1]))
    } else {
        None
    }
}

/// A stored span read loosely: `Ok` with its parts when it has two numbers
/// and a millisecond part in range.
pub open spec fn read_span(s: Seq<Option<u64>>) -> Result<(u64, u32), DecodeError> {
    match first_two(s) {
        Option::None => Err(DecodeError::MissingSpan),
        Option::Some(p) => if p.1 < 1000 {
            Ok((p.0, p.1 as u32))
        } else {
            Err(DecodeError::MillisOutOfRange)
        },
    }
}

/// A document as read from storage, before any check: each field that may be
/// absent is an `Option`, and each list member that has the wrong kind is `None`.
#[derive(Debug)]
pub struct RawDocument {
    pub completed: Option<u32>,
    pub removed: Option<u32>,
    pub tasks: Vec<Option<String>>,
    pub break_time: Vec<Option<u64>>,
    pub cur_task: Vec<Option<u64>>,
    pub prev_task: Vec<Option<u64>>,
}

impl RawDocument {
    /// The document this stands for: absent counters count zero, members of
    /// the wrong kind are skipped, and the spans are read in the order current
    /// task, last task, break; the first that cannot be read gives the error.
    pub open spec fn checked(self) -> Result<DocumentView, DecodeError> {
        match (read_span(self.cur_task@), read_span(self.prev_task@), read_span(self.break_time@)) {
            (Ok(cur), Ok(prev), Ok(pause)) => Ok(
                DocumentView {
                    completed: match self.completed {
                        Option::Some(c) => c,
                        Option::None => 0,
                    },
                    removed: match self.removed {
                        Option::Some(c) => c,
                        Option::None => 0,
                    },
                    tasks: texts(present(self.tasks@)),
                    break_time: pause,
                    cur_task: cur,
                    prev_task: prev,
                },
            ),
            (Err(e), _, _) => Err(e),
            (Ok(_), Err(e), _) => Err(e),
            (Ok(_), Ok(_), Err(e)) => Err(e),
        }
    }
}

proof fn lemma_present_step<T>(s: Seq<Option<T>>, i: int)
    requires
        0 <= i < s.len(),
    ensures
        present(s.take(i + 1)) == match s[i] {
            Option::Some(x) => present(s.take(i)).push(x),
            Option::None => present(s.take(i)),
        },
{
    assert(s.take(i + 1).drop_last() =~= s.take(i));
}

/// The texts present in `tasks`, in order.
fn present_tasks(tasks: &Vec<Option<String>>) -> (r: Vec<String>)
    ensures
        r@ == present(tasks@),
{
    let mut out: Vec<String> = Vec::new();
    let mut i: usize = 0;
    while i < tasks.len()
        invariant
            i <= tasks.len(),
            out@ == present(tasks@.take(i as int)),
        decreases tasks.len() - i,
    {
        proof { lemma_present_step(tasks@, i as int); }
        match &tasks[i] {
            Option::Some(t) => out.push(t.clone()),
            Option::None => {},
        }
        i = i + 1;
    }
    assert(tasks@.take(tasks.len() as int) =~= tasks@);
    out
}

/// Reads a stored span loosely.
fn span_from(numbers: &Vec<Option<u64>>) -> (r: Result<(u64, u32), DecodeError>)
    ensures
        r == read_span(numbers@),
{
    let mut found: Vec<u64> = Vec::new();
    let mut i: usize = 0;
    while i < numbers.len()
        invariant
            i <= numbers.len(),
            found@ == present(numbers@.take(i as int)),
        decreases numbers.len() - i,
    {
        proof { lemma_present_step(numbers@, i as int); }
        match numbers[i] {
            Option::Some(n) => found.push(n),
            Option::None => {},
        }
        i = i + 1;
    }
    assert(numbers@.take(numbers.len() as int) =~= numbers@);
    if found.len() < 2 {
        Err(DecodeError::MissingSpan)
    } else if found[1] >= 1000 {
        Err(DecodeError::MillisOutOfRange)
    } else {
        Ok((found[0], found[1] as u32))
    }
}

impl RawDocument {
    /// Checks the document: see `checked`.
    pub fn check(&self) -> (r: Result<Document, DecodeError>)
        ensures
            match (r, self.checked()) {
                (Ok(d), Ok(v)) => d@ == v,
                (Err(e), Err(f)) => e == f,
                _ => false,
            },
    {
        let cur = match span_from(&self.cur_task) {
            Ok(p) => p,
            Err(e) => return Err(e),
        };
        let prev = match span_from(&self.prev_task) {
            Ok(p) => p,
            Err(e) => return Err(e),
        };
        let pause = match span_from(&self.break_time) {
            Ok(p) => p,
            Err(e) => return Err(e),
        };
        let completed: u32 = match self.completed {
            Some(c) => c,
            None => 0,
        };
        let removed: u32 = match self.removed {
            Some(c) => c,
            None => 0,
        };
        Ok(Document {
            completed,
            removed,
            tasks: present_tasks(&self.tasks),
            break_time: pause,
            cur_task: cur,
            prev_task: prev,
        })
    }
}

/// The session a stored document restores, with stopwatches starting at `now`.
pub fn get_todo(raw: &RawDocument, now: u64) -> (r: Result<ToDo, DecodeError>)
    ensures
        match (r, raw.checked()) {
            (Ok(t), Ok(v)) => t@ == v.decoded(now) && t@.wf(),
            (Err(e), Err(f)) => e == f,
            _ => false,
        },
{
    match raw.check() {
        Ok(doc) => doc.decode(now),
        Err(e) => Err(e),
    }
}

/// Storing a representable span as seconds and milliseconds and reading it
/// back gives the span cut down to whole milliseconds.
pub proof fn lemma_parts_round_trip(nanos: nat)
    requires
        nanos <= MAX_SPAN,
    ensures
        parts_of(nanos).1 < 1000,
        span_of(parts_of(nanos)) == whole_millis(nanos),
{
    let q = nanos / 1_000_000_000;
    let r = nanos % 1_000_000_000;
    let m = r / 1_000_000;
    let u = r % 1_000_000;
    assert(nanos == q * 1_000_000_000 + r && r < 1_000_000_000);
    assert(r == m * 1_000_000 + u && u < 1_000_000);
    assert(m < 1000) by (nonlinear_arith)
        requires r < 1_000_000_000, r == m * 1_000_000 + u, u >= 0;
    assert(q <= u64::MAX) by (nonlinear_arith)
        requires nanos <= MAX_SPAN, nanos == q * 1_000_000_000 + r, r >= 0;
    assert(nanos == (q * 1000 + m) * 1_000_000 + u) by (nonlinear_arith)
        requires nanos == q * 1_000_000_000 + r, r == m * 1_000_000 + u;
    lemma_fundamental_div_mod_converse(nanos as int, 1_000_000, (q * 1000 + m) as int, u as int);
    assert(whole_millis(nanos) == (q * 1000 + m) * 1_000_000);
    assert((q * 1000 + m) * 1_000_000 == q * 1_000_000_000 + m * 1_000_000) by (nonlinear_arith);
}

/// Saving a session at `t0` and loading the document at `t1` gives back the
/// visible tasks, both counters, and each stopwatch's total at `t0` to the
/// millisecond; the loaded session is well formed.
pub proof fn lemma_round_trip(s: ToDoView, t0: u64, t1: u64)
    requires
        s.wf(),
        s.fits_at(t0),
    ensures
        s.encoded(t0).wf(),
        s.encoded(t0).decoded(t1).wf(),
        s.encoded(t0).decoded(t1).tasks == s.visible_tasks(),
        s.encoded(t0).decoded(t1).complete == s.complete,
        s.encoded(t0).decoded(t1).removed == s.removed,
        s.encoded(t0).decoded(t1).current_task.total() == whole_millis(
            total_at(s.current_task, s.current_running(), t0),
        ),
        s.encoded(t0).decoded(t1).last_task.total() == whole_millis(s.last_task.total()),
        s.encoded(t0).decoded(t1).break_time.total() == whole_millis(
            total_at(s.break_time, s.break_running(), t0),
        ),
{
    let cur = total_at(s.current_task, s.current_running(), t0);
    let pause = total_at(s.break_time, s.break_running(), t0);
    lemma_parts_round_trip(cur);
    lemma_parts_round_trip(s.last_task.total());
    lemma_parts_round_trip(pause);
    assert(whole_millis(cur) <= cur) by (nonlinear_arith);
    assert(whole_millis(pause) <= pause) by (nonlinear_arith);
    assert(whole_millis(s.last_task.total()) <= s.last_task.total()) by (nonlinear_arith);
}

} // verus!
