use vstd::prelude::*;

use crate::text::{duration_text, MAX_SPAN};
use crate::time::Time;

verus! {

/// After this many ticks the tick counter wraps round and an auto-save is due.
pub const AUTO_SAVE_TICKS: u32 = 120;

/// The text of each task.
pub open spec fn texts(tasks: Seq<String>) -> Seq<Seq<char>> {
    tasks.map_values(|t: String| t@)
}

/// What a session holds, as mathematical values.
pub struct ToDoView {
    pub wall: i64,
    pub clock: Seq<char>,
    pub tasks: Seq<Seq<char>>,
    pub add: bool,
    pub complete: u32,
    pub removed: u32,
    pub current_task: Time,
    pub last_task: Time,
    pub rest: bool,
    pub break_time: Time,
    pub sleep: bool,
    pub reset: bool,
    pub tick_count: u32,
    pub auto_save: bool,
}

/// A task list with its counters, three stopwatches (current task, last task,
/// break) and the flags of the modes the user can be in.
#[derive(Debug)]
pub struct ToDo {
    /// The wall-clock stamp of the last tick that changed the clock text.
    pub wall: i64,
    /// The calendar clock shown to the user.
    pub clock: String,
    /// Open tasks in display order; while `add` is set the last one is a draft.
    pub tasks: Vec<String>,
    /// A new task is being written.
    pub add: bool,
    /// Tasks completed.
    pub complete: u32,
    /// Tasks removed without completing them.
    pub removed: u32,
    /// Time spent on the task at hand.
    pub current_task: Time,
    /// Time the last completed or removed task took.
    pub last_task: Time,
    /// On a break.
    pub rest: bool,
    /// Time spent on breaks.
    pub break_time: Time,
    /// On a break that does not count as break time.
    pub sleep: bool,
    /// A reset has been asked for and awaits confirmation.
    pub reset: bool,
    /// Ticks since the counter last wrapped round.
    pub tick_count: u32,
    /// Save automatically whenever the tick counter wraps round.
    pub auto_save: bool,
}

impl View for ToDo {
    type V = ToDoView;

    open spec fn view(&self) -> ToDoView {
        ToDoView {
            wall: self.wall,
            clock: self.clock@,
            tasks: texts(self.tasks@),
            add: self.add,
            complete: self.complete,
            removed: self.removed,
            current_task: self.current_task,
            last_task: self.last_task,
            rest: self.rest,
            break_time: self.break_time,
            sleep: self.sleep,
            reset: self.reset,
            tick_count: self.tick_count,
            auto_save: self.auto_save,
        }
    }
}

impl ToDoView {
    /// The modes are consistent and every stopwatch's total is representable.
    pub open spec fn wf(self) -> bool {
        &&& self.sleep ==> self.rest
        &&& self.add ==> self.tasks.len() > 0
        &&& self.tick_count < AUTO_SAVE_TICKS
        &&& self.current_task.wf()
        &&& self.last_task.wf()
        &&& self.break_time.wf()
    }

    /// The current-task stopwatch accrues time.
    pub open spec fn current_running(self) -> bool {
        !self.rest
    }

    /// The break stopwatch accrues time.
    pub open spec fn break_running(self) -> bool {
        self.rest && !self.sleep
    }

    /// Tasks shown to the user: all but a draft.
    pub open spec fn visible_len(self) -> nat {
        if self.add {
            (self.tasks.len() - 1) as nat
        } else {
            self.tasks.len()
        }
    }

    /// The running stopwatches can be refreshed or folded at `now`.
    pub open spec fn fits_at(self, now: u64) -> bool {
        &&& self.current_task.fits_at(now)
        &&& self.break_time.fits_at(now)
    }

    /// A fresh session at `now`: no tasks, zero counters, stopwatches at zero.
    pub open spec fn fresh(now: u64) -> ToDoView {
        ToDoView {
            wall: 0,
            clock: Seq::empty(),
            tasks: Seq::empty(),
            add: false,
            complete: 0,
            removed: 0,
            current_task: Time::started(now, 0),
            last_task: Time::started(now, 0),
            rest: false,
            break_time: Time::started(now, 0),
            sleep: false,
            reset: false,
            tick_count: 0,
            auto_save: false,
        }
    }

    /// New task: opens a draft, or, while one is open, closes the mode keeping it.
    pub open spec fn new_task(self) -> ToDoView {
        if self.add {
            ToDoView { add: false, ..self }
        } else {
            ToDoView { add: true, tasks: self.tasks.push(Seq::empty()), ..self }
        }
    }

    /// Cancel: drops the draft, or else withdraws a pending reset.
    pub open spec fn cancelled(self) -> ToDoView {
        if self.add {
            ToDoView { add: false, tasks: self.tasks.drop_last(), ..self }
        } else if self.reset {
            ToDoView { reset: false, ..self }
        } else {
            self
        }
    }

    /// Commit: the draft becomes a task.
    pub open spec fn ended(self) -> ToDoView {
        ToDoView { add: false, ..self }
    }

    /// The task at `index` gets the text `text`.
    pub open spec fn task_set(self, text: Seq<char>, index: int) -> ToDoView {
        ToDoView { tasks: self.tasks.update(index, text), ..self }
    }

    /// The current task's total at `now`: refreshed first if it is running,
    /// its banked time alone while it is paused for a break.
    pub open spec fn current_total_at(self, now: u64) -> nat {
        if self.rest {
            self.current_task.total()
        } else {
            self.current_task.ticked(now).total()
        }
    }

    /// The task at `index` leaves the list as completed or removed; the
    /// current task's total at `now` moves to the last-task stopwatch and the
    /// current task starts from zero.
    pub open spec fn task_removed(self, index: int, completed: bool, now: u64) -> ToDoView {
        ToDoView {
            tasks: self.tasks.remove(index),
            last_task: Time::started(now, self.current_total_at(now)),
            current_task: Time::started(now, 0),
            complete: if completed { (self.complete + 1) as u32 } else { self.complete },
            removed: if completed { self.removed } else { (self.removed + 1) as u32 },
            ..self
        }
    }

    /// Start or end a break.
    pub open spec fn break_toggled(self, now: u64) -> ToDoView {
        if !self.rest {
            ToDoView {
                rest: true,
                current_task: self.current_task.swapped(now),
                break_time: Time::started(now, 0),
                ..self
            }
        } else {
            ToDoView {
                rest: false,
                sleep: false,
                break_time: if self.sleep {
                    self.break_time.restarted(now)
                } else {
                    self.break_time.swapped(now)
                },
                current_task: self.current_task.restarted(now),
                ..self
            }
        }
    }

    /// Start or end sleep during a break; outside a break nothing changes.
    pub open spec fn sleep_toggled(self, now: u64) -> ToDoView {
        if !self.rest {
            self
        } else if self.sleep {
            ToDoView { sleep: false, break_time: self.break_time.restarted(now), ..self }
        } else {
            ToDoView { sleep: true, break_time: self.break_time.swapped(now), ..self }
        }
    }

    /// Reset: the first call asks for confirmation, the second clears all
    /// stopwatches, and unless `time_only` also the tasks, counters and break.
    pub open spec fn reset_armed(self, time_only: bool, now: u64) -> ToDoView {
        if !self.reset {
            ToDoView { reset: true, ..self }
        } else {
            let base = if time_only {
                self
            } else {
                ToDoView {
                    tasks: Seq::empty(),
                    add: false,
                    complete: 0,
                    removed: 0,
                    rest: false,
                    sleep: false,
                    ..self
                }
            };
            ToDoView {
                current_task: Time::started(now, 0),
                last_task: Time::started(now, 0),
                break_time: Time::started(now, 0),
                reset: false,
                ..base
            }
        }
    }

    /// The running stopwatch refreshed at `now`.
    pub open spec fn timers_ticked(self, now: u64) -> ToDoView {
        if self.current_running() {
            ToDoView { current_task: self.current_task.ticked(now), ..self }
        } else if self.break_running() {
            ToDoView { break_time: self.break_time.ticked(now), ..self }
        } else {
            self
        }
    }

    /// A tick: when the wall clock moved, the clock text is replaced, the
    /// running stopwatch is refreshed and the tick counter advances.
    pub open spec fn ticked(self, now: u64, wall: i64, clock: Seq<char>) -> ToDoView {
        if wall == self.wall {
            self
        } else {
            let t = self.timers_ticked(now);
            ToDoView {
                wall,
                clock,
                tick_count: if t.tick_count + 1 == AUTO_SAVE_TICKS { 0 } else { (t.tick_count + 1) as u32 },
                ..t
            }
        }
    }

    /// A tick asks for an auto-save.
    pub open spec fn tick_saves(self, wall: i64) -> bool {
        &&& wall != self.wall
        &&& self.tick_count + 1 == AUTO_SAVE_TICKS
        &&& self.auto_save
        &&& !self.sleep
    }
}

impl ToDoView {
    /// Loading replaces the tasks, the counters and the three stopwatches
    /// with those of `other`, and leaves every mode.
    pub open spec fn replaced(self, other: ToDoView) -> ToDoView {
        ToDoView {
            tasks: other.tasks,
            complete: other.complete,
            removed: other.removed,
            current_task: other.current_task,
            last_task: other.last_task,
            break_time: other.break_time,
            add: false,
            rest: false,
            sleep: false,
            reset: false,
            ..self
        }
    }
}

impl ToDo {
    /// A fresh session whose stopwatches start at `now`.
    pub fn new(now: u64) -> (r: ToDo)
        ensures
            r@ == ToDoView::fresh(now),
            r@.wf(),
    {
        let tasks: Vec<String> = Vec::new();
        assert(texts(tasks@) =~= Seq::empty());
        ToDo {
            wall: 0,
            clock: String::new(),
            tasks,
            add: false,
            complete: 0,
            removed: 0,
            current_task: Time::new(now),
            last_task: Time::new(now),
            rest: false,
            break_time: Time::new(now),
            sleep: false,
            reset: false,
            tick_count: 0,
            auto_save: false,
        }
    }

    /// A session restored from its parts: the three spans (in nanoseconds)
    /// are banked in stopwatches that start at `now`.
    pub fn from(
        task_list: Vec<String>,
        completed: u32,
        removed_tasks: u32,
        task_time: u128,
        prev_task_time: u128,
        break_time: u128,
        now: u64,
    ) -> (r: ToDo)
        requires
            task_time <= MAX_SPAN,
            prev_task_time <= MAX_SPAN,
            break_time <= MAX_SPAN,
        ensures
            r@ == (ToDoView {
                tasks: texts(task_list@),
                complete: completed,
                removed: removed_tasks,
                current_task: Time::started(now, task_time as nat),
                last_task: Time::started(now, prev_task_time as nat),
                break_time: Time::started(now, break_time as nat),
                ..ToDoView::fresh(now)
            }),
            r@.wf(),
    {
        ToDo {
            tasks: task_list,
            complete: completed,
            removed: removed_tasks,
            current_task: Time::from(task_time, now),
            last_task: Time::from(prev_task_time, now),
            break_time: Time::from(break_time, now),
            ..ToDo::new(now)
        }
    }

    /// Takes over the tasks, counters and stopwatches of `todo` and leaves
    /// every mode.
    pub fn replace(&mut self, todo: ToDo)
        requires
            old(self)@.wf(),
            todo@.wf(),
        ensures
            final(self)@ == old(self)@.replaced(todo@),
            final(self)@.wf(),
    {
        self.tasks = todo.tasks;
        self.complete = todo.complete;
        self.removed = todo.removed;
        self.current_task = todo.current_task;
        self.last_task = todo.last_task;
        self.break_time = todo.break_time;
        self.add = false;
        self.rest = false;
        self.sleep = false;
        self.reset = false;
    }

    /// Opens a draft task, or closes the mode keeping the draft.
    pub fn new_task(&mut self)
        requires
            old(self)@.wf(),
        ensures
            final(self)@ == old(self)@.new_task(),
            final(self)@.wf(),
    {
        if self.add {
            self.add = false;
        } else {
            self.add = true;
            let ghost before = self.tasks@;
            self.tasks.push(String::new());
            assert(texts(self.tasks@) =~= texts(before).push(Seq::empty()));
        }
    }

    /// Drops the draft task, or else withdraws a pending reset.
    pub fn cancel(&mut self)
        requires
            old(self)@.wf(),
        ensures
            final(self)@ == old(self)@.cancelled(),
            final(self)@.wf(),
    {
        if self.add {
            self.add = false;
            let ghost before = self.tasks@;
            self.tasks.pop();
            assert(texts(self.tasks@) =~= texts(before).drop_last());
        } else if self.reset {
            self.reset = false;
        }
    }

    /// Keeps the draft as a task.
    pub fn end(&mut self)
        requires
            old(self)@.wf(),
        ensures
            final(self)@ == old(self)@.ended(),
            final(self)@.wf(),
    {
        self.add = false;
    }

    /// Sets the text of the task at `index`.
    pub fn add_task(&mut self, task: String, index: usize)
        requires
            old(self)@.wf(),
            index < old(self)@.tasks.len(),
        ensures
            final(self)@ == old(self)@.task_set(task@, index as int),
            final(self)@.wf(),
    {
        let ghost before = self.tasks@;
        let ghost text = task@;
        self.tasks.set(index, task);
        assert(texts(self.tasks@) =~= texts(before).update(index as int, text));
    }

    /// The task at `index` leaves the list, counted as completed or removed;
    /// its time moves to the last-task stopwatch.
    pub fn remove_task(&mut self, index: usize, completed: bool, now: u64)
        requires
            old(self)@.wf(),
            index < old(self)@.visible_len(),
            !old(self)@.rest ==> old(self)@.current_task.fits_at(now),
            completed ==> old(self)@.complete < u32::MAX,
            !completed ==> old(self)@.removed < u32::MAX,
        ensures
            final(self)@ == old(self)@.task_removed(index as int, completed, now),
            final(self)@.wf(),
    {
        let ghost before = self.tasks@;
        self.tasks.remove(index);
        assert(texts(self.tasks@) =~= texts(before).remove(index as int));
        if self.rest {
            self.last_task = Time::from(self.current_task.export_time(), now);
        } else {
            self.last_task.copy(&mut self.current_task, now);
        }
        self.current_task = Time::new(now);
        if completed {
            self.complete = self.complete + 1;
        } else {
            self.removed = self.removed + 1;
        }
    }

    /// Starts or ends a break.
    pub fn toggle_break(&mut self, now: u64)
        requires
            old(self)@.wf(),
            old(self)@.fits_at(now),
        ensures
            final(self)@ == old(self)@.break_toggled(now),
            final(self)@.wf(),
    {
        if !self.rest {
            self.rest = true;
            self.current_task.swap_current(now);
            self.break_time = Time::new(now);
        } else {
            self.rest = false;
            if !self.sleep {
                self.break_time.swap_current(now);
            }
            self.break_time.new_start(now);
            self.sleep = false;
            self.current_task.new_start(now);
        }
    }

    /// Starts or ends sleep during a break; outside a break does nothing.
    pub fn toggle_sleep(&mut self, now: u64)
        requires
            old(self)@.wf(),
            old(self)@.fits_at(now),
        ensures
            final(self)@ == old(self)@.sleep_toggled(now),
            final(self)@.wf(),
    {
        if self.rest {
            if self.sleep {
                self.break_time.new_start(now);
            } else {
                self.break_time.swap_current(now);
            }
            self.sleep = !self.sleep;
        }
    }

    /// Asks for a reset, or carries out the one asked for.
    pub fn arm_reset(&mut self, time_only: bool, now: u64)
        requires
            old(self)@.wf(),
        ensures
            final(self)@ == old(self)@.reset_armed(time_only, now),
            final(self)@.wf(),
    {
        if self.reset {
            if !time_only {
                self.tasks = Vec::new();
                assert(texts(self.tasks@) =~= Seq::empty());
                self.add = false;
                self.complete = 0;
                self.removed = 0;
                self.rest = false;
                self.sleep = false;
            }
            self.current_task = Time::new(now);
            self.last_task = Time::new(now);
            self.break_time = Time::new(now);
            self.reset = false;
        } else {
            self.reset = true;
        }
    }

    /// A tick at monotonic instant `now`, wall-clock stamp `wall` and calendar
    /// text `clock`; returns whether an auto-save is due.
    pub fn tick(&mut self, now: u64, wall: i64, clock: String) -> (save: bool)
        requires
            old(self)@.wf(),
            old(self)@.fits_at(now),
        ensures
            final(self)@ == old(self)@.ticked(now, wall, clock@),
            save == old(self)@.tick_saves(wall),
            final(self)@.wf(),
    {
        if wall == self.wall {
            return false;
        }
        self.wall = wall;
        self.clock = clock;
        if !self.rest {
            self.current_task.tick(now);
        } else if !self.sleep {
            self.break_time.tick(now);
        }
        self.tick_count = self.tick_count + 1;
        if self.tick_count == AUTO_SAVE_TICKS {
            self.tick_count = 0;
            self.auto_save && !self.sleep
        } else {
            false
        }
    }

    /// How many tasks are shown to the user: all but a draft.
    pub fn visible_len(&self) -> (r: usize)
        requires
            self@.wf(),
        ensures
            r == self@.visible_len(),
    {
        if self.add {
            self.tasks.len() - 1
        } else {
            self.tasks.len()
        }
    }

    /// Whether the modes are consistent and every stopwatch's total is representable.
    pub fn is_well_formed(&self) -> (r: bool)
        ensures
            r == self@.wf(),
    {
        (!self.sleep || self.rest) && (!self.add || self.tasks.len() > 0) && self.tick_count
            < AUTO_SAVE_TICKS && self.current_task.is_well_formed()
            && self.last_task.is_well_formed() && self.break_time.is_well_formed()
    }

    /// Whether the stopwatches can be refreshed or folded at `now`.
    pub fn can_advance(&self, now: u64) -> (r: bool)
        ensures
            r == self@.fits_at(now),
    {
        self.current_task.fits(now) && self.break_time.fits(now)
    }
}

/// The session after a run of break and sleep toggles: each event is `true`
/// for a break toggle and `false` for a sleep toggle, with its instant.
pub open spec fn toggles_applied(s: ToDoView, events: Seq<(bool, u64)>) -> ToDoView
    decreases events.len(),
{
    if events.len() == 0 {
        s
    } else {
        let before = toggles_applied(s, events.drop_last());
        let (is_break, now) = events.last();
        if is_break {
            before.break_toggled(now)
        } else {
            before.sleep_toggled(now)
        }
    }
}

/// Whatever break and sleep toggles come, sleep only happens on a break and
/// at most one of the current-task and break stopwatches is running; a tick
/// that follows moves the current-task stopwatch only while it is running and
/// the break stopwatch only while that one is, never both.
pub proof fn lemma_one_timer_running(
    s: ToDoView,
    events: Seq<(bool, u64)>,
    now: u64,
    wall: i64,
    clock: Seq<char>,
)
    requires
        s.sleep ==> s.rest,
    ensures
        toggles_applied(s, events).sleep ==> toggles_applied(s, events).rest,
        !(toggles_applied(s, events).current_running() && toggles_applied(s, events).break_running()),
        toggles_applied(s, events).ticked(now, wall, clock).current_task != toggles_applied(s, events).current_task
            ==> toggles_applied(s, events).current_running()
                && toggles_applied(s, events).ticked(now, wall, clock).break_time
                    == toggles_applied(s, events).break_time,
        toggles_applied(s, events).ticked(now, wall, clock).break_time != toggles_applied(s, events).break_time
            ==> toggles_applied(s, events).break_running()
                && toggles_applied(s, events).ticked(now, wall, clock).current_task
                    == toggles_applied(s, events).current_task,
    decreases events.len(),
{
    if events.len() > 0 {
        lemma_one_timer_running(s, events.drop_last(), now, wall, clock);
    }
}

/// Completing or removing a task moves the current task's total to the
/// last-task stopwatch and leaves the current task at zero. While working that
/// total is the one refreshed at that instant; during a break the current task
/// is paused and only its banked time moves, so no break time is counted.
pub proof fn lemma_transfer(s: ToDoView, index: int, completed: bool, now: u64)
    requires
        s.wf(),
        0 <= index < s.visible_len(),
        !s.rest ==> s.current_task.fits_at(now),
    ensures
        !s.rest ==> s.task_removed(index, completed, now).last_task.total()
            == s.current_task.ticked(now).total(),
        s.rest ==> s.task_removed(index, completed, now).last_task.total() == s.current_task.total(),
        s.task_removed(index, completed, now).current_task.total() == 0,
        s.task_removed(index, completed, now).wf(),
{
}

} // verus!
