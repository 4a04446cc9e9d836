use vstd::prelude::*;

use crate::session::{ToDo, ToDoView};

verus! {

/// What the user or the surroundings did.
#[derive(Debug)]
pub enum Message {
    /// Ask for a reset, or confirm one; `true` resets the stopwatches only.
    Reset(bool),
    /// Open a draft task, or close the mode keeping it.
    New,
    /// Drop the draft, or withdraw a pending reset.
    Cancel,
    /// Keep the draft as a task.
    End,
    /// The text of the task at the index.
    AddTask(String, usize),
    /// The task at the index leaves the list: completed if `true`, removed otherwise.
    RemoveTask(usize, bool),
    /// A clock tick: the wall-clock stamp and the calendar text for it.
    Tick(i64, String),
    /// Start or end a break.
    Break,
    /// Start or end sleep during a break.
    Sleep,
    /// Save by hand.
    Save,
    /// Load the hand-saved file.
    Open,
    /// A save finished; `true` if it succeeded.
    FileSave(bool),
    /// A load finished, with the session it read if it succeeded.
    FileOpen(Option<ToDo>),
}

/// What the surroundings are to do after a message.
#[derive(Debug, Clone, Copy, PartialEq, Eq)]
pub enum Action {
    Nothing,
    /// Write the session to the hand-saved file.
    Save,
    /// Write the session to the auto-save file.
    AutoSave,
    /// Read the hand-saved file.
    Open,
}

impl ToDoView {
    /// `m` can be applied at `now`: the indices it names exist, the counter it
    /// advances has room, a loaded session is well formed, and the stopwatches
    /// that `m` refreshes, folds or saves can be refreshed or folded at `now`.
    pub open spec fn accepts(self, m: Message, now: u64) -> bool {
        match m {
            Message::Tick(_, _) | Message::Break | Message::Sleep | Message::Save => self.fits_at(now),
            Message::AddTask(_text, index) => index < self.tasks.len(),
            Message::RemoveTask(index, completed) => {
                &&& !self.rest ==> self.current_task.fits_at(now)
                &&& index < self.visible_len()
                &&& completed ==> self.complete < u32::MAX
                &&& !completed ==> self.removed < u32::MAX
            },
            Message::FileOpen(Option::Some(t)) => t@.wf(),
            _ => true,
        }
    }

    /// The session after `m` at `now`.
    pub open spec fn updated(self, m: Message, now: u64) -> ToDoView {
        match m {
            Message::Reset(time_only) => self.reset_armed(time_only, now),
            Message::New => self.new_task(),
            Message::Cancel => self.cancelled(),
            Message::End => self.ended(),
            Message::AddTask(text, index) => self.task_set(text@, index as int),
            Message::RemoveTask(index, completed) => self.task_removed(index as int, completed, now),
            Message::Tick(wall, clock) => self.ticked(now, wall, clock@),
            Message::Break => self.break_toggled(now),
            Message::Sleep => self.sleep_toggled(now),
            Message::FileOpen(Option::Some(t)) => self.replaced(t@),
            _ => self,
        }
    }

    /// What is to be done after `m`.
    pub open spec fn action(self, m: Message) -> Action {
        match m {
            Message::Tick(wall, _) => if self.tick_saves(wall) {
                Action::AutoSave
            } else {
                Action::Nothing
            },
            Message::Save => Action::Save,
            Message::Open => Action::Open,
            _ => Action::Nothing,
        }
    }
}

impl ToDo {
    /// Whether `message` can be applied at `now`.
    pub fn accepts(&self, message: &Message, now: u64) -> (r: bool)
        requires
            self@.wf(),
        ensures
            r == self@.accepts(*message, now),
    {
        assert(self@.tasks.len() == self.tasks@.len());
        match message {
            Message::Tick(_, _) | Message::Break | Message::Sleep | Message::Save => self.can_advance(now),
            Message::AddTask(_text, index) => *index < self.tasks.len(),
            Message::RemoveTask(index, completed) => {
                let visible: usize = if self.add {
                    self.tasks.len() - 1
                } else {
                    self.tasks.len()
                };
                (self.rest || self.current_task.fits(now)) && *index < visible && (if *completed {
                    self.complete < u32::MAX
                } else {
                    self.removed < u32::MAX
                })
            },
            Message::FileOpen(Some(t)) => t.is_well_formed(),
            _ => true,
        }
    }

    /// Applies `message` at monotonic instant `now` and says what is to be
    /// done next.
    pub fn update(&mut self, message: Message, now: u64) -> (r: Action)
        requires
            old(self)@.wf(),
            old(self)@.accepts(message, now),
        ensures
            final(self)@ == old(self)@.updated(message, now),
            r == old(self)@.action(message),
            final(self)@.wf(),
    {
        match message {
            Message::Reset(time_only) => {
                self.arm_reset(time_only, now);
                Action::Nothing
            },
            Message::New => {
                self.new_task();
                Action::Nothing
            },
            Message::Cancel => {
                self.cancel();
                Action::Nothing
            },
            Message::End => {
                self.end();
                Action::Nothing
            },
            Message::AddTask(task, index) => {
                self.add_task(task, index);
                Action::Nothing
            },
            Message::RemoveTask(index, completed) => {
                self.remove_task(index, completed, now);
                Action::Nothing
            },
            Message::Tick(wall, clock) => {
                if self.tick(now, wall, clock) {
                    Action::AutoSave
                } else {
                    Action::Nothing
                }
            },
            Message::Break => {
                self.toggle_break(now);
                Action::Nothing
            },
            Message::Sleep => {
                self.toggle_sleep(now);
                Action::Nothing
            },
            Message::Save => Action::Save,
            Message::Open => Action::Open,
            Message::FileSave(_) => Action::Nothing,
            Message::FileOpen(loaded) => {
                match loaded {
                    Some(t) => self.replace(t),
                    None => {},
                }
                Action::Nothing
            },
        }
    }
}

} // verus!
