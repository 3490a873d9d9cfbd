//! Tokens and window attributes shared by every backend.

use vstd::prelude::*;

verus! {

/// A source of identifiers that never repeats and never yields zero.
#[derive(Clone, Copy, Debug, PartialEq, Eq, Structural)]
pub struct Counter {
    next: u64,
}

impl Counter {
    /// The identifier that the next call of `next` yields; `u64::MAX` once
    /// the counter is exhausted.
    pub closed spec fn peek(self) -> u64 {
        self.next
    }

    /// Every counter stays above zero.
    pub open spec fn wf(self) -> bool {
        self.peek() > 0
    }

    /// A fresh counter, whose first identifier is one.
    pub fn new() -> (c: Counter)
        ensures
            c.peek() == 1,
            c.wf(),
    {
        Counter { next: 1 }
    }

    /// Whether the counter is at zero, where no counter made by `new`
    /// ever is.
    pub fn is_zero(&self) -> (b: bool)
        ensures
            b == !self.wf(),
    {
        self.next == 0
    }

    /// The next identifier, or `None` once all identifiers below `u64::MAX`
    /// have been handed out.
    pub fn next(&mut self) -> (id: Option<u64>)
        ensures
            old(self).peek() < u64::MAX ==> id == Some(old(self).peek()) && final(self).peek() == old(
                self,
            ).peek() + 1,
            old(self).peek() == u64::MAX ==> id is None && *final(self) == *old(self),
    {
        if self.next < u64::MAX {
            let id = self.next;
            self.next = self.next + 1;
            Some(id)
        } else {
            None
        }
    }
}

/// Names a timer that a window asked for; handed back when the timer fires.
#[derive(Clone, Copy, Debug, PartialEq, Eq, Hash, Structural)]
pub struct TimerToken(pub u64);

impl TimerToken {
    /// The token that stands for no timer.
    pub fn invalid() -> (t: TimerToken)
        ensures
            t == TimerToken(0),
    {
        TimerToken(0)
    }

    /// The raw number of the token.
    pub fn into_raw(self) -> (v: u64)
        ensures
            v == self.0,
    {
        self.0
    }
}

/// Names a piece of deferred work; chosen by the client.
#[derive(Clone, Copy, Debug, PartialEq, Eq, Hash, Structural)]
pub struct IdleToken(pub usize);

impl IdleToken {
    /// The token with the given number.
    pub fn new(raw: usize) -> (t: IdleToken)
        ensures
            t == IdleToken(raw),
    {
        IdleToken(raw)
    }
}

/// Names a text field of a window.
#[derive(Clone, Copy, Debug, PartialEq, Eq, Hash, Structural)]
pub struct TextFieldToken(pub u64);

impl TextFieldToken {
    /// The token that stands for no text field.
    pub fn invalid() -> (t: TextFieldToken)
        ensures
            t == TextFieldToken(0),
    {
        TextFieldToken(0)
    }
}

/// Names a file dialog that was opened.
#[derive(Clone, Copy, Debug, PartialEq, Eq, Hash, Structural)]
pub struct FileDialogToken(pub u64);

/// Names a deferred callback that the embedding program keeps.
#[derive(Clone, Copy, Debug, PartialEq, Eq, Hash, Structural)]
pub struct IdleCallback(pub u64);

/// Whether a window is shown at its own size, maximized or minimized.
#[derive(Clone, Copy, Debug, PartialEq, Eq, Structural)]
pub enum WindowState {
    Maximized,
    Minimized,
    Restored,
}

/// The role of a window; all but an application window have a parent,
/// named by its window id.
#[derive(Clone, Copy, Debug, PartialEq, Eq, Structural)]
pub enum WindowLevel {
    AppWindow,
    Tooltip(u32),
    DropDown(u32),
    Modal(u32),
}

impl WindowLevel {
    /// The parent of a window at this level.
    pub open spec fn spec_parent(self) -> Option<u32> {
        match self {
            WindowLevel::AppWindow => None,
            WindowLevel::Tooltip(p) => Some(p),
            WindowLevel::DropDown(p) => Some(p),
            WindowLevel::Modal(p) => Some(p),
        }
    }

    /// The parent of a window at this level.
    pub fn parent(&self) -> (p: Option<u32>)
        ensures
            p == self.spec_parent(),
    {
        match self {
            WindowLevel::AppWindow => None,
            WindowLevel::Tooltip(p) => Some(*p),
            WindowLevel::DropDown(p) => Some(*p),
            WindowLevel::Modal(p) => Some(*p),
        }
    }
}

} // verus!
