//! Flash notifications: a transient status message with a severity, shown
//! until a scheduled expiry signal arrives. Every `set` arms a fresh expiry
//! token; a signal carrying a stale token is ignored, so a superseded
//! message's timer can never erase a newer message.

use vstd::prelude::*;

verus! {

/// Base display time of a flash notification, in milliseconds. Error-level
/// messages stay twice as long.
pub const EVENT_TIMEOUT_MS: u64 = 1000;

/// Severity of a flash message.
#[derive(Clone, Copy, PartialEq, Eq, Structural, Debug)]
pub enum MsgType {
    Error,
    Warn,
    Info,
}

/// A transient status message.
#[derive(Clone, Debug)]
pub struct FlashMsg {
    pub message: String,
    pub level: MsgType,
}

impl FlashMsg {
    pub fn warn(msg: &str) -> (r: Self)
        ensures
            r.message@ == msg@,
            r.level == MsgType::Warn,
    {
        FlashMsg { message: String::from_str(msg), level: MsgType::Warn }
    }

    pub fn err(msg: &str) -> (r: Self)
        ensures
            r.message@ == msg@,
            r.level == MsgType::Error,
    {
        FlashMsg { message: String::from_str(msg), level: MsgType::Error }
    }

    pub fn info(msg: &str) -> (r: Self)
        ensures
            r.message@ == msg@,
            r.level == MsgType::Info,
    {
        FlashMsg { message: String::from_str(msg), level: MsgType::Info }
    }
}

/// How long a message of the given severity stays visible, in milliseconds.
pub open spec fn spec_display_millis(level: MsgType) -> u64 {
    if level == MsgType::Error {
        (2 * EVENT_TIMEOUT_MS) as u64
    } else {
        EVENT_TIMEOUT_MS
    }
}

pub fn display_millis(level: MsgType) -> (r: u64)
    ensures
        r == spec_display_millis(level),
{
    if level == MsgType::Error {
        2 * EVENT_TIMEOUT_MS
    } else {
        EVENT_TIMEOUT_MS
    }
}

/// An expiry timer still to be scheduled: deliver `token` back through
/// `Notification::expire` after `millis` milliseconds.
#[derive(Clone, Copy, PartialEq, Eq, Structural, Debug)]
pub struct TimerRequest {
    pub token: u64,
    pub millis: u64,
}

/// The token that follows `t`: a counter that steps by one and cycles, so
/// two consecutive tokens always differ.
pub open spec fn spec_next_token(t: u64) -> u64 {
    if t == u64::MAX {
        0u64
    } else {
        (t + 1) as u64
    }
}

/// The live notification slot. At most one message is visible; each `set`
/// supersedes the previous message and arms a new expiry token.
pub struct Notification {
    pub msg: Option<FlashMsg>,
    pub generation: u64,
    pub timer: Option<TimerRequest>,
}

impl Notification {
    /// The token the latest `set` armed; an `expire` call clears the
    /// message only when it carries this value.
    pub open spec fn token(&self) -> u64 {
        self.generation
    }

    /// The expiry timer not yet handed out for scheduling.
    pub open spec fn pending_timer(&self) -> Option<TimerRequest> {
        self.timer
    }

    /// The state after `set(m)`.
    pub open spec fn spec_set(self, m: FlashMsg) -> Notification {
        Notification {
            msg: Some(m),
            generation: spec_next_token(self.token()),
            timer: Some(
                TimerRequest {
                    token: spec_next_token(self.token()),
                    millis: spec_display_millis(m.level),
                },
            ),
        }
    }

    /// The state after `expire(token)`: the message goes away only when the
    /// token is the one armed last.
    pub open spec fn spec_expire(self, token: u64) -> Notification {
        if token == self.token() {
            Notification { msg: None, ..self }
        } else {
            self
        }
    }

    pub fn new() -> (r: Self)
        ensures
            r.msg is None,
            r.token() == 0,
            r.pending_timer() is None,
    {
        Notification { msg: None, generation: 0, timer: None }
    }

    /// Shows `m`, superseding whatever was visible, and arms an expiry
    /// timer bound to a fresh token.
    pub fn set(&mut self, m: FlashMsg)
        ensures
            *final(self) == old(self).spec_set(m),
            final(self).msg == Some(m),
            final(self).token() == spec_next_token(old(self).token()),
            final(self).pending_timer() == Some(
                TimerRequest {
                    token: final(self).token(),
                    millis: spec_display_millis(m.level),
                },
            ),
    {
        self.generation = if self.generation == u64::MAX {
            0
        } else {
            self.generation + 1
        };
        self.timer = Some(
            TimerRequest { token: self.generation, millis: display_millis(m.level) },
        );
        self.msg = Some(m);
    }

    /// Delivery of a scheduled expiry signal. A stale token, armed for a
    /// message that has since been superseded, leaves the state untouched.
    pub fn expire(&mut self, token: u64)
        ensures
            *final(self) == old(self).spec_expire(token),
            token == old(self).token() ==> final(self).msg is None,
            token != old(self).token() ==> final(self).msg == old(self).msg,
    {
        if token == self.generation {
            self.msg = None;
        }
    }

    /// Drops the visible message at once.
    pub fn clear(&mut self)
        ensures
            final(self).msg is None,
            final(self).token() == old(self).token(),
            final(self).pending_timer() == old(self).pending_timer(),
    {
        self.msg = None;
    }

    /// Hands out the expiry timer the latest `set` armed, once, for the
    /// caller to schedule.
    pub fn take_timer_request(&mut self) -> (r: Option<TimerRequest>)
        ensures
            r == old(self).pending_timer(),
            final(self).pending_timer() is None,
            final(self).msg == old(self).msg,
            final(self).token() == old(self).token(),
    {
        let r = self.timer;
        self.timer = None;
        r
    }
}

/// After `set(a)` and then `set(b)`, the expiry signal armed for `a` is
/// stale and leaves `b` visible; only `b`'s own signal clears the slot.
pub proof fn lemma_stale_signal_ignored(n0: Notification, a: FlashMsg, b: FlashMsg)
    ensures
        ({
            let n1 = n0.spec_set(a);
            let n2 = n1.spec_set(b);
            &&& n2.spec_expire(n1.token()).msg == Some(b)
            &&& n2.spec_expire(n2.token()).msg is None
        }),
{
    let n1 = n0.spec_set(a);
    let n2 = n1.spec_set(b);
    assert(n2.token() == spec_next_token(n1.token()));
    assert(spec_next_token(n1.token()) != n1.token());
}

} // verus!
