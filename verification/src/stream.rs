//! Keep-alive: the options, the keep-alive line, and the rules by which the items of an
//! inner stream and the ticks of a timer are merged into one output.
//!
//! The rules are a state machine. Whoever drives it polls the inner stream, hands the
//! outcome to `KeepAlive::step` as an event and does what the returned action says; it
//! polls the timer only when an action asks for it.

use crate::text::{decimal, push_decimal};
use core::time::Duration;
use vstd::prelude::*;
use vstd::string::StringExecFns;

verus! {

/// The length of a duration in nanoseconds.
pub uninterp spec fn duration_nanos(d: Duration) -> nat;

/// `Duration::from_secs` makes a duration of that many whole seconds.
pub assume_specification[ Duration::from_secs ](secs: u64) -> (r: Duration)
    ensures
        duration_nanos(r) == secs * 1_000_000_000,
;

/// `Duration::is_zero` tells whether a duration has no length.
pub assume_specification[ Duration::is_zero ](d: &Duration) -> (r: bool)
    ensures
        r == (duration_nanos(*d) == 0),
;

/// The interval between keep-alive lines where none is set: 30 seconds, in nanoseconds.
pub open spec fn default_interval_nanos() -> nat {
    30_000_000_000
}

/// How keep-alive lines are made: how often, and what stands before their number.
#[derive(Debug, Clone)]
pub struct KeepAliveOption {
    interval: Option<Duration>,
    comment_prefix: Option<String>,
}

/// What the options hold: the interval in nanoseconds and the prefix, each where set.
pub struct KeepAliveOptionView {
    pub interval: Option<nat>,
    pub comment_prefix: Option<Seq<char>>,
}

impl KeepAliveOptionView {
    /// The interval in use, in nanoseconds: the one set, or 30 seconds.
    pub open spec fn interval_nanos(self) -> nat {
        match self.interval {
            Some(nanos) => nanos,
            None => default_interval_nanos(),
        }
    }

    /// The prefix in use: the one set, or the empty text.
    pub open spec fn prefix(self) -> Seq<char> {
        match self.comment_prefix {
            Some(prefix) => prefix,
            None => Seq::empty(),
        }
    }

    /// The interval in use must be strictly positive.
    pub open spec fn valid(self) -> bool {
        self.interval_nanos() > 0
    }
}

impl View for KeepAliveOption {
    type V = KeepAliveOptionView;

    closed spec fn view(&self) -> KeepAliveOptionView {
        KeepAliveOptionView {
            interval: match self.interval {
                Some(d) => Some(duration_nanos(d)),
                None => None,
            },
            comment_prefix: match self.comment_prefix {
                Some(prefix) => Some(prefix@),
                None => None,
            },
        }
    }
}

impl Default for KeepAliveOption {
    /// The options with nothing set.
    fn default() -> (r: KeepAliveOption)
        ensures
            r@.interval is None,
            r@.comment_prefix is None,
    {
        KeepAliveOption { interval: None, comment_prefix: None }
    }
}

impl KeepAliveOption {
    /// The options with nothing set: a line every 30 seconds, and no prefix.
    pub fn new() -> (r: Self)
        ensures
            r@.interval is None,
            r@.comment_prefix is None,
            r@.valid(),
    {
        KeepAliveOption { interval: None, comment_prefix: None }
    }

    /// The same options with the interval `dur`.
    pub fn interval(self, dur: Duration) -> (r: Self)
        ensures
            r@.interval == Some(duration_nanos(dur)),
            r@.comment_prefix == self@.comment_prefix,
    {
        KeepAliveOption { interval: Some(dur), comment_prefix: self.comment_prefix }
    }

    /// The same options with the prefix `s`.
    pub fn comment_prefix(self, s: String) -> (r: Self)
        ensures
            r@.interval == self@.interval,
            r@.comment_prefix == Some(s@),
    {
        KeepAliveOption { interval: self.interval, comment_prefix: Some(s) }
    }

    /// The interval in use: the one set, or 30 seconds.
    pub fn get_interval(&self) -> (r: Duration)
        ensures
            duration_nanos(r) == self@.interval_nanos(),
    {
        match self.interval {
            Some(d) => d,
            None => Duration::from_secs(30),
        }
    }

    /// The prefix in use: the one set, or the empty text.
    pub fn get_comment_prefix(&self) -> (r: String)
        ensures
            r@ == self@.prefix(),
    {
        match &self.comment_prefix {
            Some(prefix) => prefix.clone(),
            None => String::new(),
        }
    }

    /// Whether the interval in use is strictly positive.
    pub fn is_valid(&self) -> (r: bool)
        ensures
            r == self@.valid(),
    {
        !self.get_interval().is_zero()
    }
}

/// The text of the keep-alive line with the number `n`: a comment made of the prefix
/// and the number, and the empty line that ends an event.
pub open spec fn keep_alive_text(prefix: Seq<char>, n: nat) -> Seq<char> {
    ": "@ + prefix + decimal(n) + seq!['\n', '\n']
}

/// The keep-alive line with the number `n`.
pub fn keep_alive_line(comment_prefix: &str, n: usize) -> (line: String)
    ensures
        line@ == keep_alive_text(comment_prefix@, n as nat),
{
    let mut line = String::from_str(": ");
    line.append(comment_prefix);
    push_decimal(&mut line, n);
    line.append("\n\n");
    proof {
        reveal_strlit("\n\n");
    }
    line
}

/// What the driver reports to the state machine.
#[derive(Debug, Clone, PartialEq, Eq)]
pub enum StreamEvent {
    /// The inner stream yielded this item.
    Item(String),
    /// The inner stream has nothing ready yet.
    Idle,
    /// The inner stream is complete.
    End,
    /// The timer, polled on request, had fired.
    Tick,
    /// The timer, polled on request, had not fired.
    NoTick,
}

/// What the state machine tells the driver to do.
#[derive(Debug, Clone, PartialEq, Eq)]
pub enum StreamAction {
    /// Yield this item of the inner stream.
    Forward(String),
    /// Yield this keep-alive line.
    KeepAlive(String),
    /// Poll the timer and report `Tick` or `NoTick`.
    PollTimer,
    /// Yield nothing now and suspend until a source is ready.
    Wait,
    /// The output is complete: drop both sources.
    Finish,
}

/// An event, as plain values.
pub enum EventView {
    Item(Seq<char>),
    Idle,
    End,
    Tick,
    NoTick,
}

/// An action, as plain values.
pub enum ActionView {
    Forward(Seq<char>),
    KeepAlive(Seq<char>),
    PollTimer,
    Wait,
    Finish,
}

impl View for StreamEvent {
    type V = EventView;

    open spec fn view(&self) -> EventView {
        match self {
            StreamEvent::Item(text) => EventView::Item(text@),
            StreamEvent::Idle => EventView::Idle,
            StreamEvent::End => EventView::End,
            StreamEvent::Tick => EventView::Tick,
            StreamEvent::NoTick => EventView::NoTick,
        }
    }
}

impl View for StreamAction {
    type V = ActionView;

    open spec fn view(&self) -> ActionView {
        match self {
            StreamAction::Forward(text) => ActionView::Forward(text@),
            StreamAction::KeepAlive(text) => ActionView::KeepAlive(text@),
            StreamAction::PollTimer => ActionView::PollTimer,
            StreamAction::Wait => ActionView::Wait,
            StreamAction::Finish => ActionView::Finish,
        }
    }
}

/// The state of a keep-alive stream, as plain values.
pub struct KeepAliveView {
    /// The interval of the timer, in nanoseconds.
    pub interval: nat,
    /// What stands before the number in each keep-alive line.
    pub prefix: Seq<char>,
    /// How many keep-alive lines have been yielded; the next one carries this number.
    pub sent: nat,
    /// Whether the inner stream is complete.
    pub done: bool,
}

/// The state in which a stream with these options starts.
pub open spec fn start(option: KeepAliveOptionView) -> KeepAliveView {
    KeepAliveView {
        interval: option.interval_nanos(),
        prefix: option.prefix(),
        sent: 0,
        done: false,
    }
}

/// One step: the state after `event` and the action that answers it.
///
/// While the inner stream runs, an item is forwarded as it is, whatever the timer may
/// hold; only a turn in which the inner stream has nothing ready asks for the timer;
/// a tick yields the next keep-alive line and counts it; the end of the inner stream
/// ends the output at once. Once it has ended, every event is answered by `Finish`.
/// The timer gives `usize::MAX` ticks at most: later ones yield nothing.
pub open spec fn step(s: KeepAliveView, event: EventView) -> (KeepAliveView, ActionView) {
    if s.done {
        (s, ActionView::Finish)
    } else {
        match event {
            EventView::Item(text) => (s, ActionView::Forward(text)),
            EventView::Idle => (s, ActionView::PollTimer),
            EventView::End => (KeepAliveView { done: true, ..s }, ActionView::Finish),
            EventView::Tick => if s.sent < usize::MAX {
                (
                    KeepAliveView { sent: s.sent + 1, ..s },
                    ActionView::KeepAlive(keep_alive_text(s.prefix, s.sent)),
                )
            } else {
                (s, ActionView::Wait)
            },
            EventView::NoTick => (s, ActionView::Wait),
        }
    }
}

/// The state machine that merges an inner stream with keep-alive lines.
#[derive(Debug)]
pub struct KeepAlive {
    interval: Duration,
    comment_prefix: String,
    sent: usize,
    done: bool,
}

impl View for KeepAlive {
    type V = KeepAliveView;

    closed spec fn view(&self) -> KeepAliveView {
        KeepAliveView {
            interval: duration_nanos(self.interval),
            prefix: self.comment_prefix@,
            sent: self.sent as nat,
            done: self.done,
        }
    }
}

impl KeepAlive {
    /// The timer's interval is strictly positive, in every state.
    #[verifier::type_invariant]
    spec fn positive_interval(self) -> bool {
        duration_nanos(self.interval) > 0
    }

    /// The state machine of a stream with the given options, before its first event.
    /// The interval must be strictly positive: a timer cannot be armed with none.
    pub fn new(option: &KeepAliveOption) -> (r: Self)
        requires
            option@.valid(),
        ensures
            r@ == start(option@),
    {
        KeepAlive {
            interval: option.get_interval(),
            comment_prefix: option.get_comment_prefix(),
            sent: 0,
            done: false,
        }
    }

    /// The state machine of a stream with the given options, or `None` where their
    /// interval is not strictly positive.
    pub fn try_new(option: &KeepAliveOption) -> (r: Option<Self>)
        ensures
            match r {
                Some(machine) => option@.valid() && machine@ == start(option@),
                None => !option@.valid(),
            },
    {
        if option.is_valid() {
            Some(KeepAlive::new(option))
        } else {
            None
        }
    }

    /// The interval with which to arm the timer. It is never zero.
    pub fn timer_interval(&self) -> (r: Duration)
        ensures
            duration_nanos(r) == self@.interval,
            duration_nanos(r) > 0,
    {
        proof {
            use_type_invariant(self);
        }
        self.interval
    }

    /// Whether the inner stream, and with it the output, is complete.
    pub fn is_done(&self) -> (r: bool)
        ensures
            r == self@.done,
    {
        self.done
    }

    /// Takes one event and says what to do about it.
    pub fn step(&mut self, event: StreamEvent) -> (action: StreamAction)
        ensures
            (final(self)@, action@) == step(old(self)@, event@),
    {
        proof {
            use_type_invariant(&*self);
        }
        if self.done {
            return StreamAction::Finish;
        }
        match event {
            StreamEvent::Item(text) => StreamAction::Forward(text),
            StreamEvent::Idle => StreamAction::PollTimer,
            StreamEvent::End => {
                self.done = true;
                StreamAction::Finish
            },
            StreamEvent::Tick => {
                if self.sent < usize::MAX {
                    let line = keep_alive_line(self.comment_prefix.as_str(), self.sent);
                    self.sent = self.sent + 1;
                    StreamAction::KeepAlive(line)
                } else {
                    StreamAction::Wait
                }
            },
            StreamEvent::NoTick => StreamAction::Wait,
        }
    }
}

} // verus!
