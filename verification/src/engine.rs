//! The query engine.
//!
//! Asking the outer terminal for its colors is a dialogue with the outside:
//! raw mode is switched on, a query is written, bytes are read until a
//! terminator arrives or a deadline passes, and raw mode is switched off
//! again. The engine decides; it does not act. It is a state machine that
//! hands the embedding program one [`QueryAction`] at a time and takes back
//! the [`QueryEvent`] that reports what came of it. The program carries the
//! actions out, in a loop of its own, until the engine says
//! [`QueryAction::Done`].
//!
//! The mathematical model of the engine is [`QueryState`], with the
//! transition function [`QueryState::next`]; [`ColorQuery::step`] computes
//! exactly that function.

use crate::cache::{set_outer_colors, CacheState, ColorCache};
use crate::colors::{Rgb, TerminalColors};
use crate::osc::{
    ends_with_terminator, is_terminated, lemma_unterminated_push, osc_query, query_bytes,
    unterminated, BACKGROUND_CODE, FOREGROUND_CODE,
};
use crate::response::{parse_osc_color_response, response_color};
use vstd::prelude::*;

verus! {

/// How long the engine waits for the reply to one query, in milliseconds,
/// counted from the moment the query was written.
pub const QUERY_DEADLINE_MS: u64 = 100;

/// How long one poll for input may wait, in milliseconds.
pub const POLL_TIMEOUT_MS: u64 = 10;

/// How long the engine rests after a read that found nothing, in
/// milliseconds, before it tries again.
pub const RETRY_DELAY_MS: u64 = 5;

/// One of the two colors that the engine asks for.
#[derive(Debug, Clone, Copy, PartialEq, Eq)]
pub enum Channel {
    /// The color of text, asked for with OSC 10.
    Foreground,
    /// The color behind the text, asked for with OSC 11.
    Background,
}

impl Channel {
    /// The OSC code of the channel.
    pub open spec fn code(self) -> u8 {
        match self {
            Channel::Foreground => FOREGROUND_CODE,
            Channel::Background => BACKGROUND_CODE,
        }
    }

    /// The OSC code of the channel.
    pub fn osc_code(self) -> (code: u8)
        ensures
            code == self.code(),
    {
        match self {
            Channel::Foreground => FOREGROUND_CODE,
            Channel::Background => BACKGROUND_CODE,
        }
    }
}

/// Where the engine stands: which answer it waits for.
#[derive(Debug, Clone, Copy, PartialEq, Eq)]
pub enum QueryPhase {
    /// Raw mode was asked for.
    EnablingRawMode,
    /// The query for a channel is being written.
    Sending(Channel),
    /// The clock is being read, to hold it against the deadline.
    CheckingClock(Channel),
    /// The terminal is being polled for input.
    Polling(Channel),
    /// A structured input event is being read, to see whether it is a key.
    ReadingEvent(Channel),
    /// One raw byte is being read.
    ReadingByte(Channel),
    /// The engine rests before the next attempt.
    Sleeping(Channel),
    /// Both channels are done and raw mode is being switched off.
    Restoring,
    /// The query is over: both channels were asked for, the terminal was put
    /// back, and the colors found were stored in the cache.
    Finished,
    /// Raw mode could not be switched on: nothing was asked and nothing was
    /// stored.
    Unavailable,
}

impl QueryPhase {
    /// The channel whose exchange is under way in this phase, if one is.
    pub open spec fn channel(self) -> Option<Channel> {
        match self {
            QueryPhase::Sending(channel)
            | QueryPhase::CheckingClock(channel)
            | QueryPhase::Polling(channel)
            | QueryPhase::ReadingEvent(channel)
            | QueryPhase::ReadingByte(channel)
            | QueryPhase::Sleeping(channel) => Some(channel),
            _ => None,
        }
    }

    /// In this phase the terminal is in raw mode on behalf of the engine.
    pub open spec fn holds_raw_mode(self) -> bool {
        self.channel() is Some || self is Restoring
    }

    /// How many answers at most separate this phase from the next look at
    /// the clock, or from the end of the exchange.
    pub open spec fn distance_to_clock(self) -> nat {
        match self {
            QueryPhase::Polling(_) => 4,
            QueryPhase::ReadingEvent(_) => 3,
            QueryPhase::ReadingByte(_) => 2,
            QueryPhase::Sleeping(_) => 1,
            _ => 0,
        }
    }

    /// How many answers at most separate this phase from the end of the
    /// reading for `channel`, once the deadline has passed: those that lead
    /// to the clock, and the look at the clock itself.
    pub open spec fn distance_to_end(self, channel: Channel) -> nat {
        if self == QueryPhase::CheckingClock(channel) {
            1
        } else if self == QueryPhase::Sleeping(channel) {
            2
        } else if self == QueryPhase::ReadingByte(channel) {
            3
        } else if self == QueryPhase::ReadingEvent(channel) {
            4
        } else if self == QueryPhase::Polling(channel) {
            5
        } else {
            0
        }
    }
}

/// What an attempt to read one byte gave.
#[derive(Debug, Clone, Copy, PartialEq, Eq)]
pub enum ReadOutcome {
    /// The input is at its end.
    Eof,
    /// One byte was read.
    Byte(u8),
    /// Nothing could be read now: the read would block, or it failed.
    NotReady,
}

/// What the embedding program reports after it carried out an action.
#[derive(Debug, Clone, Copy, PartialEq, Eq)]
pub enum QueryEvent {
    /// Answer to `EnableRawMode`: whether raw mode is now on.
    RawMode { enabled: bool },
    /// Answer to `Send`: whether the bytes were written and flushed, and the
    /// time at that moment, in milliseconds on a clock that does not go back.
    Sent { ok: bool, now_ms: u64 },
    /// Answer to `ReadClock`: the time now, on the same clock.
    Clock { now_ms: u64 },
    /// Answer to `Poll`: whether input is waiting. A poll that failed counts
    /// as one that found nothing.
    Polled { ready: bool },
    /// Answer to `ReadEvent`: whether the event read was a key press. A read
    /// that failed counts as one that gave no key.
    EventRead { key: bool },
    /// Answer to `ReadByte`.
    ByteRead(ReadOutcome),
    /// Answer to `Sleep`.
    Slept,
    /// Answer to `DisableRawMode`, whether or not that succeeded.
    RawModeRestored,
}

/// What the engine asks the embedding program to do next.
#[derive(Debug, PartialEq, Eq)]
pub enum QueryAction {
    /// Switch the terminal to raw mode.
    EnableRawMode,
    /// Write these bytes to the terminal and flush.
    Send(Vec<u8>),
    /// Read the clock.
    ReadClock,
    /// Wait for input for at most so long.
    Poll { timeout_ms: u64 },
    /// Read the structured input event that the poll announced.
    ReadEvent,
    /// Try to read one raw byte from the input.
    ReadByte,
    /// Rest for so long.
    Sleep { ms: u64 },
    /// Put the terminal back into the mode it was in.
    DisableRawMode,
    /// Nothing more: the query is over and these are its colors.
    Done(TerminalColors),
}

/// The mathematical content of a [`QueryAction`].
pub ghost enum ActionModel {
    EnableRawMode,
    Send(Seq<u8>),
    ReadClock,
    Poll { timeout_ms: u64 },
    ReadEvent,
    ReadByte,
    Sleep { ms: u64 },
    DisableRawMode,
    Done(TerminalColors),
}

impl View for QueryAction {
    type V = ActionModel;

    open spec fn view(&self) -> ActionModel {
        match *self {
            QueryAction::EnableRawMode => ActionModel::EnableRawMode,
            QueryAction::Send(bytes) => ActionModel::Send(bytes@),
            QueryAction::ReadClock => ActionModel::ReadClock,
            QueryAction::Poll { timeout_ms } => ActionModel::Poll { timeout_ms },
            QueryAction::ReadEvent => ActionModel::ReadEvent,
            QueryAction::ReadByte => ActionModel::ReadByte,
            QueryAction::Sleep { ms } => ActionModel::Sleep { ms },
            QueryAction::DisableRawMode => ActionModel::DisableRawMode,
            QueryAction::Done(colors) => ActionModel::Done(colors),
        }
    }
}

/// The mathematical content of the engine.
pub ghost struct QueryState {
    /// Which answer the engine waits for.
    pub phase: QueryPhase,
    /// The colors decided so far.
    pub colors: TerminalColors,
    /// The bytes read so far in reply to the query that is under way.
    pub response: Seq<u8>,
    /// When the query that is under way was written.
    pub sent_at: u64,
}

impl QueryState {
    /// The engine before anything happened.
    pub open spec fn start() -> QueryState {
        QueryState {
            phase: QueryPhase::EnablingRawMode,
            colors: TerminalColors::unknown(),
            response: Seq::empty(),
            sent_at: 0,
        }
    }

    /// The action that the engine waits to have answered.
    pub open spec fn pending(self) -> ActionModel {
        match self.phase {
            QueryPhase::EnablingRawMode => ActionModel::EnableRawMode,
            QueryPhase::Sending(channel) => ActionModel::Send(query_bytes(channel.code())),
            QueryPhase::CheckingClock(_) => ActionModel::ReadClock,
            QueryPhase::Polling(_) => ActionModel::Poll { timeout_ms: POLL_TIMEOUT_MS },
            QueryPhase::ReadingEvent(_) => ActionModel::ReadEvent,
            QueryPhase::ReadingByte(_) => ActionModel::ReadByte,
            QueryPhase::Sleeping(_) => ActionModel::Sleep { ms: RETRY_DELAY_MS },
            QueryPhase::Restoring => ActionModel::DisableRawMode,
            QueryPhase::Finished | QueryPhase::Unavailable => ActionModel::Done(self.colors),
        }
    }

    /// The event `event` is an answer to the pending action.
    pub open spec fn answers(self, event: QueryEvent) -> bool {
        match self.phase {
            QueryPhase::EnablingRawMode => event is RawMode,
            QueryPhase::Sending(_) => event is Sent,
            QueryPhase::CheckingClock(_) => event is Clock,
            QueryPhase::Polling(_) => event is Polled,
            QueryPhase::ReadingEvent(_) => event is EventRead,
            QueryPhase::ReadingByte(_) => event is ByteRead,
            QueryPhase::Sleeping(_) => event is Slept,
            QueryPhase::Restoring => event is RawModeRestored,
            QueryPhase::Finished | QueryPhase::Unavailable => false,
        }
    }

    /// At the time `now_ms` the deadline of the query under way has passed.
    pub open spec fn expired(self, now_ms: u64) -> bool {
        now_ms - self.sent_at >= QUERY_DEADLINE_MS
    }

    /// The engine after the exchange for `channel` ended with `color`: the
    /// color is recorded, known or not, and the engine goes on to the
    /// background after the foreground, and to restoring the terminal after
    /// the background.
    pub open spec fn conclude(self, channel: Channel, color: Option<Rgb>) -> QueryState {
        match channel {
            Channel::Foreground => QueryState {
                phase: QueryPhase::Sending(Channel::Background),
                colors: TerminalColors { foreground: color, background: self.colors.background },
                response: Seq::empty(),
                sent_at: self.sent_at,
            },
            Channel::Background => QueryState {
                phase: QueryPhase::Restoring,
                colors: TerminalColors { foreground: self.colors.foreground, background: color },
                response: Seq::empty(),
                sent_at: self.sent_at,
            },
        }
    }

    /// The engine in another phase, nothing else changed.
    pub open spec fn at(self, phase: QueryPhase) -> QueryState {
        QueryState { phase, ..self }
    }

    /// The engine after `event`. An event that does not answer the pending
    /// action changes nothing.
    pub open spec fn next(self, event: QueryEvent) -> QueryState {
        match (self.phase, event) {
            (QueryPhase::EnablingRawMode, QueryEvent::RawMode { enabled }) => if enabled {
                self.at(QueryPhase::Sending(Channel::Foreground))
            } else {
                self.at(QueryPhase::Unavailable)
            },
            (QueryPhase::Sending(channel), QueryEvent::Sent { ok, now_ms }) => if ok {
                QueryState { phase: QueryPhase::CheckingClock(channel), sent_at: now_ms, ..self }
            } else {
                self.conclude(channel, None)
            },
            (QueryPhase::CheckingClock(channel), QueryEvent::Clock { now_ms }) => if self.expired(
                now_ms,
            ) {
                self.conclude(channel, response_color(self.response))
            } else {
                self.at(QueryPhase::Polling(channel))
            },
            (QueryPhase::Polling(channel), QueryEvent::Polled { ready }) => if ready {
                self.at(QueryPhase::ReadingEvent(channel))
            } else {
                self.at(QueryPhase::ReadingByte(channel))
            },
            (QueryPhase::ReadingEvent(channel), QueryEvent::EventRead { key }) => if key {
                self.at(QueryPhase::CheckingClock(channel))
            } else {
                self.at(QueryPhase::ReadingByte(channel))
            },
            (QueryPhase::ReadingByte(channel), QueryEvent::ByteRead(outcome)) => match outcome {
                ReadOutcome::Eof => self.conclude(channel, response_color(self.response)),
                ReadOutcome::Byte(b) => {
                    let response = self.response.push(b);
                    if ends_with_terminator(response) {
                        self.conclude(channel, response_color(response))
                    } else {
                        QueryState { phase: QueryPhase::CheckingClock(channel), response, ..self }
                    }
                },
                ReadOutcome::NotReady => self.at(QueryPhase::Sleeping(channel)),
            },
            (QueryPhase::Sleeping(channel), QueryEvent::Slept) => self.at(
                QueryPhase::CheckingClock(channel),
            ),
            (QueryPhase::Restoring, QueryEvent::RawModeRestored) => self.at(QueryPhase::Finished),
            _ => self,
        }
    }

    /// On `event` the engine stores its colors in the cache: when raw mode
    /// has been switched off after both exchanges.
    pub open spec fn stores(self, event: QueryEvent) -> bool {
        self.phase is Restoring && event is RawModeRestored
    }

    /// The engine after each of `events`, in order.
    #[verifier::opaque]
    pub open spec fn run(self, events: Seq<QueryEvent>) -> QueryState
        decreases events.len(),
    {
        if events.len() == 0 {
            self
        } else {
            self.run(events.drop_last()).next(events.last())
        }
    }

    /// The cache `cache` after the engine, starting in this state, took each
    /// of `events`.
    #[verifier::opaque]
    pub open spec fn run_cache(self, cache: CacheState, events: Seq<QueryEvent>) -> CacheState
        decreases events.len(),
    {
        if events.len() == 0 {
            cache
        } else {
            let before = self.run(events.drop_last());
            let cache_before = self.run_cache(cache, events.drop_last());
            if before.stores(events.last()) {
                cache_before.store(before.colors)
            } else {
                cache_before
            }
        }
    }

    /// Nothing is decided yet about `channel`, nor about what comes after it.
    pub open spec fn undecided(self, channel: Channel) -> bool {
        match channel {
            Channel::Foreground => self.colors == TerminalColors::unknown(),
            Channel::Background => self.colors.background is None,
        }
    }

    /// What holds of every state that the engine can reach.
    pub open spec fn wf(self) -> bool {
        match self.phase {
            QueryPhase::EnablingRawMode => self.colors == TerminalColors::unknown()
                && self.response.len() == 0,
            QueryPhase::Sending(channel) => self.undecided(channel) && self.response.len() == 0,
            QueryPhase::CheckingClock(channel)
            | QueryPhase::Polling(channel)
            | QueryPhase::ReadingEvent(channel)
            | QueryPhase::ReadingByte(channel)
            | QueryPhase::Sleeping(channel) => self.undecided(channel) && unterminated(
                self.response,
            ),
            QueryPhase::Restoring | QueryPhase::Finished => self.response.len() == 0,
            QueryPhase::Unavailable => self.colors == TerminalColors::unknown()
                && self.response.len() == 0,
        }
    }
}

/// A query of the outer terminal's colors that is under way.
#[derive(Debug)]
pub struct ColorQuery {
    phase: QueryPhase,
    colors: TerminalColors,
    response: Vec<u8>,
    sent_at: u64,
}

impl View for ColorQuery {
    type V = QueryState;

    closed spec fn view(&self) -> QueryState {
        QueryState {
            phase: self.phase,
            colors: self.colors,
            response: self.response@,
            sent_at: self.sent_at,
        }
    }
}

impl ColorQuery {
    /// The action that the engine waits to have answered. For a new query it
    /// is the first thing to do.
    pub fn pending(&self) -> (action: QueryAction)
        ensures
            action@ == self@.pending(),
    {
        match self.phase {
            QueryPhase::EnablingRawMode => QueryAction::EnableRawMode,
            QueryPhase::Sending(channel) => QueryAction::Send(osc_query(channel.osc_code())),
            QueryPhase::CheckingClock(_) => QueryAction::ReadClock,
            QueryPhase::Polling(_) => QueryAction::Poll { timeout_ms: POLL_TIMEOUT_MS },
            QueryPhase::ReadingEvent(_) => QueryAction::ReadEvent,
            QueryPhase::ReadingByte(_) => QueryAction::ReadByte,
            QueryPhase::Sleeping(_) => QueryAction::Sleep { ms: RETRY_DELAY_MS },
            QueryPhase::Restoring => QueryAction::DisableRawMode,
            QueryPhase::Finished | QueryPhase::Unavailable => QueryAction::Done(self.colors),
        }
    }

    /// The phase in which the engine stands.
    pub fn phase(&self) -> (phase: QueryPhase)
        ensures
            phase == self@.phase,
    {
        self.phase
    }

    /// Whether the query is over, one way or the other.
    pub fn is_over(&self) -> (over: bool)
        ensures
            over == (self@.phase is Finished || self@.phase is Unavailable),
    {
        match self.phase {
            QueryPhase::Finished | QueryPhase::Unavailable => true,
            _ => false,
        }
    }

    /// The colors decided so far.
    pub fn colors(&self) -> (colors: TerminalColors)
        ensures
            colors == self@.colors,
    {
        self.colors
    }

    /// Whether the deadline of the query under way has passed at `now_ms`.
    fn expired(&self, now_ms: u64) -> (expired: bool)
        ensures
            expired == self@.expired(now_ms),
    {
        now_ms >= self.sent_at && now_ms - self.sent_at >= QUERY_DEADLINE_MS
    }

    /// Ends the exchange for `channel` with `color`.
    fn conclude(&mut self, channel: Channel, color: Option<Rgb>)
        ensures
            final(self)@ == old(self)@.conclude(channel, color),
    {
        match channel {
            Channel::Foreground => {
                self.colors.foreground = color;
                self.phase = QueryPhase::Sending(Channel::Background);
            },
            Channel::Background => {
                self.colors.background = color;
                self.phase = QueryPhase::Restoring;
            },
        }
        self.response.clear();
    }

    /// Ends the exchange for `channel` with the color that the bytes read so
    /// far report.
    fn conclude_with_response(&mut self, channel: Channel)
        ensures
            final(self)@ == old(self)@.conclude(channel, response_color(old(self)@.response)),
    {
        let color = parse_osc_color_response(self.response.as_slice());
        self.conclude(channel, color);
    }

    /// Takes the answer to the pending action and says what to do next.
    ///
    /// The engine moves as [`QueryState::next`] says. When the terminal has
    /// been put back after both exchanges, the colors found are stored in
    /// `cache`; on every other event the cache is left as it is.
    pub fn step(&mut self, cache: &mut ColorCache, event: QueryEvent) -> (action: QueryAction)
        ensures
            final(self)@ == old(self)@.next(event),
            action@ == final(self)@.pending(),
            final(cache)@ == if old(self)@.stores(event) {
                old(cache)@.store(old(self)@.colors)
            } else {
                old(cache)@
            },
            old(self)@.wf() ==> final(self)@.wf(),
            old(cache)@.wf() ==> final(cache)@.wf(),
    {
        proof {
            if old(self)@.wf() {
                lemma_next_keeps_well_formed(old(self)@, event);
            }
        }
        match (self.phase, event) {
            (QueryPhase::EnablingRawMode, QueryEvent::RawMode { enabled }) => {
                if enabled {
                    self.phase = QueryPhase::Sending(Channel::Foreground);
                } else {
                    self.phase = QueryPhase::Unavailable;
                }
            },
            (QueryPhase::Sending(channel), QueryEvent::Sent { ok, now_ms }) => {
                if ok {
                    self.sent_at = now_ms;
                    self.phase = QueryPhase::CheckingClock(channel);
                } else {
                    self.conclude(channel, None);
                }
            },
            (QueryPhase::CheckingClock(channel), QueryEvent::Clock { now_ms }) => {
                if self.expired(now_ms) {
                    self.conclude_with_response(channel);
                } else {
                    self.phase = QueryPhase::Polling(channel);
                }
            },
            (QueryPhase::Polling(channel), QueryEvent::Polled { ready }) => {
                if ready {
                    self.phase = QueryPhase::ReadingEvent(channel);
                } else {
                    self.phase = QueryPhase::ReadingByte(channel);
                }
            },
            (QueryPhase::ReadingEvent(channel), QueryEvent::EventRead { key }) => {
                if key {
                    self.phase = QueryPhase::CheckingClock(channel);
                } else {
                    self.phase = QueryPhase::ReadingByte(channel);
                }
            },
            (QueryPhase::ReadingByte(channel), QueryEvent::ByteRead(outcome)) => {
                match outcome {
                    ReadOutcome::Eof => {
                        self.conclude_with_response(channel);
                    },
                    ReadOutcome::Byte(b) => {
                        self.response.push(b);
                        if is_terminated(self.response.as_slice()) {
                            self.conclude_with_response(channel);
                        } else {
                            self.phase = QueryPhase::CheckingClock(channel);
                        }
                    },
                    ReadOutcome::NotReady => {
                        self.phase = QueryPhase::Sleeping(channel);
                    },
                }
            },
            (QueryPhase::Sleeping(channel), QueryEvent::Slept) => {
                self.phase = QueryPhase::CheckingClock(channel);
            },
            (QueryPhase::Restoring, QueryEvent::RawModeRestored) => {
                set_outer_colors(cache, self.colors);
                self.phase = QueryPhase::Finished;
            },
            _ => {},
        }
        self.pending()
    }
}

/// Begins a query of the outer terminal's colors.
///
/// The query must run while the terminal is in its normal screen, before
/// any alternate screen is entered, and nothing else may change the
/// terminal's mode while it runs. The engine returned asks for raw mode
/// first; see [`ColorQuery::pending`] and [`ColorQuery::step`].
pub fn query_outer_terminal_colors() -> (query: ColorQuery)
    ensures
        query@ == QueryState::start(),
        query@.wf(),
{
    proof {
        lemma_start_is_well_formed();
    }
    ColorQuery {
        phase: QueryPhase::EnablingRawMode,
        colors: TerminalColors { foreground: None, background: None },
        response: Vec::with_capacity(64),
        sent_at: 0,
    }
}

/// Begins a new query of the outer terminal's colors after a theme change.
///
/// It is the same engine as that of `query_outer_terminal_colors`. The name
/// says when to call it: in answer to a `ThemeChangeEvent`, once the program
/// has left its alternate screen.
pub fn refresh_outer_colors() -> (query: ColorQuery)
    ensures
        query@ == QueryState::start(),
        query@.wf(),
{
    query_outer_terminal_colors()
}

/// The engine starts well-formed.
pub proof fn lemma_start_is_well_formed()
    ensures
        QueryState::start().wf(),
{
}

/// Every event keeps the engine well-formed.
pub proof fn lemma_next_keeps_well_formed(state: QueryState, event: QueryEvent)
    requires
        state.wf(),
    ensures
        state.next(event).wf(),
{
    assert(unterminated(Seq::<u8>::empty()));
    match (state.phase, event) {
        (QueryPhase::ReadingByte(_), QueryEvent::ByteRead(ReadOutcome::Byte(b))) => {
            if !ends_with_terminator(state.response.push(b)) {
                lemma_unterminated_push(state.response, b);
            }
        },
        (QueryPhase::Sending(_), QueryEvent::Sent { ok, now_ms }) => {
            assert(state.response =~= Seq::<u8>::empty());
        },
        _ => {},
    }
}

} // verus!
