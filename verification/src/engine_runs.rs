//! What holds of whole runs of the query engine.
//!
//! A run is the engine taking a sequence of events, one after the other.
//! The statements here follow a reply as it arrives byte by byte, and a
//! whole query from raw mode to the cache.

use crate::cache::CacheState;
use crate::colors::TerminalColors;
use crate::engine::{ActionModel, Channel, QueryEvent, QueryPhase, QueryState, ReadOutcome};
use crate::engine_laws::lemma_cache_follows_completion;
use crate::hex::{component_value, hex_digit};
use crate::osc::{
    decimal, ends_with_terminator, lemma_unterminated_drop_last, terminator_at, unterminated,
    BACKGROUND_CODE, FOREGROUND_CODE,
};
use crate::response::response_color;
use crate::response_laws::{
    lemma_decimal_is_digits, lemma_osc_reply, osc_reply, reply_head, triple,
};
use vstd::prelude::*;

verus! {

/// One round in which the byte `b` reaches the engine: the clock is read
/// and shows `now_ms`, the poll announces no event, and the byte is read.
pub open spec fn byte_round(b: u8, now_ms: u64) -> Seq<QueryEvent> {
    seq![
        QueryEvent::Clock { now_ms },
        QueryEvent::Polled { ready: false },
        QueryEvent::ByteRead(ReadOutcome::Byte(b)),
    ]
}

/// The rounds in which the bytes `bytes` reach the engine one by one, the
/// byte `bytes[i]` in a round that begins at the time `times[i]`.
pub open spec fn byte_rounds(bytes: Seq<u8>, times: Seq<u64>) -> Seq<QueryEvent>
    decreases bytes.len(),
{
    if bytes.len() == 0 {
        Seq::empty()
    } else {
        byte_rounds(bytes.drop_last(), times.drop_last()) + byte_round(bytes.last(), times.last())
    }
}

/// There is one time for each byte of `bytes`, and each is less than a
/// hundred milliseconds after `sent_ms`.
pub open spec fn in_time(bytes: Seq<u8>, times: Seq<u64>, sent_ms: u64) -> bool {
    &&& times.len() == bytes.len()
    &&& forall|i: int| 0 <= i < times.len() ==> times[i] - sent_ms < 100
}

/// The bytes `reply` end with a terminator, and with the first one in them.
pub open spec fn complete_reply(reply: Seq<u8>) -> bool {
    &&& reply.len() > 0
    &&& unterminated(reply.drop_last())
    &&& ends_with_terminator(reply)
}

/// The events of one exchange that goes well: the query is written at
/// `sent_ms`, and the bytes of `reply` arrive one by one at `times`.
pub open spec fn exchange(reply: Seq<u8>, sent_ms: u64, times: Seq<u64>) -> Seq<QueryEvent> {
    seq![QueryEvent::Sent { ok: true, now_ms: sent_ms }] + byte_rounds(reply, times)
}

/// The events of a query in which everything goes well: raw mode comes on,
/// the exchange for the foreground and that for the background succeed, and
/// the terminal is put back.
pub open spec fn complete_query(
    fg_reply: Seq<u8>,
    fg_sent: u64,
    fg_times: Seq<u64>,
    bg_reply: Seq<u8>,
    bg_sent: u64,
    bg_times: Seq<u64>,
) -> Seq<QueryEvent> {
    seq![QueryEvent::RawMode { enabled: true }] + exchange(fg_reply, fg_sent, fg_times) + exchange(
        bg_reply,
        bg_sent,
        bg_times,
    ) + seq![QueryEvent::RawModeRestored]
}

/// Running the engine over no event changes nothing.
pub proof fn lemma_run_none(state: QueryState)
    ensures
        state.run(Seq::empty()) == state,
{
    reveal(QueryState::run);
}

/// Running the engine over some events is running it over all but the last
/// of them and taking one more step.
pub proof fn lemma_run_last(state: QueryState, events: Seq<QueryEvent>)
    requires
        events.len() > 0,
    ensures
        state.run(events) == state.run(events.drop_last()).next(events.last()),
{
    reveal(QueryState::run);
}

/// Running the engine over one event is taking one step.
pub proof fn lemma_run_one(state: QueryState, event: QueryEvent)
    ensures
        state.run(seq![event]) == state.next(event),
{
    let events = seq![event];
    assert(events.drop_last() =~= Seq::<QueryEvent>::empty());
    assert(events.last() == event);
    lemma_run_last(state, events);
    lemma_run_none(state);
}

/// Running the engine over two runs of events, one after the other, is
/// running it over the first and going on from there over the second.
pub proof fn lemma_run_concat(state: QueryState, first: Seq<QueryEvent>, second: Seq<QueryEvent>)
    ensures
        state.run(first + second) == state.run(first).run(second),
    decreases second.len(),
{
    if second.len() == 0 {
        assert(first + second =~= first);
        assert(second =~= Seq::<QueryEvent>::empty());
        lemma_run_none(state.run(first));
    } else {
        let both = first + second;
        lemma_run_concat(state, first, second.drop_last());
        assert(both.drop_last() =~= first + second.drop_last());
        assert(both.last() == second.last());
        lemma_run_last(state, both);
        lemma_run_last(state.run(first), second);
    }
}

/// One byte read before the deadline: it is appended to the reply, and the
/// exchange ends if the reply now ends with a terminator.
pub proof fn lemma_byte_round(state: QueryState, channel: Channel, b: u8, now_ms: u64)
    requires
        state.phase == QueryPhase::CheckingClock(channel),
        !state.expired(now_ms),
    ensures
        state.run(byte_round(b, now_ms)) == if ends_with_terminator(state.response.push(b)) {
            state.conclude(channel, response_color(state.response.push(b)))
        } else {
            QueryState { response: state.response.push(b), ..state }
        },
{
    let clock = QueryEvent::Clock { now_ms };
    let polled = QueryEvent::Polled { ready: false };
    let read = QueryEvent::ByteRead(ReadOutcome::Byte(b));
    assert(byte_round(b, now_ms) =~= seq![clock] + seq![polled] + seq![read]);
    lemma_run_concat(state, seq![clock] + seq![polled], seq![read]);
    lemma_run_concat(state, seq![clock], seq![polled]);
    lemma_run_one(state, clock);
    let polling = state.next(clock);
    assert(polling == state.at(QueryPhase::Polling(channel)));
    lemma_run_one(polling, polled);
    let reading = polling.next(polled);
    assert(reading == state.at(QueryPhase::ReadingByte(channel)));
    lemma_run_one(reading, read);
}

/// While a reply is incomplete the engine keeps reading: after the bytes
/// `head`, none of which completes a terminator, it holds exactly those
/// bytes and looks at the clock again.
pub proof fn lemma_partial_reply(
    state: QueryState,
    channel: Channel,
    head: Seq<u8>,
    times: Seq<u64>,
)
    requires
        state.phase == QueryPhase::CheckingClock(channel),
        state.response.len() == 0,
        in_time(head, times, state.sent_at),
        unterminated(head),
    ensures
        state.run(byte_rounds(head, times)) == (QueryState { response: head, ..state }),
    decreases head.len(),
{
    if head.len() == 0 {
        lemma_run_none(state);
        assert(state.response =~= head);
    } else {
        let shorter = head.drop_last();
        let earlier = times.drop_last();
        lemma_unterminated_drop_last(head);
        assert(in_time(shorter, earlier, state.sent_at)) by {
            assert forall|i: int| 0 <= i < earlier.len() implies earlier[i] - state.sent_at
                < 100 by {
                assert(earlier[i] == times[i]);
            }
        }
        lemma_partial_reply(state, channel, shorter, earlier);
        let before = QueryState { response: shorter, ..state };
        assert(!before.expired(times.last())) by {
            assert(times.last() == times[times.len() - 1]);
        }
        lemma_run_concat(state, byte_rounds(shorter, earlier), byte_round(head.last(), times.last()));
        lemma_byte_round(before, channel, head.last(), times.last());
        assert(shorter.push(head.last()) =~= head);
    }
}

/// A reply that arrives in time is reported as the parser reads it. When the
/// bytes of a reply that ends with its first terminator reach the engine one
/// by one before the deadline, the exchange ends with the last byte, and its
/// color is the one that the whole reply reports.
pub proof fn lemma_reply_in_time(
    state: QueryState,
    channel: Channel,
    reply: Seq<u8>,
    times: Seq<u64>,
)
    requires
        state.phase == QueryPhase::CheckingClock(channel),
        state.response.len() == 0,
        in_time(reply, times, state.sent_at),
        complete_reply(reply),
    ensures
        state.run(byte_rounds(reply, times)) == state.conclude(channel, response_color(reply)),
{
    let head = reply.drop_last();
    let earlier = times.drop_last();
    assert(in_time(head, earlier, state.sent_at)) by {
        assert forall|i: int| 0 <= i < earlier.len() implies earlier[i] - state.sent_at < 100 by {
            assert(earlier[i] == times[i]);
        }
    }
    lemma_partial_reply(state, channel, head, earlier);
    let before = QueryState { response: head, ..state };
    assert(!before.expired(times.last())) by {
        assert(times.last() == times[times.len() - 1]);
    }
    lemma_run_concat(state, byte_rounds(head, earlier), byte_round(reply.last(), times.last()));
    lemma_byte_round(before, channel, reply.last(), times.last());
    assert(head.push(reply.last()) =~= reply);
}

/// An exchange that goes well ends with the color that the reply reports.
pub proof fn lemma_exchange(
    state: QueryState,
    channel: Channel,
    reply: Seq<u8>,
    sent_ms: u64,
    times: Seq<u64>,
)
    requires
        state.phase == QueryPhase::Sending(channel),
        state.response.len() == 0,
        in_time(reply, times, sent_ms),
        complete_reply(reply),
    ensures
        state.run(exchange(reply, sent_ms, times)) == (QueryState {
            sent_at: sent_ms,
            ..state
        }).conclude(channel, response_color(reply)),
{
    let sent = QueryEvent::Sent { ok: true, now_ms: sent_ms };
    lemma_run_concat(state, seq![sent], byte_rounds(reply, times));
    lemma_run_one(state, sent);
    let reading = state.next(sent);
    assert(reading == QueryState {
        phase: QueryPhase::CheckingClock(channel),
        sent_at: sent_ms,
        ..state
    });
    lemma_reply_in_time(reading, channel, reply, times);
}

/// A query in which everything goes well finds what the terminal said. When
/// both replies arrive complete and in time, the engine finishes with the
/// colors that the parser reads from them, and the cache then holds those
/// colors.
pub proof fn lemma_complete_query(
    cache: CacheState,
    fg_reply: Seq<u8>,
    fg_sent: u64,
    fg_times: Seq<u64>,
    bg_reply: Seq<u8>,
    bg_sent: u64,
    bg_times: Seq<u64>,
)
    requires
        complete_reply(fg_reply),
        in_time(fg_reply, fg_times, fg_sent),
        complete_reply(bg_reply),
        in_time(bg_reply, bg_times, bg_sent),
    ensures
        QueryState::start().run(
            complete_query(fg_reply, fg_sent, fg_times, bg_reply, bg_sent, bg_times),
        ).pending() == ActionModel::Done(
            TerminalColors {
                foreground: response_color(fg_reply),
                background: response_color(bg_reply),
            },
        ),
        QueryState::start().run_cache(
            cache,
            complete_query(fg_reply, fg_sent, fg_times, bg_reply, bg_sent, bg_times),
        ) == cache.store(
            TerminalColors {
                foreground: response_color(fg_reply),
                background: response_color(bg_reply),
            },
        ),
{
    let start = QueryState::start();
    let raw = seq![QueryEvent::RawMode { enabled: true }];
    let fg = exchange(fg_reply, fg_sent, fg_times);
    let bg = exchange(bg_reply, bg_sent, bg_times);
    let restored = seq![QueryEvent::RawModeRestored];
    let events = complete_query(fg_reply, fg_sent, fg_times, bg_reply, bg_sent, bg_times);
    lemma_run_concat(start, raw + fg + bg, restored);
    lemma_run_concat(start, raw + fg, bg);
    lemma_run_concat(start, raw, fg);
    lemma_run_one(start, QueryEvent::RawMode { enabled: true });
    let s0 = start.run(raw);
    lemma_exchange(s0, Channel::Foreground, fg_reply, fg_sent, fg_times);
    let s1 = s0.run(fg);
    lemma_exchange(s1, Channel::Background, bg_reply, bg_sent, bg_times);
    let s2 = s1.run(bg);
    lemma_run_one(s2, QueryEvent::RawModeRestored);
    assert(start.run(events) == s2.run(restored));
    lemma_cache_follows_completion(cache, events);
}

/// The reply `ESC ] code ; rgb:r/g/b ESC \` ends with a terminator, and with
/// the first one in it.
pub proof fn lemma_osc_reply_is_complete(code: u8, r: Seq<u8>, g: Seq<u8>, b: Seq<u8>)
    requires
        component_value(r) is Some,
        component_value(g) is Some,
        component_value(b) is Some,
    ensures
        complete_reply(osc_reply(code, r, g, b)),
{
    let bytes = osc_reply(code, r, g, b);
    let head = reply_head(code);
    let digits = decimal(code as nat);
    let color = triple(r, g, b);
    let body = bytes.drop_last();
    lemma_decimal_is_digits(code as nat);
    assert forall|i: int| 0 <= i < body.len() implies body[i] != 0x07u8 && body[i] != 0x5cu8 by {
        if i < head.len() {
            if 2 <= i < 2 + digits.len() {
                assert(body[i] == digits[i - 2]);
            }
        } else if i >= head.len() + 4 && i < head.len() + 4 + color.len() {
            let k = i - head.len() - 4;
            assert(body[i] == color[k]);
            if k < r.len() {
                assert(hex_digit(r[k]) is Some);
            } else if k > r.len() && k < r.len() + 1 + g.len() {
                assert(hex_digit(g[k - r.len() - 1]) is Some);
            } else if k > r.len() + 1 + g.len() {
                assert(hex_digit(b[k - r.len() - 1 - g.len() - 1]) is Some);
            }
        }
    }
    assert forall|end: int| !#[trigger] terminator_at(body, end) by {
        if 1 <= end <= body.len() {
            assert(body[end - 1] != 0x07u8 && body[end - 1] != 0x5cu8);
        }
    }
}

/// A terminal that answers finds itself in the cache. When the terminal
/// answers the two queries in time, with `ESC ] 10 ; rgb:r/g/b ESC \` and
/// `ESC ] 11 ; rgb:r/g/b ESC \`, the engine finishes with the values of the
/// six components as the two colors, and the cache then holds them.
pub proof fn lemma_terminal_answers(
    cache: CacheState,
    fg: (Seq<u8>, Seq<u8>, Seq<u8>),
    fg_sent: u64,
    fg_times: Seq<u64>,
    bg: (Seq<u8>, Seq<u8>, Seq<u8>),
    bg_sent: u64,
    bg_times: Seq<u64>,
)
    requires
        component_value(fg.0) is Some && component_value(fg.1) is Some && component_value(fg.2)
            is Some,
        component_value(bg.0) is Some && component_value(bg.1) is Some && component_value(bg.2)
            is Some,
        in_time(osc_reply(FOREGROUND_CODE, fg.0, fg.1, fg.2), fg_times, fg_sent),
        in_time(osc_reply(BACKGROUND_CODE, bg.0, bg.1, bg.2), bg_times, bg_sent),
    ensures
        ({
            let events = complete_query(
                osc_reply(FOREGROUND_CODE, fg.0, fg.1, fg.2),
                fg_sent,
                fg_times,
                osc_reply(BACKGROUND_CODE, bg.0, bg.1, bg.2),
                bg_sent,
                bg_times,
            );
            let colors = TerminalColors {
                foreground: Some(
                    (
                        component_value(fg.0).unwrap(),
                        component_value(fg.1).unwrap(),
                        component_value(fg.2).unwrap(),
                    ),
                ),
                background: Some(
                    (
                        component_value(bg.0).unwrap(),
                        component_value(bg.1).unwrap(),
                        component_value(bg.2).unwrap(),
                    ),
                ),
            };
            &&& QueryState::start().run(events).pending() == ActionModel::Done(colors)
            &&& QueryState::start().run_cache(cache, events) == cache.store(colors)
        }),
{
    let fg_reply = osc_reply(FOREGROUND_CODE, fg.0, fg.1, fg.2);
    let bg_reply = osc_reply(BACKGROUND_CODE, bg.0, bg.1, bg.2);
    lemma_osc_reply_is_complete(FOREGROUND_CODE, fg.0, fg.1, fg.2);
    lemma_osc_reply_is_complete(BACKGROUND_CODE, bg.0, bg.1, bg.2);
    lemma_osc_reply(FOREGROUND_CODE, fg.0, fg.1, fg.2);
    lemma_osc_reply(BACKGROUND_CODE, bg.0, bg.1, bg.2);
    lemma_complete_query(cache, fg_reply, fg_sent, fg_times, bg_reply, bg_sent, bg_times);
}

} // verus!
