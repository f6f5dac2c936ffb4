//! What holds of every step of the query engine.
//!
//! Each statement here is about the transition function
//! [`QueryState::next`], which [`crate::engine::ColorQuery::step`] computes.

use crate::cache::CacheState;
use crate::colors::TerminalColors;
use crate::engine::{
    lemma_next_keeps_well_formed, lemma_start_is_well_formed, ActionModel, Channel, QueryEvent,
    QueryPhase, QueryState, ReadOutcome,
};
use crate::osc::{ends_with_terminator, query_bytes, BACKGROUND_CODE, FOREGROUND_CODE};
use crate::response::response_color;
use vstd::prelude::*;

verus! {

/// Every state that the engine reaches from its start is well-formed.
pub proof fn lemma_reachable_is_well_formed(events: Seq<QueryEvent>)
    ensures
        QueryState::start().run(events).wf(),
    decreases events.len(),
{
    reveal(QueryState::run);
    lemma_start_is_well_formed();
    if events.len() > 0 {
        lemma_reachable_is_well_formed(events.drop_last());
        lemma_next_keeps_well_formed(QueryState::start().run(events.drop_last()), events.last());
    }
}

/// An event that does not answer the pending action changes nothing, and a
/// query that is over stays as it is.
pub proof fn lemma_stray_event_is_ignored(state: QueryState, event: QueryEvent)
    requires
        !state.answers(event),
    ensures
        state.next(event) == state,
{
}

/// The deadline bounds every exchange. When the clock is read a hundred
/// milliseconds or more after the query was written, the exchange ends with
/// whatever the bytes read so far report, and no further read is asked for.
pub proof fn lemma_deadline_ends_exchange(state: QueryState, channel: Channel, now_ms: u64)
    requires
        state.phase == QueryPhase::CheckingClock(channel),
        now_ms - state.sent_at >= 100,
    ensures
        state.next(QueryEvent::Clock { now_ms }) == state.conclude(
            channel,
            response_color(state.response),
        ),
        state.next(QueryEvent::Clock { now_ms }).phase.channel() != Some(channel),
        !(state.next(QueryEvent::Clock { now_ms }).pending() is ReadByte),
{
}

/// Between two looks at the clock the engine asks for at most four things:
/// a poll, an event, a byte and a rest. Each answer brings it closer to the
/// clock, or ends the exchange.
pub proof fn lemma_round_is_bounded(state: QueryState, event: QueryEvent)
    requires
        state.phase.distance_to_clock() > 0,
        state.answers(event),
    ensures
        state.next(event).phase.distance_to_clock() < state.phase.distance_to_clock(),
{
}

/// No reading outlasts its deadline by more than five actions. Once a
/// hundred milliseconds have passed since the query was written, every
/// answer brings the reading closer to its end: a late clock ends it, and
/// every other answer leads to the clock.
pub proof fn lemma_late_reading_ends(state: QueryState, channel: Channel, event: QueryEvent)
    requires
        state.phase.distance_to_end(channel) > 0,
        state.answers(event),
        event matches QueryEvent::Clock { now_ms } ==> now_ms - state.sent_at >= 100,
    ensures
        state.next(event).phase.distance_to_end(channel) < state.phase.distance_to_end(channel),
        state.next(event).sent_at == state.sent_at,
{
}

/// A query that could not be written leaves its color unknown, and nothing
/// is read for it.
pub proof fn lemma_write_failure_leaves_color_unknown(
    state: QueryState,
    channel: Channel,
    now_ms: u64,
)
    requires
        state.phase == QueryPhase::Sending(channel),
    ensures
        state.next(QueryEvent::Sent { ok: false, now_ms }) == state.conclude(channel, None),
        state.next(QueryEvent::Sent { ok: false, now_ms }).phase.channel() != Some(channel),
{
}

/// A key pressed while the engine waits for the reply is dropped: it leaves
/// no trace in the bytes of the reply, and the engine looks at the clock
/// again.
pub proof fn lemma_key_press_is_discarded(state: QueryState, channel: Channel)
    requires
        state.phase == QueryPhase::ReadingEvent(channel),
    ensures
        state.next(QueryEvent::EventRead { key: true }) == state.at(
            QueryPhase::CheckingClock(channel),
        ),
{
}

/// A read that finds nothing is followed by a rest of five milliseconds, not
/// by another read.
pub proof fn lemma_empty_read_is_followed_by_rest(state: QueryState, channel: Channel)
    requires
        state.phase == QueryPhase::ReadingByte(channel),
    ensures
        state.next(QueryEvent::ByteRead(ReadOutcome::NotReady)).pending() == (ActionModel::Sleep {
            ms: 5,
        }),
        state.next(QueryEvent::ByteRead(ReadOutcome::NotReady)).response == state.response,
{
}

/// The end of the input ends the exchange at once, with whatever the bytes
/// read so far report.
pub proof fn lemma_end_of_input_ends_exchange(state: QueryState, channel: Channel)
    requires
        state.phase == QueryPhase::ReadingByte(channel),
    ensures
        state.next(QueryEvent::ByteRead(ReadOutcome::Eof)) == state.conclude(
            channel,
            response_color(state.response),
        ),
{
}

/// A terminator ends the exchange with the byte that completes it: the
/// reply, terminator included, is handed to the parser, and no byte is read
/// after it.
pub proof fn lemma_terminator_ends_exchange(state: QueryState, channel: Channel, b: u8)
    requires
        state.phase == QueryPhase::ReadingByte(channel),
        ends_with_terminator(state.response.push(b)),
    ensures
        state.next(QueryEvent::ByteRead(ReadOutcome::Byte(b))) == state.conclude(
            channel,
            response_color(state.response.push(b)),
        ),
{
}

/// The two channels are independent. However the exchange for the
/// foreground ends (the query could not be written, the deadline passed, the
/// input ended, the reply made no sense), the query for the background is
/// what the engine sends next.
pub proof fn lemma_foreground_never_stops_background(state: QueryState, event: QueryEvent)
    requires
        state.phase.channel() == Some(Channel::Foreground),
    ensures
        state.next(event).phase.channel() == Some(Channel::Foreground) || (state.next(event).phase
            == QueryPhase::Sending(Channel::Background) && state.next(event).pending()
            == ActionModel::Send(query_bytes(BACKGROUND_CODE))),
{
}

/// Raw mode is given back on every path. While the engine holds raw mode it
/// does not end, whatever happens, before it has asked for the terminal to
/// be put back and has been answered.
pub proof fn lemma_raw_mode_is_restored(state: QueryState, event: QueryEvent)
    requires
        state.phase.holds_raw_mode(),
    ensures
        state.next(event).phase.holds_raw_mode() || (state.phase is Restoring && event
            is RawModeRestored && state.next(event).phase is Finished),
        state.next(event).phase is Restoring ==> state.next(event).pending()
            is DisableRawMode,
        !(state.next(event).phase is Unavailable),
{
}

/// Without raw mode nothing is asked: the engine ends at once, with no color
/// known.
pub proof fn lemma_no_raw_mode_no_query()
    ensures
        QueryState::start().pending() is EnableRawMode,
        QueryState::start().next(QueryEvent::RawMode { enabled: false }).pending()
            == ActionModel::Done(TerminalColors::unknown()),
        QueryState::start().next(QueryEvent::RawMode { enabled: true }).pending()
            == ActionModel::Send(query_bytes(FOREGROUND_CODE)),
{
}

/// The cache reflects completed queries only. Over any run of the engine
/// from its start, the cache is untouched until the engine has finished, and
/// then holds exactly the colors that the engine reports. A query that found
/// raw mode unavailable leaves the cache as it was.
pub proof fn lemma_cache_follows_completion(cache: CacheState, events: Seq<QueryEvent>)
    ensures
        QueryState::start().run_cache(cache, events) == if QueryState::start().run(events).phase
            is Finished {
            cache.store(QueryState::start().run(events).colors)
        } else {
            cache
        },
    decreases events.len(),
{
    reveal(QueryState::run);
    reveal(QueryState::run_cache);
    if events.len() > 0 {
        lemma_cache_follows_completion(cache, events.drop_last());
    }
}

/// A terminal that stays silent until the deadline leaves the color
/// unknown.
pub proof fn lemma_silence_reports_nothing(state: QueryState, channel: Channel, now_ms: u64)
    requires
        state.phase == QueryPhase::CheckingClock(channel),
        state.response.len() == 0,
        state.expired(now_ms),
    ensures
        state.next(QueryEvent::Clock { now_ms }) == state.conclude(channel, None),
{
    assert(response_color(state.response) is None);
}

} // verus!
