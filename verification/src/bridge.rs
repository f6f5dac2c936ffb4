//! The theme-change bridge.
//!
//! When the user changes the theme of the outer terminal, the operating
//! system can tell the program so with a notification (on Unix, the first
//! user-defined signal). The bridge turns each notification into a
//! [`ThemeChangeEvent`] for the program's main loop. Like the query engine it
//! decides and does not act: it is a state machine whose actions the
//! embedding program carries out in a background task.

use crate::cache::{get_outer_colors, CacheState, ColorCache};
use crate::colors::ThemeChangeEvent;
use vstd::prelude::*;

verus! {

/// Why the bridge stopped.
#[derive(Debug, Clone, Copy, PartialEq, Eq)]
pub enum StopReason {
    /// The platform has no such notification: the bridge does nothing, which
    /// is no error.
    Unsupported,
    /// The listener for the notification could not be installed. Theme
    /// changes go unnoticed; the colors found at startup stay.
    RegistrationFailed,
    /// The receiving end of the channel is gone.
    ReceiverGone,
}

/// Where the bridge stands.
#[derive(Debug, Clone, Copy, PartialEq, Eq)]
pub enum BridgePhase {
    /// The listener is being installed.
    Registering,
    /// The bridge waits for the next notification.
    Idle,
    /// A notification came and this event is being sent.
    Emitting(ThemeChangeEvent),
    /// The bridge is at its end.
    Stopped(StopReason),
}

/// What the embedding program reports to the bridge.
#[derive(Debug, Clone, Copy, PartialEq, Eq)]
pub enum BridgeEvent {
    /// Answer to `Register`: whether the listener is installed.
    Registered { ok: bool },
    /// Answer to `AwaitNotification`: a notification came.
    Notified,
    /// Answer to `Emit`: whether the channel took the event.
    Delivered { ok: bool },
}

/// What the bridge asks the embedding program to do next.
#[derive(Debug, Clone, Copy, PartialEq, Eq)]
pub enum BridgeAction {
    /// Install the listener for the notification.
    Register,
    /// Wait for the next notification.
    AwaitNotification,
    /// Send this event on the channel.
    Emit(ThemeChangeEvent),
    /// End the background task.
    Exit(StopReason),
}

impl BridgePhase {
    /// The bridge at its start, on a platform that has the notification or
    /// on one that lacks it.
    pub open spec fn start(supported: bool) -> BridgePhase {
        if supported {
            BridgePhase::Registering
        } else {
            BridgePhase::Stopped(StopReason::Unsupported)
        }
    }

    /// The action that the bridge waits to have answered.
    pub open spec fn pending(self) -> BridgeAction {
        match self {
            BridgePhase::Registering => BridgeAction::Register,
            BridgePhase::Idle => BridgeAction::AwaitNotification,
            BridgePhase::Emitting(event) => BridgeAction::Emit(event),
            BridgePhase::Stopped(reason) => BridgeAction::Exit(reason),
        }
    }

    /// The bridge after `event`, while the cache holds `cache`. A
    /// notification is answered with the colors that the cache holds at that
    /// moment. An event that does not answer the pending action changes
    /// nothing.
    pub open spec fn next(self, cache: CacheState, event: BridgeEvent) -> BridgePhase {
        match (self, event) {
            (BridgePhase::Registering, BridgeEvent::Registered { ok }) => if ok {
                BridgePhase::Idle
            } else {
                BridgePhase::Stopped(StopReason::RegistrationFailed)
            },
            (BridgePhase::Idle, BridgeEvent::Notified) => BridgePhase::Emitting(
                ThemeChangeEvent { colors: cache.colors() },
            ),
            (BridgePhase::Emitting(_), BridgeEvent::Delivered { ok }) => if ok {
                BridgePhase::Idle
            } else {
                BridgePhase::Stopped(StopReason::ReceiverGone)
            },
            _ => self,
        }
    }
}

/// The bridge from the operating system's notification to the program's
/// event channel.
#[derive(Debug)]
pub struct ThemeBridge {
    phase: BridgePhase,
}

impl View for ThemeBridge {
    type V = BridgePhase;

    closed spec fn view(&self) -> BridgePhase {
        self.phase
    }
}

impl ThemeBridge {
    /// A bridge at its start. `supported` says whether the platform has the
    /// notification.
    pub fn new(supported: bool) -> (bridge: ThemeBridge)
        ensures
            bridge@ == BridgePhase::start(supported),
    {
        if supported {
            ThemeBridge { phase: BridgePhase::Registering }
        } else {
            ThemeBridge { phase: BridgePhase::Stopped(StopReason::Unsupported) }
        }
    }

    /// The phase in which the bridge stands.
    pub fn phase(&self) -> (phase: BridgePhase)
        ensures
            phase == self@,
    {
        self.phase
    }

    /// The action that the bridge waits to have answered. For a new bridge
    /// it is the first thing to do.
    pub fn pending(&self) -> (action: BridgeAction)
        ensures
            action == self@.pending(),
    {
        match self.phase {
            BridgePhase::Registering => BridgeAction::Register,
            BridgePhase::Idle => BridgeAction::AwaitNotification,
            BridgePhase::Emitting(event) => BridgeAction::Emit(event),
            BridgePhase::Stopped(reason) => BridgeAction::Exit(reason),
        }
    }

    /// Takes the answer to the pending action and says what to do next. The
    /// cache is read, never written.
    pub fn step(&mut self, cache: &ColorCache, event: BridgeEvent) -> (action: BridgeAction)
        ensures
            final(self)@ == old(self)@.next(cache@, event),
            action == final(self)@.pending(),
    {
        match (self.phase, event) {
            (BridgePhase::Registering, BridgeEvent::Registered { ok }) => {
                if ok {
                    self.phase = BridgePhase::Idle;
                } else {
                    self.phase = BridgePhase::Stopped(StopReason::RegistrationFailed);
                }
            },
            (BridgePhase::Idle, BridgeEvent::Notified) => {
                let colors = get_outer_colors(cache);
                self.phase = BridgePhase::Emitting(ThemeChangeEvent { colors });
            },
            (BridgePhase::Emitting(_), BridgeEvent::Delivered { ok }) => {
                if ok {
                    self.phase = BridgePhase::Idle;
                } else {
                    self.phase = BridgePhase::Stopped(StopReason::ReceiverGone);
                }
            },
            _ => {},
        }
        self.pending()
    }
}

/// A bridge that stopped stays stopped, for the same reason, and asks for
/// nothing but the end of its task.
pub proof fn lemma_stopped_is_final(reason: StopReason, cache: CacheState, event: BridgeEvent)
    ensures
        BridgePhase::Stopped(reason).next(cache, event) == BridgePhase::Stopped(reason),
        BridgePhase::Stopped(reason).pending() == BridgeAction::Exit(reason),
{
}

/// The bridge stops only when the listener could not be installed, or when
/// the channel refused an event: no notification and no delivery that
/// succeeded ends it.
pub proof fn lemma_stops_only_on_failure(phase: BridgePhase, cache: CacheState, event: BridgeEvent)
    requires
        !(phase is Stopped),
        phase.next(cache, event) is Stopped,
    ensures
        (phase is Registering && event == (BridgeEvent::Registered { ok: false }) && phase.next(
            cache,
            event,
        ) == BridgePhase::Stopped(StopReason::RegistrationFailed)) || (phase is Emitting && event
            == (BridgeEvent::Delivered { ok: false }) && phase.next(cache, event)
            == BridgePhase::Stopped(StopReason::ReceiverGone)),
{
}

/// Each notification is answered with one event, which carries the colors
/// that the cache held when the notification came; after the channel took
/// it, the bridge waits again.
pub proof fn lemma_notification_emits_snapshot(cache: CacheState, later: CacheState)
    ensures
        BridgePhase::Idle.next(cache, BridgeEvent::Notified).pending() == BridgeAction::Emit(
            ThemeChangeEvent { colors: cache.colors() },
        ),
        BridgePhase::Idle.next(cache, BridgeEvent::Notified).next(
            later,
            BridgeEvent::Delivered { ok: true },
        ) == BridgePhase::Idle,
{
}

/// On a platform without the notification the bridge is at its end from the
/// start.
pub proof fn lemma_unsupported_is_inert(cache: CacheState, event: BridgeEvent)
    ensures
        BridgePhase::start(false).pending() == BridgeAction::Exit(StopReason::Unsupported),
        BridgePhase::start(false).next(cache, event) == BridgePhase::start(false),
{
}

} // verus!
