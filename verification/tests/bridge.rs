use outer_colors::{
    set_outer_colors, BridgeAction, BridgeEvent, BridgePhase, ColorCache, StopReason,
    TerminalColors, ThemeBridge, ThemeChangeEvent,
};

#[test]
fn bridge_emits_the_cached_colors_on_each_notification() {
    let mut cache = ColorCache::new();
    let mut bridge = ThemeBridge::new(true);
    assert_eq!(bridge.pending(), BridgeAction::Register);
    let action = bridge.step(&cache, BridgeEvent::Registered { ok: true });
    assert_eq!(action, BridgeAction::AwaitNotification);
    assert_eq!(bridge.phase(), BridgePhase::Idle);

    let action = bridge.step(&cache, BridgeEvent::Notified);
    let unknown = ThemeChangeEvent { colors: TerminalColors::default() };
    assert_eq!(action, BridgeAction::Emit(unknown));
    let action = bridge.step(&cache, BridgeEvent::Delivered { ok: true });
    assert_eq!(action, BridgeAction::AwaitNotification);

    let colors = TerminalColors { foreground: Some((1, 2, 3)), background: Some((4, 5, 6)) };
    set_outer_colors(&mut cache, colors);
    let action = bridge.step(&cache, BridgeEvent::Notified);
    assert_eq!(action, BridgeAction::Emit(ThemeChangeEvent { colors }));

    // The event holds the colors of the moment of the notification.
    set_outer_colors(&mut cache, TerminalColors::default());
    assert_eq!(bridge.pending(), BridgeAction::Emit(ThemeChangeEvent { colors }));
    let action = bridge.step(&cache, BridgeEvent::Delivered { ok: true });
    assert_eq!(action, BridgeAction::AwaitNotification);
}

#[test]
fn bridge_stops_when_the_receiver_is_gone() {
    let cache = ColorCache::new();
    let mut bridge = ThemeBridge::new(true);
    bridge.step(&cache, BridgeEvent::Registered { ok: true });
    bridge.step(&cache, BridgeEvent::Notified);
    let action = bridge.step(&cache, BridgeEvent::Delivered { ok: false });
    assert_eq!(action, BridgeAction::Exit(StopReason::ReceiverGone));
    assert_eq!(bridge.phase(), BridgePhase::Stopped(StopReason::ReceiverGone));
    let action = bridge.step(&cache, BridgeEvent::Notified);
    assert_eq!(action, BridgeAction::Exit(StopReason::ReceiverGone));
    let action = bridge.step(&cache, BridgeEvent::Registered { ok: true });
    assert_eq!(action, BridgeAction::Exit(StopReason::ReceiverGone));
}

#[test]
fn bridge_stops_when_registration_fails() {
    let cache = ColorCache::new();
    let mut bridge = ThemeBridge::new(true);
    let action = bridge.step(&cache, BridgeEvent::Registered { ok: false });
    assert_eq!(action, BridgeAction::Exit(StopReason::RegistrationFailed));
    let action = bridge.step(&cache, BridgeEvent::Notified);
    assert_eq!(action, BridgeAction::Exit(StopReason::RegistrationFailed));
}

#[test]
fn bridge_is_inert_without_notifications() {
    let cache = ColorCache::new();
    let mut bridge = ThemeBridge::new(false);
    assert_eq!(bridge.pending(), BridgeAction::Exit(StopReason::Unsupported));
    let action = bridge.step(&cache, BridgeEvent::Registered { ok: true });
    assert_eq!(action, BridgeAction::Exit(StopReason::Unsupported));
    let action = bridge.step(&cache, BridgeEvent::Notified);
    assert_eq!(action, BridgeAction::Exit(StopReason::Unsupported));
}

#[test]
fn bridge_ignores_stray_events() {
    let cache = ColorCache::new();
    let mut bridge = ThemeBridge::new(true);
    assert_eq!(bridge.step(&cache, BridgeEvent::Notified), BridgeAction::Register);
    assert_eq!(bridge.step(&cache, BridgeEvent::Delivered { ok: false }), BridgeAction::Register);
    bridge.step(&cache, BridgeEvent::Registered { ok: true });
    let action = bridge.step(&cache, BridgeEvent::Delivered { ok: false });
    assert_eq!(action, BridgeAction::AwaitNotification);
    let action = bridge.step(&cache, BridgeEvent::Registered { ok: false });
    assert_eq!(action, BridgeAction::AwaitNotification);
    bridge.step(&cache, BridgeEvent::Notified);
    let action = bridge.step(&cache, BridgeEvent::Notified);
    assert!(matches!(action, BridgeAction::Emit(_)));
}
