use player_grid::lifecycle::LifecycleEvent;
use player_grid::lifecycle::PlayerAction;
use player_grid::lifecycle::PlayerBinding;
use player_grid::lifecycle::PlayerKind;

#[test]
fn mount_creates_once_then_is_idempotent() {
    let mut b = PlayerBinding::new(PlayerKind::Streaming);
    assert_eq!(b.on_event(LifecycleEvent::Mount, true), PlayerAction::CreatePlayer);
    assert_eq!(b.on_event(LifecycleEvent::Mount, true), PlayerAction::NoAction);
    assert_eq!(b.on_event(LifecycleEvent::Mount, true), PlayerAction::NoAction);
}

#[test]
fn unmount_disposes_once_then_is_idempotent() {
    let mut b = PlayerBinding::new(PlayerKind::VideoUi);
    assert_eq!(b.on_event(LifecycleEvent::Mount, true), PlayerAction::CreatePlayer);
    assert_eq!(b.on_event(LifecycleEvent::Unmount, true), PlayerAction::DisposePlayer);
    assert_eq!(b.on_event(LifecycleEvent::Unmount, true), PlayerAction::NoAction);
    assert_eq!(b.on_event(LifecycleEvent::Unmount, true), PlayerAction::NoAction);
}

#[test]
fn unmount_before_any_mount_is_a_no_op() {
    let mut b = PlayerBinding::new(PlayerKind::Streaming);
    assert_eq!(b.on_event(LifecycleEvent::Unmount, true), PlayerAction::NoAction);
}

#[test]
fn early_mount_signal_is_skipped_and_retried() {
    let mut b = PlayerBinding::new(PlayerKind::Streaming);
    // The element reference is not available yet: no error, nothing created.
    assert_eq!(b.on_event(LifecycleEvent::Mount, false), PlayerAction::NoAction);
    // The next signal finds the element mounted and creates the player.
    assert_eq!(b.on_event(LifecycleEvent::Mount, true), PlayerAction::CreatePlayer);
}

#[test]
fn native_playback_never_holds_a_handle() {
    let mut b = PlayerBinding::new(PlayerKind::Native);
    assert_eq!(b.on_event(LifecycleEvent::Mount, true), PlayerAction::NoAction);
    assert_eq!(b.on_event(LifecycleEvent::Unmount, true), PlayerAction::NoAction);
}

#[test]
fn creations_and_disposals_balance_along_a_trace() {
    let trace = [
        (LifecycleEvent::Mount, false),
        (LifecycleEvent::Mount, true),
        (LifecycleEvent::Mount, true),
        (LifecycleEvent::Unmount, true),
        (LifecycleEvent::Unmount, true),
        (LifecycleEvent::Mount, true),
        (LifecycleEvent::Unmount, true),
    ];
    let mut b = PlayerBinding::new(PlayerKind::VideoUi);
    let mut creates: u32 = 0;
    let mut disposes: u32 = 0;
    for (ev, ready) in trace {
        match b.on_event(ev, ready) {
            PlayerAction::CreatePlayer => creates += 1,
            PlayerAction::DisposePlayer => disposes += 1,
            PlayerAction::NoAction => {}
        }
        // Disposal never runs ahead of creation, and at most one handle is
        // outstanding at any point.
        assert!(disposes <= creates);
        assert!(creates <= disposes + 1);
    }
    assert_eq!(creates, 2);
    assert_eq!(disposes, 2);
}
