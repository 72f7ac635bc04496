use hypr_magic::bridge::{bridge_step, BridgeAction, BridgeEvent, BridgeState, ChannelRead};

fn trigger(input: &str) -> BridgeEvent {
    BridgeEvent::Trigger { input: input.to_string() }
}

fn poll(read: ChannelRead) -> BridgeEvent {
    BridgeEvent::PollTick { read }
}

fn is_terminal(before: BridgeState, after: BridgeState) -> bool {
    before == BridgeState::Pending && after == BridgeState::Idle
}

fn has_no_effect(a: &BridgeAction) -> bool {
    a.start_call.is_none() && a.replace_text.is_none() && a.set_status.is_none()
        && a.set_trigger_enabled.is_none()
}

#[test]
fn blank_input_never_starts_a_call() {
    let mut call_count: u32 = 0;
    for blank in ["", "   ", " \t\n", "\u{a0}\u{2000}"] {
        let (state, action) = bridge_step(BridgeState::Idle, trigger(blank));
        if action.start_call.is_some() {
            call_count += 1;
        }
        assert_eq!(state, BridgeState::Idle);
        assert_eq!(action.set_status.as_deref(), Some("Scratchpad is empty."));
        assert!(action.set_trigger_enabled.is_none());
        assert!(!action.poll_scheduled);
    }
    assert_eq!(call_count, 0);
}

#[test]
fn nonblank_trigger_starts_exactly_one_call() {
    let (state, action) = bridge_step(BridgeState::Idle, trigger("polish me"));
    assert_eq!(state, BridgeState::Pending);
    assert_eq!(action.start_call.as_deref(), Some("polish me"));
    assert_eq!(action.set_status.as_deref(), Some("Polishing..."));
    assert_eq!(action.set_trigger_enabled, Some(false));
    assert!(action.poll_scheduled);
}

#[test]
fn second_trigger_while_pending_has_no_effect() {
    let (state, _) = bridge_step(BridgeState::Idle, trigger("first"));
    let mut call_count: u32 = 1;
    let (state, action) = bridge_step(state, trigger("second"));
    if action.start_call.is_some() {
        call_count += 1;
    }
    assert_eq!(call_count, 1);
    assert_eq!(state, BridgeState::Pending);
    assert!(has_no_effect(&action));
    assert!(action.poll_scheduled);
}

#[test]
fn empty_polls_keep_pending() {
    let (mut state, _) = bridge_step(BridgeState::Idle, trigger("text"));
    for _ in 0..3 {
        let (next, action) = bridge_step(state, poll(ChannelRead::Empty));
        assert_eq!(next, BridgeState::Pending);
        assert!(has_no_effect(&action));
        assert!(action.poll_scheduled);
        state = next;
    }
}

#[test]
fn success_value_resolves_exactly_once() {
    let (mut state, _) = bridge_step(BridgeState::Idle, trigger("text"));
    let reads = [
        ChannelRead::Empty,
        ChannelRead::Empty,
        ChannelRead::Value { outcome: Ok("Polished text".to_string()) },
        ChannelRead::Empty,
        ChannelRead::Value { outcome: Ok("late".to_string()) },
    ];
    let mut terminal_count: u32 = 0;
    let mut status_updates: Vec<String> = Vec::new();
    for read in reads {
        let before = state;
        let (next, action) = bridge_step(state, poll(read));
        if is_terminal(before, next) {
            terminal_count += 1;
        }
        if let Some(s) = action.set_status {
            status_updates.push(s);
        }
        state = next;
    }
    assert_eq!(terminal_count, 1);
    assert_eq!(status_updates, vec!["Done".to_string()]);
    assert_eq!(state, BridgeState::Idle);
}

#[test]
fn failure_value_shows_error_and_reenables() {
    let (state, _) = bridge_step(BridgeState::Idle, trigger("text"));
    let (next, action) = bridge_step(
        state,
        poll(ChannelRead::Value { outcome: Err("Request failed: timeout".to_string()) }),
    );
    assert_eq!(next, BridgeState::Idle);
    assert_eq!(action.set_status.as_deref(), Some("Error: Request failed: timeout"));
    assert_eq!(action.set_trigger_enabled, Some(true));
    assert!(action.replace_text.is_none());
    assert!(!action.poll_scheduled);
}

#[test]
fn disconnect_resolves_exactly_once() {
    let (state, _) = bridge_step(BridgeState::Idle, trigger("text"));
    let mut terminal_count: u32 = 0;
    let before = state;
    let (next, action) = bridge_step(state, poll(ChannelRead::Closed));
    if is_terminal(before, next) {
        terminal_count += 1;
    }
    assert_eq!(terminal_count, 1);
    assert_eq!(next, BridgeState::Idle);
    assert_eq!(action.set_status.as_deref(), Some("Error: worker thread disconnected"));
    assert_eq!(action.set_trigger_enabled, Some(true));
    assert!(!action.poll_scheduled);
}

#[test]
fn poll_while_idle_does_nothing() {
    let (next, action) = bridge_step(
        BridgeState::Idle,
        poll(ChannelRead::Value { outcome: Ok("stray".to_string()) }),
    );
    assert_eq!(next, BridgeState::Idle);
    assert!(has_no_effect(&action));
    assert!(!action.poll_scheduled);
}

#[test]
fn success_replaces_displayed_text() {
    let (state, _) = bridge_step(BridgeState::Idle, trigger("raw text"));
    let (_, action) = bridge_step(
        state,
        poll(ChannelRead::Value { outcome: Ok("Polished.".to_string()) }),
    );
    assert_eq!(action.replace_text.as_deref(), Some("Polished."));
    assert_eq!(action.set_trigger_enabled, Some(true));
}
