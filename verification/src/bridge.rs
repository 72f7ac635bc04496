//! The non-blocking bridge: a state machine, per trigger, between the
//! driving loop and one background polish call. The loop feeds trigger
//! presses and the fixed-cadence channel polls in; the machine answers
//! with the side effects to perform. The loop itself never blocks.

use vstd::prelude::*;
use crate::escape::is_blank_seq;
use crate::escape::is_blank;

verus! {

/// Whether a polish call is in flight.
#[derive(Debug, Clone, Copy, PartialEq, Eq, Structural)]
pub enum BridgeState {
    Idle,
    Pending,
}

/// What one non-blocking read of the one-shot channel observed.
#[derive(Debug)]
pub enum ChannelRead {
    /// No value yet; the background call is still running.
    Empty,
    /// The single result arrived.
    Value { outcome: Result<String, String> },
    /// The background context ended without sending.
    Closed,
}

/// An event the driving loop feeds into the machine.
#[derive(Debug)]
pub enum BridgeEvent {
    /// The user pressed the trigger with the editor holding `input`.
    Trigger { input: String },
    /// One tick of the fixed-cadence poll, with what it saw.
    PollTick { read: ChannelRead },
}

/// The side effects the driving loop must perform after one step.
#[derive(Debug)]
pub struct BridgeAction {
    /// Start one background polish call on this input.
    pub start_call: Option<String>,
    /// Replace the displayed text with this polished result.
    pub replace_text: Option<String>,
    /// Show this status-indicator text.
    pub set_status: Option<String>,
    /// Enable (`true`) or disable (`false`) the trigger control.
    pub set_trigger_enabled: Option<bool>,
    /// Whether the periodic poll must remain scheduled after this step.
    pub poll_scheduled: bool,
}

/// Whether one channel read ends the pending call.
pub open spec fn conclusive(read: ChannelRead) -> bool {
    !(read is Empty)
}

/// The state after one poll result.
pub open spec fn spec_next(state: BridgeState, read: ChannelRead) -> BridgeState {
    match state {
        BridgeState::Idle => BridgeState::Idle,
        BridgeState::Pending => if conclusive(read) {
            BridgeState::Idle
        } else {
            BridgeState::Pending
        },
    }
}

/// No side effect at all.
pub open spec fn no_effect(a: BridgeAction) -> bool {
    a.start_call is None && a.replace_text is None && a.set_status is None
        && a.set_trigger_enabled is None
}

/// The full behaviour of one step: the state reached and every side
/// effect, for each state and event.
pub open spec fn step_spec(
    state: BridgeState,
    event: BridgeEvent,
    post: BridgeState,
    a: BridgeAction,
) -> bool {
    &&& a.poll_scheduled == (post is Pending)
    &&& match event {
        BridgeEvent::Trigger { input } => {
            if state is Pending {
                // the trigger control is disabled while a call is pending
                &&& post is Pending
                &&& no_effect(a)
            } else if is_blank_seq(input@) {
                // blank input never leaves Idle and never starts a call
                &&& post is Idle
                &&& a.start_call is None
                &&& a.replace_text is None
                &&& a.set_trigger_enabled is None
                &&& a.set_status matches Some(s) && s@ == "Scratchpad is empty."@
            } else {
                &&& post is Pending
                &&& a.start_call matches Some(inp) && inp == input
                &&& a.replace_text is None
                &&& a.set_status matches Some(s) && s@ == "Polishing..."@
                &&& a.set_trigger_enabled == Some(false)
            }
        },
        BridgeEvent::PollTick { read } => {
            &&& post == spec_next(state, read)
            &&& if state is Idle {
                no_effect(a)
            } else {
                match read {
                    ChannelRead::Empty => no_effect(a),
                    ChannelRead::Value { outcome: Ok(text) } => {
                        &&& a.start_call is None
                        &&& a.replace_text == Some(text)
                        &&& a.set_status matches Some(s) && s@ == "Done"@
                        &&& a.set_trigger_enabled == Some(true)
                    },
                    ChannelRead::Value { outcome: Err(msg) } => {
                        &&& a.start_call is None
                        &&& a.replace_text is None
                        &&& a.set_status matches Some(s) && s@ == "Error: "@ + msg@
                        &&& a.set_trigger_enabled == Some(true)
                    },
                    ChannelRead::Closed => {
                        &&& a.start_call is None
                        &&& a.replace_text is None
                        &&& a.set_status matches Some(s) && s@
                            == "Error: worker thread disconnected"@
                        &&& a.set_trigger_enabled == Some(true)
                    },
                }
            }
        },
    }
}

/// Performs one step of the bridge.
pub fn bridge_step(state: BridgeState, event: BridgeEvent) -> (r: (BridgeState, BridgeAction))
    ensures
        step_spec(state, event, r.0, r.1),
{
    match event {
        BridgeEvent::Trigger { input } => {
            match state {
                BridgeState::Pending => (
                    BridgeState::Pending,
                    BridgeAction {
                        start_call: None,
                        replace_text: None,
                        set_status: None,
                        set_trigger_enabled: None,
                        poll_scheduled: true,
                    },
                ),
                BridgeState::Idle => {
                    if is_blank(input.as_str()) {
                        (
                            BridgeState::Idle,
                            BridgeAction {
                                start_call: None,
                                replace_text: None,
                                set_status: Some(String::from_str("Scratchpad is empty.")),
                                set_trigger_enabled: None,
                                poll_scheduled: false,
                            },
                        )
                    } else {
                        (
                            BridgeState::Pending,
                            BridgeAction {
                                start_call: Some(input),
                                replace_text: None,
                                set_status: Some(String::from_str("Polishing...")),
                                set_trigger_enabled: Some(false),
                                poll_scheduled: true,
                            },
                        )
                    }
                },
            }
        },
        BridgeEvent::PollTick { read } => {
            match state {
                BridgeState::Idle => (
                    BridgeState::Idle,
                    BridgeAction {
                        start_call: None,
                        replace_text: None,
                        set_status: None,
                        set_trigger_enabled: None,
                        poll_scheduled: false,
                    },
                ),
                BridgeState::Pending => match read {
                    ChannelRead::Empty => (
                        BridgeState::Pending,
                        BridgeAction {
                            start_call: None,
                            replace_text: None,
                            set_status: None,
                            set_trigger_enabled: None,
                            poll_scheduled: true,
                        },
                    ),
                    ChannelRead::Value { outcome } => match outcome {
                        Ok(text) => (
                            BridgeState::Idle,
                            BridgeAction {
                                start_call: None,
                                replace_text: Some(text),
                                set_status: Some(String::from_str("Done")),
                                set_trigger_enabled: Some(true),
                                poll_scheduled: false,
                            },
                        ),
                        Err(msg) => {
                            let mut m = String::from_str("Error: ");
                            m.append(msg.as_str());
                            (
                                BridgeState::Idle,
                                BridgeAction {
                                    start_call: None,
                                    replace_text: None,
                                    set_status: Some(m),
                                    set_trigger_enabled: Some(true),
                                    poll_scheduled: false,
                                },
                            )
                        },
                    },
                    ChannelRead::Closed => (
                        BridgeState::Idle,
                        BridgeAction {
                            start_call: None,
                            replace_text: None,
                            set_status: Some(
                                String::from_str("Error: worker thread disconnected"),
                            ),
                            set_trigger_enabled: Some(true),
                            poll_scheduled: false,
                        },
                    ),
                },
            }
        },
    }
}

/// The number of terminal transitions (Pending to Idle) when the machine
/// processes the poll results `reads` in order, starting from `state`.
pub open spec fn spec_terminal_count(state: BridgeState, reads: Seq<ChannelRead>) -> nat
    decreases reads.len(),
{
    if reads.len() == 0 {
        0
    } else {
        (if state is Pending && conclusive(reads[0]) {
            1nat
        } else {
            0nat
        }) + spec_terminal_count(spec_next(state, reads[0]), reads.drop_first())
    }
}

/// From Idle no poll result produces a terminal transition.
pub proof fn lemma_idle_never_terminal(reads: Seq<ChannelRead>)
    ensures
        spec_terminal_count(BridgeState::Idle, reads) == 0,
    decreases reads.len(),
{
    if reads.len() > 0 {
        lemma_idle_never_terminal(reads.drop_first());
    }
}

/// Exactly-once delivery: one pending call, observed through any run of
/// poll results, produces exactly one terminal transition when some
/// result is conclusive and none while every result is Empty — never
/// more than one, whatever the polling cadence delivers.
pub proof fn lemma_exactly_once_delivery(reads: Seq<ChannelRead>)
    ensures
        spec_terminal_count(BridgeState::Pending, reads) <= 1,
        (spec_terminal_count(BridgeState::Pending, reads) == 1) <==> (exists|i: int|
            0 <= i < reads.len() && conclusive(reads[i])),
    decreases reads.len(),
{
    if reads.len() == 0 {
    } else if conclusive(reads[0]) {
        lemma_idle_never_terminal(reads.drop_first());
        assert(0 <= 0 < reads.len() && conclusive(reads[0]));
    } else {
        lemma_exactly_once_delivery(reads.drop_first());
        if spec_terminal_count(BridgeState::Pending, reads) == 1 {
            let j = choose|j: int|
                0 <= j < reads.drop_first().len() && conclusive(reads.drop_first()[j]);
            assert(reads.drop_first()[j] == reads[j + 1]);
            assert(0 <= j + 1 < reads.len() && conclusive(reads[j + 1]));
        }
        if exists|i: int| 0 <= i < reads.len() && conclusive(reads[i]) {
            let i = choose|i: int| 0 <= i < reads.len() && conclusive(reads[i]);
            assert(i >= 1);
            assert(reads.drop_first()[i - 1] == reads[i]);
            assert(0 <= i - 1 < reads.drop_first().len() && conclusive(reads.drop_first()[i - 1]));
        }
    }
}

/// While a call is pending, a further trigger has no effect: no new call
/// starts, nothing on screen changes, and the machine stays Pending.
pub proof fn lemma_pending_trigger_ignored(input: String, post: BridgeState, a: BridgeAction)
    requires
        step_spec(BridgeState::Pending, BridgeEvent::Trigger { input }, post, a),
    ensures
        post is Pending,
        no_effect(a),
{
}

/// Blank or whitespace-only input never starts a background call, from
/// any state.
pub proof fn lemma_blank_never_calls(
    state: BridgeState,
    input: String,
    post: BridgeState,
    a: BridgeAction,
)
    requires
        step_spec(state, BridgeEvent::Trigger { input }, post, a),
        is_blank_seq(input@),
    ensures
        a.start_call is None,
{
}

/// A poll result moves the state as `spec_next` says: the pending call
/// ends exactly on the first conclusive read, and polling remains
/// scheduled exactly while a call is pending.
pub proof fn lemma_poll_follows_next(
    state: BridgeState,
    read: ChannelRead,
    post: BridgeState,
    a: BridgeAction,
)
    requires
        step_spec(state, BridgeEvent::PollTick { read }, post, a),
    ensures
        post == spec_next(state, read),
        a.poll_scheduled == (post is Pending),
{
}

} // verus!
