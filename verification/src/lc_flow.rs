//! The lifecycle transition stage: verify the current state, request the
//! transition, optionally verify the reported post-state.
//!
//! The stage is a state machine: `step` takes the outcome of the previous
//! action and returns the next action to perform, or the stage's result. A
//! driver performs the actions. Any failure is fatal; the machine then
//! releases what it holds — the debug connection, then the pin strap — and
//! ends with the error.

use crate::lc_state::LcState;
use crate::proto::{Action, Error, Event, LcTransitionRequest, OpKind, StepOutput, Tap, Token};
use vstd::prelude::*;

verus! {

/// What a lifecycle transition run is configured to do.
#[derive(Clone, Copy, Debug)]
pub struct LcFlowConfig {
    /// The state the device must be in before the transition is requested.
    pub pre_state: LcState,
    /// The state the transition targets.
    pub target_state: LcState,
    pub token: Token,
    /// Reset the target after strapping, before connecting. Unlocking may
    /// reset; exiting must not, because a reset could let boot firmware run
    /// and lock the debug interface.
    pub reset_before_connect: bool,
    /// Re-read the state register after the transition. Safe only while
    /// code execution is still disabled; exiting defers the check to the
    /// next stage.
    pub verify_post_state: bool,
}

/// Where the run stands: which action is in flight.
#[derive(Clone, Copy, Debug)]
pub enum LcFlowStep {
    Strapping,
    Resetting,
    Connecting,
    ReadingPreState,
    Transitioning,
    ReadingPostState,
    Disconnecting,
    Unstrapping,
    /// Failed while connected: disconnect, then unstrap, then end.
    CleanupDisconnect(Error),
    /// Failed while strapped: unstrap, then end.
    CleanupUnstrap(Error),
    Finished(Result<(), Error>),
}

#[derive(Clone, Copy, Debug)]
pub struct LcTransitionFlow {
    pub cfg: LcFlowConfig,
    pub st: LcFlowStep,
}

impl LcTransitionFlow {
    /// The transition request this run hands to the lifecycle controller.
    pub open spec fn spec_request(self) -> LcTransitionRequest {
        LcTransitionRequest {
            target: self.cfg.target_state,
            token: self.cfg.token,
            use_external_clk: false,
            reconnect_tap: if self.cfg.verify_post_state {
                Some(Tap::Lc)
            } else {
                None
            },
        }
    }

    /// The machine is on the failure path: it only releases resources and
    /// then ends with its error.
    pub open spec fn spec_failing(self) -> bool {
        match self.st {
            LcFlowStep::CleanupDisconnect(_) => true,
            LcFlowStep::CleanupUnstrap(_) => true,
            LcFlowStep::Finished(r) => r is Err,
            _ => false,
        }
    }

    /// The transition table: the machine after the event, and what it hands
    /// the driver.
    pub open spec fn spec_step(self, e: Event) -> (LcTransitionFlow, StepOutput) {
        let fail_unstrapped = |k: Error|
            (
                LcTransitionFlow { st: LcFlowStep::Finished(Err(k)), ..self },
                StepOutput::Done(Err(k)),
            );
        let fail_strapped = |k: Error|
            (
                LcTransitionFlow { st: LcFlowStep::CleanupUnstrap(k), ..self },
                StepOutput::Next(Action::RemoveStrap(Tap::Lc)),
            );
        let fail_connected = |k: Error|
            (
                LcTransitionFlow { st: LcFlowStep::CleanupDisconnect(k), ..self },
                StepOutput::Next(Action::DisconnectJtag),
            );
        match self.st {
            LcFlowStep::Strapping => match e {
                Event::Ack => if self.cfg.reset_before_connect {
                    (
                        LcTransitionFlow { st: LcFlowStep::Resetting, ..self },
                        StepOutput::Next(Action::ResetTarget),
                    )
                } else {
                    (
                        LcTransitionFlow { st: LcFlowStep::Connecting, ..self },
                        StepOutput::Next(Action::ConnectJtag(Tap::Lc)),
                    )
                },
                Event::Failed(k) => fail_unstrapped(k.spec_tag_op(OpKind::ApplyStrap)),
                _ => fail_unstrapped(Error::ProtocolViolation),
            },
            LcFlowStep::Resetting => match e {
                Event::Ack => (
                    LcTransitionFlow { st: LcFlowStep::Connecting, ..self },
                    StepOutput::Next(Action::ConnectJtag(Tap::Lc)),
                ),
                Event::Failed(k) => fail_strapped(k.spec_tag_op(OpKind::ResetTarget)),
                _ => fail_strapped(Error::ProtocolViolation),
            },
            LcFlowStep::Connecting => match e {
                Event::Ack => (
                    LcTransitionFlow { st: LcFlowStep::ReadingPreState, ..self },
                    StepOutput::Next(Action::ReadLcState),
                ),
                Event::Failed(k) => fail_strapped(k.spec_tag_op(OpKind::ConnectJtag)),
                _ => fail_strapped(Error::ProtocolViolation),
            },
            LcFlowStep::ReadingPreState => match e {
                Event::LcStateWord(w) => if w == self.cfg.pre_state.spec_redundant_encoding() {
                    (
                        LcTransitionFlow { st: LcFlowStep::Transitioning, ..self },
                        StepOutput::Next(Action::TriggerTransition(self.spec_request())),
                    )
                } else {
                    fail_connected(
                        Error::PreconditionViolation {
                            expected: self.cfg.pre_state.spec_redundant_encoding(),
                            observed: w,
                        },
                    )
                },
                Event::Failed(k) => fail_connected(k.spec_tag_op(OpKind::ReadLcState)),
                _ => fail_connected(Error::ProtocolViolation),
            },
            LcFlowStep::Transitioning => match e {
                Event::Ack => if self.cfg.verify_post_state {
                    (
                        LcTransitionFlow { st: LcFlowStep::ReadingPostState, ..self },
                        StepOutput::Next(Action::ReadLcState),
                    )
                } else {
                    (
                        LcTransitionFlow { st: LcFlowStep::Disconnecting, ..self },
                        StepOutput::Next(Action::DisconnectJtag),
                    )
                },
                Event::Failed(k) => fail_connected(k.spec_tag_op(OpKind::TriggerTransition)),
                _ => fail_connected(Error::ProtocolViolation),
            },
            LcFlowStep::ReadingPostState => match e {
                Event::LcStateWord(w) => if w == self.cfg.target_state.spec_redundant_encoding() {
                    (
                        LcTransitionFlow { st: LcFlowStep::Disconnecting, ..self },
                        StepOutput::Next(Action::DisconnectJtag),
                    )
                } else {
                    fail_connected(
                        Error::PostTransitionMismatch {
                            expected: self.cfg.target_state.spec_redundant_encoding(),
                            observed: w,
                        },
                    )
                },
                Event::Failed(k) => fail_connected(k.spec_tag_op(OpKind::ReadLcState)),
                _ => fail_connected(Error::ProtocolViolation),
            },
            LcFlowStep::Disconnecting => match e {
                Event::Ack => (
                    LcTransitionFlow { st: LcFlowStep::Unstrapping, ..self },
                    StepOutput::Next(Action::RemoveStrap(Tap::Lc)),
                ),
                Event::Failed(k) => fail_strapped(k.spec_tag_op(OpKind::DisconnectJtag)),
                _ => fail_strapped(Error::ProtocolViolation),
            },
            LcFlowStep::Unstrapping => match e {
                Event::Ack => (
                    LcTransitionFlow { st: LcFlowStep::Finished(Ok(())), ..self },
                    StepOutput::Done(Ok(())),
                ),
                Event::Failed(k) => fail_unstrapped(k.spec_tag_op(OpKind::RemoveStrap)),
                _ => fail_unstrapped(Error::ProtocolViolation),
            },
            LcFlowStep::CleanupDisconnect(err) => (
                LcTransitionFlow { st: LcFlowStep::CleanupUnstrap(err), ..self },
                StepOutput::Next(Action::RemoveStrap(Tap::Lc)),
            ),
            LcFlowStep::CleanupUnstrap(err) => (
                LcTransitionFlow { st: LcFlowStep::Finished(Err(err)), ..self },
                StepOutput::Done(Err(err)),
            ),
            LcFlowStep::Finished(r) => (self, StepOutput::Done(r)),
        }
    }

    /// Begin an unlock run: TEST_LOCKED0 to TEST_UNLOCKED1. The target is
    /// reset before connecting, and the post-state is re-read after the
    /// transition — code execution is not yet enabled, so reconnecting is
    /// safe. The first action is applying the lifecycle TAP strap.
    pub fn test_unlock(token: Token) -> (r: (LcTransitionFlow, Action))
        ensures
            r.0.cfg.pre_state == LcState::TestLocked0,
            r.0.cfg.target_state == LcState::TestUnlocked1,
            r.0.cfg.token == token,
            r.0.cfg.reset_before_connect,
            r.0.cfg.verify_post_state,
            r.0.st is Strapping,
            r.1 == Action::ApplyStrap(Tap::Lc),
    {
        (
            LcTransitionFlow {
                cfg: LcFlowConfig {
                    pre_state: LcState::TestLocked0,
                    target_state: LcState::TestUnlocked1,
                    token,
                    reset_before_connect: true,
                    verify_post_state: true,
                },
                st: LcFlowStep::Strapping,
            },
            Action::ApplyStrap(Tap::Lc),
        )
    }

    /// Begin an exit run: TEST_UNLOCKED1 to a mission-mode state. The
    /// target is not reset before connecting — a reset could let boot
    /// firmware run and lock the debug interface — and the post-state is
    /// not re-read, because code execution becomes enabled and reconnecting
    /// could itself reset the device; the next stage checks the state.
    pub fn test_exit(token: Token, target_mission_mode_lc_state: LcState) -> (r: (
        LcTransitionFlow,
        Action,
    ))
        ensures
            r.0.cfg.pre_state == LcState::TestUnlocked1,
            r.0.cfg.target_state == target_mission_mode_lc_state,
            r.0.cfg.token == token,
            !r.0.cfg.reset_before_connect,
            !r.0.cfg.verify_post_state,
            r.0.st is Strapping,
            r.1 == Action::ApplyStrap(Tap::Lc),
    {
        (
            LcTransitionFlow {
                cfg: LcFlowConfig {
                    pre_state: LcState::TestUnlocked1,
                    target_state: target_mission_mode_lc_state,
                    token,
                    reset_before_connect: false,
                    verify_post_state: false,
                },
                st: LcFlowStep::Strapping,
            },
            Action::ApplyStrap(Tap::Lc),
        )
    }

    /// Advance the machine by one observed event.
    pub fn step(self, e: Event) -> (r: (LcTransitionFlow, StepOutput))
        ensures
            r == self.spec_step(e),
    {
        match self.st {
            LcFlowStep::Strapping => match e {
                Event::Ack => if self.cfg.reset_before_connect {
                    (
                        LcTransitionFlow { st: LcFlowStep::Resetting, ..self },
                        StepOutput::Next(Action::ResetTarget),
                    )
                } else {
                    (
                        LcTransitionFlow { st: LcFlowStep::Connecting, ..self },
                        StepOutput::Next(Action::ConnectJtag(Tap::Lc)),
                    )
                },
                Event::Failed(k) => self.fail_unstrapped(k.tag_op(OpKind::ApplyStrap)),
                _ => self.fail_unstrapped(Error::ProtocolViolation),
            },
            LcFlowStep::Resetting => match e {
                Event::Ack => (
                    LcTransitionFlow { st: LcFlowStep::Connecting, ..self },
                    StepOutput::Next(Action::ConnectJtag(Tap::Lc)),
                ),
                Event::Failed(k) => self.fail_strapped(k.tag_op(OpKind::ResetTarget)),
                _ => self.fail_strapped(Error::ProtocolViolation),
            },
            LcFlowStep::Connecting => match e {
                Event::Ack => (
                    LcTransitionFlow { st: LcFlowStep::ReadingPreState, ..self },
                    StepOutput::Next(Action::ReadLcState),
                ),
                Event::Failed(k) => self.fail_strapped(k.tag_op(OpKind::ConnectJtag)),
                _ => self.fail_strapped(Error::ProtocolViolation),
            },
            LcFlowStep::ReadingPreState => match e {
                Event::LcStateWord(w) => {
                    let expected = self.cfg.pre_state.redundant_encoding();
                    if w == expected {
                        (
                            LcTransitionFlow { st: LcFlowStep::Transitioning, ..self },
                            StepOutput::Next(
                                Action::TriggerTransition(
                                    LcTransitionRequest {
                                        target: self.cfg.target_state,
                                        token: self.cfg.token,
                                        use_external_clk: false,
                                        reconnect_tap: if self.cfg.verify_post_state {
                                            Some(Tap::Lc)
                                        } else {
                                            None
                                        },
                                    },
                                ),
                            ),
                        )
                    } else {
                        self.fail_connected(
                            Error::PreconditionViolation { expected, observed: w },
                        )
                    }
                },
                Event::Failed(k) => self.fail_connected(k.tag_op(OpKind::ReadLcState)),
                _ => self.fail_connected(Error::ProtocolViolation),
            },
            LcFlowStep::Transitioning => match e {
                Event::Ack => if self.cfg.verify_post_state {
                    (
                        LcTransitionFlow { st: LcFlowStep::ReadingPostState, ..self },
                        StepOutput::Next(Action::ReadLcState),
                    )
                } else {
                    (
                        LcTransitionFlow { st: LcFlowStep::Disconnecting, ..self },
                        StepOutput::Next(Action::DisconnectJtag),
                    )
                },
                Event::Failed(k) => self.fail_connected(k.tag_op(OpKind::TriggerTransition)),
                _ => self.fail_connected(Error::ProtocolViolation),
            },
            LcFlowStep::ReadingPostState => match e {
                Event::LcStateWord(w) => {
                    let expected = self.cfg.target_state.redundant_encoding();
                    if w == expected {
                        (
                            LcTransitionFlow { st: LcFlowStep::Disconnecting, ..self },
                            StepOutput::Next(Action::DisconnectJtag),
                        )
                    } else {
                        self.fail_connected(
                            Error::PostTransitionMismatch { expected, observed: w },
                        )
                    }
                },
                Event::Failed(k) => self.fail_connected(k.tag_op(OpKind::ReadLcState)),
                _ => self.fail_connected(Error::ProtocolViolation),
            },
            LcFlowStep::Disconnecting => match e {
                Event::Ack => (
                    LcTransitionFlow { st: LcFlowStep::Unstrapping, ..self },
                    StepOutput::Next(Action::RemoveStrap(Tap::Lc)),
                ),
                Event::Failed(k) => self.fail_strapped(k.tag_op(OpKind::DisconnectJtag)),
                _ => self.fail_strapped(Error::ProtocolViolation),
            },
            LcFlowStep::Unstrapping => match e {
                Event::Ack => (
                    LcTransitionFlow { st: LcFlowStep::Finished(Ok(())), ..self },
                    StepOutput::Done(Ok(())),
                ),
                Event::Failed(k) => self.fail_unstrapped(k.tag_op(OpKind::RemoveStrap)),
                _ => self.fail_unstrapped(Error::ProtocolViolation),
            },
            LcFlowStep::CleanupDisconnect(err) => (
                LcTransitionFlow { st: LcFlowStep::CleanupUnstrap(err), ..self },
                StepOutput::Next(Action::RemoveStrap(Tap::Lc)),
            ),
            LcFlowStep::CleanupUnstrap(err) => (
                LcTransitionFlow { st: LcFlowStep::Finished(Err(err)), ..self },
                StepOutput::Done(Err(err)),
            ),
            LcFlowStep::Finished(r) => (self, StepOutput::Done(r)),
        }
    }

    fn fail_unstrapped(self, k: Error) -> (r: (LcTransitionFlow, StepOutput))
        ensures
            r == (
                LcTransitionFlow { st: LcFlowStep::Finished(Err(k)), ..self },
                StepOutput::Done(Result::<(), Error>::Err(k)),
            ),
    {
        (
            LcTransitionFlow { st: LcFlowStep::Finished(Err(k)), ..self },
            StepOutput::Done(Err(k)),
        )
    }

    fn fail_strapped(self, k: Error) -> (r: (LcTransitionFlow, StepOutput))
        ensures
            r == (
                LcTransitionFlow { st: LcFlowStep::CleanupUnstrap(k), ..self },
                StepOutput::Next(Action::RemoveStrap(Tap::Lc)),
            ),
    {
        (
            LcTransitionFlow { st: LcFlowStep::CleanupUnstrap(k), ..self },
            StepOutput::Next(Action::RemoveStrap(Tap::Lc)),
        )
    }

    fn fail_connected(self, k: Error) -> (r: (LcTransitionFlow, StepOutput))
        ensures
            r == (
                LcTransitionFlow { st: LcFlowStep::CleanupDisconnect(k), ..self },
                StepOutput::Next(Action::DisconnectJtag),
            ),
    {
        (
            LcTransitionFlow { st: LcFlowStep::CleanupDisconnect(k), ..self },
            StepOutput::Next(Action::DisconnectJtag),
        )
    }
}

/// The actions a run emits from `m` under the events `events`, up to the
/// step that ends the stage.
pub open spec fn spec_run_actions(m: LcTransitionFlow, events: Seq<Event>) -> Seq<Action>
    decreases events.len(),
{
    if events.len() == 0 {
        Seq::<Action>::empty()
    } else {
        let s = m.spec_step(events[0]);
        match s.1 {
            StepOutput::Next(a) => seq![a] + spec_run_actions(s.0, events.drop_first()),
            StepOutput::Done(_) => Seq::<Action>::empty(),
        }
    }
}

/// The result a run ends with under the events `events`, if it ends.
pub open spec fn spec_run_result(m: LcTransitionFlow, events: Seq<Event>) -> Option<
    Result<(), Error>,
>
    decreases events.len(),
{
    if events.len() == 0 {
        Option::<Result<(), Error>>::None
    } else {
        let s = m.spec_step(events[0]);
        match s.1 {
            StepOutput::Next(_) => spec_run_result(s.0, events.drop_first()),
            StepOutput::Done(r) => Some(r),
        }
    }
}

/// Once on the failure path, a run only releases resources: it never emits
/// a transition request, a reset, or a state read, and it can only end with
/// an error.
pub proof fn lemma_failure_path_only_cleans_up(m: LcTransitionFlow, events: Seq<Event>)
    requires
        m.spec_failing(),
    ensures
        forall|i: int|
            0 <= i < spec_run_actions(m, events).len() ==> {
                let a = #[trigger] spec_run_actions(m, events)[i];
                a == Action::DisconnectJtag || a == Action::RemoveStrap(Tap::Lc)
            },
        spec_run_result(m, events) matches Some(r) ==> r is Err,
    decreases events.len(),
{
    if events.len() > 0 {
        let s = m.spec_step(events[0]);
        assert(s.0.spec_failing());
        lemma_failure_path_only_cleans_up(s.0, events.drop_first());
    }
}

/// If the state read before the transition does not hold exactly the
/// required pre-state encoding, the stage fails with a precondition
/// violation and never requests the transition: the rest of the run only
/// releases the debug connection and the strap.
pub proof fn lemma_precondition_guard(m: LcTransitionFlow, w: u32, events: Seq<Event>)
    requires
        m.st is ReadingPreState,
        w != m.cfg.pre_state.spec_redundant_encoding(),
    ensures
        ({
            let s = m.spec_step(Event::LcStateWord(w));
            &&& s.1 == StepOutput::Next(Action::DisconnectJtag)
            &&& s.0.spec_failing()
            &&& forall|i: int|
                0 <= i < spec_run_actions(s.0, events).len() ==> !(#[trigger] spec_run_actions(
                    s.0,
                    events,
                )[i] is TriggerTransition)
            &&& spec_run_result(s.0, events) matches Some(r) ==> r == Result::<(), Error>::Err(
                Error::PreconditionViolation {
                    expected: m.cfg.pre_state.spec_redundant_encoding(),
                    observed: w,
                },
            )
        }),
{
    let s = m.spec_step(Event::LcStateWord(w));
    lemma_failure_path_only_cleans_up(s.0, events);
    lemma_failure_path_keeps_error(s.0, events);
}

/// On the failure path the error the run ends with is the error it entered
/// the path with.
pub proof fn lemma_failure_path_keeps_error(m: LcTransitionFlow, events: Seq<Event>)
    requires
        m.spec_failing(),
    ensures
        spec_run_result(m, events) matches Some(r) ==> r == Result::<(), Error>::Err(
            m.spec_failure_error(),
        ),
    decreases events.len(),
{
    if events.len() > 0 {
        let s = m.spec_step(events[0]);
        lemma_failure_path_keeps_error(s.0, events.drop_first());
    }
}

impl LcTransitionFlow {
    /// The error a machine on the failure path will end with.
    pub open spec fn spec_failure_error(self) -> Error {
        match self.st {
            LcFlowStep::CleanupDisconnect(k) => k,
            LcFlowStep::CleanupUnstrap(k) => k,
            LcFlowStep::Finished(r) => r->Err_0,
            _ => Error::ProtocolViolation,
        }
    }
}

/// A run configured not to reset before connecting — as every exit run is —
/// never emits a reset, from any point of the run.
pub proof fn lemma_no_reset_when_not_configured(m: LcTransitionFlow, events: Seq<Event>)
    requires
        !m.cfg.reset_before_connect,
    ensures
        forall|i: int|
            0 <= i < spec_run_actions(m, events).len() ==> !(#[trigger] spec_run_actions(
                m,
                events,
            )[i] is ResetTarget),
    decreases events.len(),
{
    if events.len() > 0 {
        let s = m.spec_step(events[0]);
        lemma_no_reset_when_not_configured(s.0, events.drop_first());
    }
}

/// A run configured not to verify the post-state — as every exit run is —
/// never reads the state register again once the transition was requested:
/// after a transition request, no state read is ever emitted.
pub proof fn lemma_no_state_read_after_transition(m: LcTransitionFlow, events: Seq<Event>)
    requires
        !m.cfg.verify_post_state,
        m.spec_past_transition(),
    ensures
        forall|i: int|
            0 <= i < spec_run_actions(m, events).len() ==> !(#[trigger] spec_run_actions(
                m,
                events,
            )[i] is ReadLcState),
    decreases events.len(),
{
    if events.len() > 0 {
        let s = m.spec_step(events[0]);
        assert(s.0.spec_past_transition());
        lemma_no_state_read_after_transition(s.0, events.drop_first());
    }
}

impl LcTransitionFlow {
    /// The transition request is behind: the machine can only disconnect,
    /// unstrap, clean up or finish.
    pub open spec fn spec_past_transition(self) -> bool {
        match self.st {
            LcFlowStep::Transitioning => true,
            LcFlowStep::Disconnecting => true,
            LcFlowStep::Unstrapping => true,
            LcFlowStep::CleanupDisconnect(_) => true,
            LcFlowStep::CleanupUnstrap(_) => true,
            LcFlowStep::Finished(_) => true,
            _ => false,
        }
    }
}

/// The deliberate asymmetry between unlocking and exiting: an unlock run
/// re-reads the state register right after the transition, an exit run
/// never resets the target and never reads the state register again after
/// requesting the transition.
/// The whole unlock scenario, end to end: from a fresh unlock machine,
/// when the driver acknowledges every operation, the state register first
/// reads TEST_LOCKED0 and after the transition reads TEST_UNLOCKED1, the
/// run performs exactly the unlock sequence — strap, reset, connect, read,
/// transition, re-read, disconnect, unstrap — and succeeds: the debug
/// connection is detached and the strap removed before the stage ends.
pub proof fn lemma_unlock_end_to_end(m: LcTransitionFlow, events: Seq<Event>)
    requires
        m.cfg.pre_state == LcState::TestLocked0,
        m.cfg.target_state == LcState::TestUnlocked1,
        m.cfg.reset_before_connect,
        m.cfg.verify_post_state,
        m.st is Strapping,
        events =~= seq![
            Event::Ack,
            Event::Ack,
            Event::Ack,
            Event::LcStateWord(LcState::TestLocked0.spec_redundant_encoding()),
            Event::Ack,
            Event::LcStateWord(LcState::TestUnlocked1.spec_redundant_encoding()),
            Event::Ack,
            Event::Ack,
        ],
    ensures
        spec_run_actions(m, events) =~= seq![
            Action::ResetTarget,
            Action::ConnectJtag(Tap::Lc),
            Action::ReadLcState,
            Action::TriggerTransition(m.spec_request()),
            Action::ReadLcState,
            Action::DisconnectJtag,
            Action::RemoveStrap(Tap::Lc),
        ],
        spec_run_result(m, events) == Some(Result::<(), Error>::Ok(())),
{
    let m1 = m.spec_step(events[0]).0;
    let e1 = events.drop_first();
    let m2 = m1.spec_step(e1[0]).0;
    let e2 = e1.drop_first();
    let m3 = m2.spec_step(e2[0]).0;
    let e3 = e2.drop_first();
    let m4 = m3.spec_step(e3[0]).0;
    let e4 = e3.drop_first();
    let m5 = m4.spec_step(e4[0]).0;
    let e5 = e4.drop_first();
    let m6 = m5.spec_step(e5[0]).0;
    let e6 = e5.drop_first();
    let m7 = m6.spec_step(e6[0]).0;
    let e7 = e6.drop_first();
    assert(m1.st is Resetting);
    assert(m2.st is Connecting);
    assert(m3.st is ReadingPreState);
    assert(m4.st is Transitioning);
    assert(m5.st is ReadingPostState);
    assert(m6.st is Disconnecting);
    assert(m7.st is Unstrapping);
    assert(m7.spec_step(e7[0]).1 == StepOutput::Done(Result::<(), Error>::Ok(())));
    assert(spec_run_actions(m7, e7) =~= Seq::<Action>::empty());
    assert(spec_run_actions(m6, e6) =~= seq![Action::RemoveStrap(Tap::Lc)]);
    assert(spec_run_actions(m5, e5) =~= seq![Action::DisconnectJtag] + spec_run_actions(m6, e6));
    assert(spec_run_actions(m4, e4) =~= seq![Action::ReadLcState] + spec_run_actions(m5, e5));
    assert(spec_run_actions(m3, e3) =~= seq![Action::TriggerTransition(m.spec_request())]
        + spec_run_actions(m4, e4));
    assert(spec_run_actions(m2, e2) =~= seq![Action::ReadLcState] + spec_run_actions(m3, e3));
    assert(spec_run_actions(m1, e1) =~= seq![Action::ConnectJtag(Tap::Lc)] + spec_run_actions(
        m2,
        e2,
    ));
    assert(spec_run_actions(m, events) =~= seq![Action::ResetTarget] + spec_run_actions(m1, e1));
    assert(spec_run_result(m7, e7) == Some(Result::<(), Error>::Ok(())));
    assert(spec_run_result(m6, e6) == spec_run_result(m7, e7));
    assert(spec_run_result(m5, e5) == spec_run_result(m6, e6));
    assert(spec_run_result(m4, e4) == spec_run_result(m5, e5));
    assert(spec_run_result(m3, e3) == spec_run_result(m4, e4));
    assert(spec_run_result(m2, e2) == spec_run_result(m3, e3));
    assert(spec_run_result(m1, e1) == spec_run_result(m2, e2));
    assert(spec_run_result(m, events) == spec_run_result(m1, e1));
}

pub proof fn lemma_unlock_exit_asymmetry(
    exit_m: LcTransitionFlow,
    unlock_m: LcTransitionFlow,
    events: Seq<Event>,
)
    requires
        !exit_m.cfg.reset_before_connect,
        !exit_m.cfg.verify_post_state,
        unlock_m.cfg.verify_post_state,
        unlock_m.st is Transitioning,
    ensures
        forall|i: int|
            0 <= i < spec_run_actions(exit_m, events).len() ==> !(#[trigger] spec_run_actions(
                exit_m,
                events,
            )[i] is ResetTarget),
        exit_m.st is Transitioning ==> exit_m.spec_step(Event::Ack).1 == StepOutput::Next(
            Action::DisconnectJtag,
        ),
        unlock_m.spec_step(Event::Ack).1 == StepOutput::Next(Action::ReadLcState),
{
    lemma_no_reset_when_not_configured(exit_m, events);
}

} // verus!
