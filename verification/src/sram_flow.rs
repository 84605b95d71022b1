//! The SRAM individualization stage: load the transient provisioning
//! program, then drive the selected OTP-writing commands over the console
//! in the fixed order, each followed by a status acknowledgement, with
//! `Done` always last.
//!
//! As in the other stages, the logic is a state machine: `step` turns the
//! outcome of the previous action into the next action or the stage's
//! result, and any failure is fatal — commands are never retried, because
//! OTP writes cannot be undone. On failure the machine releases the debug
//! connection and the strap before ending.

use crate::actions::{command_plan, spec_command_plan, ManufFtProvisioningActions};
use crate::proto::{Action, Banner, Error, Event, ExecOutcome, OpKind, StepOutput, Tap};
use vstd::prelude::*;

verus! {

/// Where the run stands: which action is in flight. The indices walk the
/// command plan of the selection.
#[derive(Clone, Copy, Debug)]
pub enum SramFlowStep {
    Strapping,
    Resetting,
    Connecting,
    Halting,
    ClearingRx,
    Loading,
    SettingFlowControl,
    WaitingForStart,
    /// Command `i` of the plan was handed to the driver to send.
    SendingCommand(usize),
    /// The status acknowledgement of command `i` is awaited.
    AwaitingStatus(usize),
    Disconnecting,
    Unstrapping,
    /// Failed while connected: disconnect, then unstrap, then end.
    CleanupDisconnect(Error),
    /// Failed while strapped: unstrap, then end.
    CleanupUnstrap(Error),
    Finished(Result<(), Error>),
}

#[derive(Clone, Copy, Debug)]
pub struct SramFlow {
    pub actions: ManufFtProvisioningActions,
    pub st: SramFlowStep,
}

impl SramFlow {
    /// The command plan this run works through.
    pub open spec fn spec_plan(self) -> Seq<crate::proto::FtCommand> {
        spec_command_plan(self.actions)
    }

    pub open spec fn spec_failing(self) -> bool {
        match self.st {
            SramFlowStep::CleanupDisconnect(_) => true,
            SramFlowStep::CleanupUnstrap(_) => true,
            SramFlowStep::Finished(r) => r is Err,
            _ => false,
        }
    }

    /// The transition table.
    pub open spec fn spec_step(self, e: Event) -> (SramFlow, StepOutput) {
        let fail_unstrapped = |k: Error|
            (
                SramFlow { st: SramFlowStep::Finished(Err(k)), ..self },
                StepOutput::Done(Err(k)),
            );
        let fail_strapped = |k: Error|
            (
                SramFlow { st: SramFlowStep::CleanupUnstrap(k), ..self },
                StepOutput::Next(Action::RemoveStrap(Tap::Riscv)),
            );
        let fail_connected = |k: Error|
            (
                SramFlow { st: SramFlowStep::CleanupDisconnect(k), ..self },
                StepOutput::Next(Action::DisconnectJtag),
            );
        match self.st {
            SramFlowStep::Strapping => match e {
                Event::Ack => (
                    SramFlow { st: SramFlowStep::Resetting, ..self },
                    StepOutput::Next(Action::ResetTarget),
                ),
                Event::Failed(k) => fail_unstrapped(k.spec_tag_op(OpKind::ApplyStrap)),
                _ => fail_unstrapped(Error::ProtocolViolation),
            },
            SramFlowStep::Resetting => match e {
                Event::Ack => (
                    SramFlow { st: SramFlowStep::Connecting, ..self },
                    StepOutput::Next(Action::ConnectJtag(Tap::Riscv)),
                ),
                Event::Failed(k) => fail_strapped(k.spec_tag_op(OpKind::ResetTarget)),
                _ => fail_strapped(Error::ProtocolViolation),
            },
            SramFlowStep::Connecting => match e {
                Event::Ack => (
                    SramFlow { st: SramFlowStep::Halting, ..self },
                    StepOutput::Next(Action::HaltCore),
                ),
                Event::Failed(k) => fail_strapped(k.spec_tag_op(OpKind::ConnectJtag)),
                _ => fail_strapped(Error::ProtocolViolation),
            },
            SramFlowStep::Halting => match e {
                Event::Ack => (
                    SramFlow { st: SramFlowStep::ClearingRx, ..self },
                    StepOutput::Next(Action::ClearRxBuffer),
                ),
                Event::Failed(k) => fail_connected(k.spec_tag_op(OpKind::HaltCore)),
                _ => fail_connected(Error::ProtocolViolation),
            },
            SramFlowStep::ClearingRx => match e {
                Event::Ack => (
                    SramFlow { st: SramFlowStep::Loading, ..self },
                    StepOutput::Next(Action::LoadAndExecuteSram),
                ),
                Event::Failed(k) => fail_connected(k.spec_tag_op(OpKind::ClearRxBuffer)),
                _ => fail_connected(Error::ProtocolViolation),
            },
            SramFlowStep::Loading => match e {
                Event::SramExec(ExecOutcome::Executing) => (
                    SramFlow { st: SramFlowStep::SettingFlowControl, ..self },
                    StepOutput::Next(Action::SetFlowControl(true)),
                ),
                Event::SramExec(ExecOutcome::Failed) => fail_connected(
                    Error::SramExecutionFailed,
                ),
                Event::Failed(k) => fail_connected(k.spec_tag_op(OpKind::LoadProgram)),
                _ => fail_connected(Error::ProtocolViolation),
            },
            SramFlowStep::SettingFlowControl => match e {
                Event::Ack => (
                    SramFlow { st: SramFlowStep::WaitingForStart, ..self },
                    StepOutput::Next(Action::WaitForBanner(Banner::SramStart)),
                ),
                Event::Failed(k) => fail_connected(k.spec_tag_op(OpKind::SetFlowControl)),
                _ => fail_connected(Error::ProtocolViolation),
            },
            SramFlowStep::WaitingForStart => match e {
                Event::Ack => (
                    SramFlow { st: SramFlowStep::SendingCommand(0), ..self },
                    StepOutput::Next(Action::SendCommandFrame(self.spec_plan()[0])),
                ),
                Event::Failed(k) => fail_connected(k.spec_tag_op(OpKind::WaitForBanner)),
                _ => fail_connected(Error::ProtocolViolation),
            },
            SramFlowStep::SendingCommand(i) => match e {
                Event::Ack => (
                    SramFlow { st: SramFlowStep::AwaitingStatus(i), ..self },
                    StepOutput::Next(Action::RecvStatusFrame),
                ),
                Event::Failed(k) => fail_connected(k.spec_tag_op(OpKind::SendFrame)),
                _ => fail_connected(Error::ProtocolViolation),
            },
            SramFlowStep::AwaitingStatus(i) => match e {
                Event::StatusFrame(s) => if s.code == 0 {
                    if i + 1 < self.spec_plan().len() {
                        (
                            SramFlow { st: SramFlowStep::SendingCommand((i + 1) as usize), ..self },
                            StepOutput::Next(
                                Action::SendCommandFrame(self.spec_plan()[i + 1]),
                            ),
                        )
                    } else {
                        (
                            SramFlow { st: SramFlowStep::Disconnecting, ..self },
                            StepOutput::Next(Action::DisconnectJtag),
                        )
                    }
                } else {
                    fail_connected(Error::DeviceStatusFailure { code: s.code })
                },
                Event::Failed(k) => fail_connected(k.spec_tag_op(OpKind::RecvFrame)),
                _ => fail_connected(Error::ProtocolViolation),
            },
            SramFlowStep::Disconnecting => match e {
                Event::Ack => (
                    SramFlow { st: SramFlowStep::Unstrapping, ..self },
                    StepOutput::Next(Action::RemoveStrap(Tap::Riscv)),
                ),
                Event::Failed(k) => fail_strapped(k.spec_tag_op(OpKind::DisconnectJtag)),
                _ => fail_strapped(Error::ProtocolViolation),
            },
            SramFlowStep::Unstrapping => match e {
                Event::Ack => (
                    SramFlow { st: SramFlowStep::Finished(Ok(())), ..self },
                    StepOutput::Done(Ok(())),
                ),
                Event::Failed(k) => fail_unstrapped(k.spec_tag_op(OpKind::RemoveStrap)),
                _ => fail_unstrapped(Error::ProtocolViolation),
            },
            SramFlowStep::CleanupDisconnect(err) => (
                SramFlow { st: SramFlowStep::CleanupUnstrap(err), ..self },
                StepOutput::Next(Action::RemoveStrap(Tap::Riscv)),
            ),
            SramFlowStep::CleanupUnstrap(err) => (
                SramFlow { st: SramFlowStep::Finished(Err(err)), ..self },
                StepOutput::Done(Err(err)),
            ),
            SramFlowStep::Finished(r) => (self, StepOutput::Done(r)),
        }
    }

    /// Begin an individualization run. Rejects, before any action, a
    /// selection that combines `all_steps` with an individual step. The
    /// first action is applying the RISC-V TAP strap.
    pub fn run_sram_ft_individualize(actions: &ManufFtProvisioningActions) -> (r: Result<
        (SramFlow, Action),
        Error,
    >)
        ensures
            actions.spec_valid() ==> (r matches Ok(p) && p.0 == (SramFlow {
                actions: *actions,
                st: SramFlowStep::Strapping,
            }) && p.1 == Action::ApplyStrap(Tap::Riscv)),
            !actions.spec_valid() ==> r == Result::<(SramFlow, Action), Error>::Err(
                Error::InvalidActionSet,
            ),
    {
        match actions.validate() {
            Ok(_) => Ok(
                (
                    SramFlow { actions: *actions, st: SramFlowStep::Strapping },
                    Action::ApplyStrap(Tap::Riscv),
                ),
            ),
            Err(e) => Err(e),
        }
    }

    /// Advance the machine by one observed event.
    pub fn step(self, e: Event) -> (r: (SramFlow, StepOutput))
        ensures
            r == self.spec_step(e),
    {
        match self.st {
            SramFlowStep::Strapping => match e {
                Event::Ack => (
                    SramFlow { st: SramFlowStep::Resetting, ..self },
                    StepOutput::Next(Action::ResetTarget),
                ),
                Event::Failed(k) => self.fail_unstrapped(k.tag_op(OpKind::ApplyStrap)),
                _ => self.fail_unstrapped(Error::ProtocolViolation),
            },
            SramFlowStep::Resetting => match e {
                Event::Ack => (
                    SramFlow { st: SramFlowStep::Connecting, ..self },
                    StepOutput::Next(Action::ConnectJtag(Tap::Riscv)),
                ),
                Event::Failed(k) => self.fail_strapped(k.tag_op(OpKind::ResetTarget)),
                _ => self.fail_strapped(Error::ProtocolViolation),
            },
            SramFlowStep::Connecting => match e {
                Event::Ack => (
                    SramFlow { st: SramFlowStep::Halting, ..self },
                    StepOutput::Next(Action::HaltCore),
                ),
                Event::Failed(k) => self.fail_strapped(k.tag_op(OpKind::ConnectJtag)),
                _ => self.fail_strapped(Error::ProtocolViolation),
            },
            SramFlowStep::Halting => match e {
                Event::Ack => (
                    SramFlow { st: SramFlowStep::ClearingRx, ..self },
                    StepOutput::Next(Action::ClearRxBuffer),
                ),
                Event::Failed(k) => self.fail_connected(k.tag_op(OpKind::HaltCore)),
                _ => self.fail_connected(Error::ProtocolViolation),
            },
            SramFlowStep::ClearingRx => match e {
                Event::Ack => (
                    SramFlow { st: SramFlowStep::Loading, ..self },
                    StepOutput::Next(Action::LoadAndExecuteSram),
                ),
                Event::Failed(k) => self.fail_connected(k.tag_op(OpKind::ClearRxBuffer)),
                _ => self.fail_connected(Error::ProtocolViolation),
            },
            SramFlowStep::Loading => match e {
                Event::SramExec(ExecOutcome::Executing) => (
                    SramFlow { st: SramFlowStep::SettingFlowControl, ..self },
                    StepOutput::Next(Action::SetFlowControl(true)),
                ),
                Event::SramExec(ExecOutcome::Failed) => self.fail_connected(
                    Error::SramExecutionFailed,
                ),
                Event::Failed(k) => self.fail_connected(k.tag_op(OpKind::LoadProgram)),
                _ => self.fail_connected(Error::ProtocolViolation),
            },
            SramFlowStep::SettingFlowControl => match e {
                Event::Ack => (
                    SramFlow { st: SramFlowStep::WaitingForStart, ..self },
                    StepOutput::Next(Action::WaitForBanner(Banner::SramStart)),
                ),
                Event::Failed(k) => self.fail_connected(k.tag_op(OpKind::SetFlowControl)),
                _ => self.fail_connected(Error::ProtocolViolation),
            },
            SramFlowStep::WaitingForStart => match e {
                Event::Ack => {
                    let plan = command_plan(&self.actions);
                    (
                        SramFlow { st: SramFlowStep::SendingCommand(0), ..self },
                        StepOutput::Next(Action::SendCommandFrame(plan[0])),
                    )
                },
                Event::Failed(k) => self.fail_connected(k.tag_op(OpKind::WaitForBanner)),
                _ => self.fail_connected(Error::ProtocolViolation),
            },
            SramFlowStep::SendingCommand(i) => match e {
                Event::Ack => (
                    SramFlow { st: SramFlowStep::AwaitingStatus(i), ..self },
                    StepOutput::Next(Action::RecvStatusFrame),
                ),
                Event::Failed(k) => self.fail_connected(k.tag_op(OpKind::SendFrame)),
                _ => self.fail_connected(Error::ProtocolViolation),
            },
            SramFlowStep::AwaitingStatus(i) => match e {
                Event::StatusFrame(s) => if s.code == 0 {
                    let plan = command_plan(&self.actions);
                    if i < usize::MAX && i + 1 < plan.len() {
                        (
                            SramFlow { st: SramFlowStep::SendingCommand(i + 1), ..self },
                            StepOutput::Next(Action::SendCommandFrame(plan[i + 1])),
                        )
                    } else {
                        (
                            SramFlow { st: SramFlowStep::Disconnecting, ..self },
                            StepOutput::Next(Action::DisconnectJtag),
                        )
                    }
                } else {
                    self.fail_connected(Error::DeviceStatusFailure { code: s.code })
                },
                Event::Failed(k) => self.fail_connected(k.tag_op(OpKind::RecvFrame)),
                _ => self.fail_connected(Error::ProtocolViolation),
            },
            SramFlowStep::Disconnecting => match e {
                Event::Ack => (
                    SramFlow { st: SramFlowStep::Unstrapping, ..self },
                    StepOutput::Next(Action::RemoveStrap(Tap::Riscv)),
                ),
                Event::Failed(k) => self.fail_strapped(k.tag_op(OpKind::DisconnectJtag)),
                _ => self.fail_strapped(Error::ProtocolViolation),
            },
            SramFlowStep::Unstrapping => match e {
                Event::Ack => (
                    SramFlow { st: SramFlowStep::Finished(Ok(())), ..self },
                    StepOutput::Done(Ok(())),
                ),
                Event::Failed(k) => self.fail_unstrapped(k.tag_op(OpKind::RemoveStrap)),
                _ => self.fail_unstrapped(Error::ProtocolViolation),
            },
            SramFlowStep::CleanupDisconnect(err) => (
                SramFlow { st: SramFlowStep::CleanupUnstrap(err), ..self },
                StepOutput::Next(Action::RemoveStrap(Tap::Riscv)),
            ),
            SramFlowStep::CleanupUnstrap(err) => (
                SramFlow { st: SramFlowStep::Finished(Err(err)), ..self },
                StepOutput::Done(Err(err)),
            ),
            SramFlowStep::Finished(r) => (self, StepOutput::Done(r)),
        }
    }

    fn fail_unstrapped(self, k: Error) -> (r: (SramFlow, StepOutput))
        ensures
            r == (
                SramFlow { st: SramFlowStep::Finished(Err(k)), ..self },
                StepOutput::Done(Result::<(), Error>::Err(k)),
            ),
    {
        (SramFlow { st: SramFlowStep::Finished(Err(k)), ..self }, StepOutput::Done(Err(k)))
    }

    fn fail_strapped(self, k: Error) -> (r: (SramFlow, StepOutput))
        ensures
            r == (
                SramFlow { st: SramFlowStep::CleanupUnstrap(k), ..self },
                StepOutput::Next(Action::RemoveStrap(Tap::Riscv)),
            ),
    {
        (
            SramFlow { st: SramFlowStep::CleanupUnstrap(k), ..self },
            StepOutput::Next(Action::RemoveStrap(Tap::Riscv)),
        )
    }

    fn fail_connected(self, k: Error) -> (r: (SramFlow, StepOutput))
        ensures
            r == (
                SramFlow { st: SramFlowStep::CleanupDisconnect(k), ..self },
                StepOutput::Next(Action::DisconnectJtag),
            ),
    {
        (
            SramFlow { st: SramFlowStep::CleanupDisconnect(k), ..self },
            StepOutput::Next(Action::DisconnectJtag),
        )
    }
}

/// The actions a run emits from `m` under the events `events`, up to the
/// step that ends the stage.
pub open spec fn spec_run_actions(m: SramFlow, events: Seq<Event>) -> Seq<Action>
    decreases events.len(),
{
    if events.len() == 0 {
        Seq::<Action>::empty()
    } else {
        let s = m.spec_step(events[0]);
        match s.1 {
            StepOutput::Next(a) => seq![a] + spec_run_actions(s.0, events.drop_first()),
            StepOutput::Done(_) => Seq::<Action>::empty(),
        }
    }
}

/// The result a run ends with under the events `events`, if it ends.
pub open spec fn spec_run_result(m: SramFlow, events: Seq<Event>) -> Option<Result<(), Error>>
    decreases events.len(),
{
    if events.len() == 0 {
        Option::<Result<(), Error>>::None
    } else {
        let s = m.spec_step(events[0]);
        match s.1 {
            StepOutput::Next(_) => spec_run_result(s.0, events.drop_first()),
            StepOutput::Done(r) => Some(r),
        }
    }
}

/// When the start banner is not observed in time, the stage fails with a
/// timeout attributed to the banner wait — whatever operation the driver
/// blamed — and performs its cleanup exactly once: one disconnect, one
/// strap removal, in that order, whatever events the driver reports while
/// cleaning up, and it ends with that timeout error.
pub proof fn lemma_banner_timeout_cleans_up_once(m: SramFlow, reported: OpKind, events: Seq<Event>)
    requires
        m.st is WaitingForStart,
        events.len() >= 2,
    ensures
        ({
            let s = m.spec_step(Event::Failed(Error::Timeout { op: reported }));
            &&& s.1 == StepOutput::Next(Action::DisconnectJtag)
            &&& spec_run_actions(s.0, events) =~= seq![Action::RemoveStrap(Tap::Riscv)]
            &&& spec_run_result(s.0, events) == Some(Result::<(), Error>::Err(Error::Timeout {
                op: OpKind::WaitForBanner,
            }))
        }),
{
    let s = m.spec_step(Event::Failed(Error::Timeout { op: reported }));
    let rest = events.drop_first();
    let s1 = s.0.spec_step(events[0]);
    let s2 = s1.0.spec_step(rest[0]);
    assert(rest.len() >= 1);
    let err = Error::Timeout { op: OpKind::WaitForBanner };
    assert(s.0.st == SramFlowStep::CleanupDisconnect(err));
    assert(s1.0.st == SramFlowStep::CleanupUnstrap(err));
    assert(s1.1 == StepOutput::Next(Action::RemoveStrap(Tap::Riscv)));
    assert(s2.1 == StepOutput::Done(Result::<(), Error>::Err(err)));
    assert(spec_run_actions(s1.0, rest) =~= Seq::<Action>::empty());
    assert(spec_run_actions(s.0, events) =~= seq![Action::RemoveStrap(Tap::Riscv)]
        + spec_run_actions(s1.0, rest));
    assert(spec_run_actions(s.0, events) =~= seq![Action::RemoveStrap(Tap::Riscv)]);
    assert(spec_run_result(s1.0, rest) == Some(Result::<(), Error>::Err(err)));
    assert(spec_run_result(s.0, events) == spec_run_result(s1.0, rest));
}

impl SramFlow {
    /// The command phase is behind: the machine can only disconnect,
    /// unstrap, clean up or finish.
    pub open spec fn spec_past_commands(self) -> bool {
        match self.st {
            SramFlowStep::Disconnecting => true,
            SramFlowStep::Unstrapping => true,
            SramFlowStep::CleanupDisconnect(_) => true,
            SramFlowStep::CleanupUnstrap(_) => true,
            SramFlowStep::Finished(_) => true,
            _ => false,
        }
    }
}

/// Once a run is past its command phase — as it is right after the last
/// status acknowledgement, and on every failure path — no further command
/// frame is ever sent: `Done` is the last command of every run.
pub proof fn lemma_no_command_after_plan(m: SramFlow, events: Seq<Event>)
    requires
        m.spec_past_commands(),
    ensures
        forall|i: int|
            0 <= i < spec_run_actions(m, events).len() ==> !(#[trigger] spec_run_actions(
                m,
                events,
            )[i] is SendCommandFrame),
    decreases events.len(),
{
    if events.len() > 0 {
        let s = m.spec_step(events[0]);
        assert(s.0.spec_past_commands());
        lemma_no_command_after_plan(s.0, events.drop_first());
    }
}

/// The command frames within a sequence of actions, in emission order.
pub open spec fn spec_sent_commands(acts: Seq<Action>) -> Seq<crate::proto::FtCommand>
    decreases acts.len(),
{
    if acts.len() == 0 {
        Seq::<crate::proto::FtCommand>::empty()
    } else {
        let rest = spec_sent_commands(acts.drop_first());
        match acts[0] {
            Action::SendCommandFrame(c) => seq![c] + rest,
            _ => rest,
        }
    }
}

/// `a` is an initial segment of `b`.
pub open spec fn spec_is_seq_prefix<A>(a: Seq<A>, b: Seq<A>) -> bool {
    a.len() <= b.len() && (forall|i: int| 0 <= i < a.len() ==> a[i] == b[i])
}

impl SramFlow {
    /// The commands a machine may still send: the whole plan before the
    /// command phase, the remainder of the plan inside it, nothing after
    /// it or on a failure path.
    pub open spec fn spec_pending_commands(self) -> Seq<crate::proto::FtCommand> {
        match self.st {
            SramFlowStep::SendingCommand(i) => self.spec_plan().skip(i + 1),
            SramFlowStep::AwaitingStatus(i) => self.spec_plan().skip(i + 1),
            SramFlowStep::Disconnecting => Seq::empty(),
            SramFlowStep::Unstrapping => Seq::empty(),
            SramFlowStep::CleanupDisconnect(_) => Seq::empty(),
            SramFlowStep::CleanupUnstrap(_) => Seq::empty(),
            SramFlowStep::Finished(_) => Seq::empty(),
            _ => self.spec_plan(),
        }
    }
}

/// Whatever the driver reports, the command frames a run emits form an
/// initial segment of the commands the machine had left to send — from a
/// fresh machine, an initial segment of the fixed command plan. Together
/// with the plan's shape this is the ordering guarantee: commands go out
/// in the fixed order, `Done` last, and nothing after `Done`.
#[verifier::rlimit(100)]
pub proof fn lemma_run_commands_prefix_of_plan(m: SramFlow, events: Seq<Event>)
    ensures
        spec_is_seq_prefix(
            spec_sent_commands(spec_run_actions(m, events)),
            m.spec_pending_commands(),
        ),
    decreases events.len(),
{
    if events.len() > 0 {
        let s = m.spec_step(events[0]);
        match s.1 {
            StepOutput::Next(a) => {
                lemma_run_commands_prefix_of_plan(s.0, events.drop_first());
                let run = spec_run_actions(m, events);
                let rest_run = spec_run_actions(s.0, events.drop_first());
                assert(run == seq![a] + rest_run);
                assert(run.drop_first() =~= rest_run);
                assert(run[0] == a);
                if a is SendCommandFrame {
                    let c = a->SendCommandFrame_0;
                    assert(spec_sent_commands(run) =~= seq![c] + spec_sent_commands(rest_run));
                    // a command frame is emitted only on entry to the
                    // command phase or on advancing within it
                    match m.st {
                        SramFlowStep::WaitingForStart => {
                            assert(c == m.spec_plan()[0]);
                            assert(s.0.spec_pending_commands() =~= m.spec_plan().skip(1));
                            assert(m.spec_pending_commands() =~= m.spec_plan());
                        },
                        SramFlowStep::AwaitingStatus(i) => {
                            assert(c == m.spec_plan()[i + 1]);
                            assert(s.0.spec_pending_commands() =~= m.spec_plan().skip(i + 2));
                            assert(m.spec_pending_commands() =~= m.spec_plan().skip(i + 1));
                        },
                        _ => {
                            assert(false);
                        },
                    }
                } else {
                    assert(spec_sent_commands(run) =~= spec_sent_commands(rest_run));
                    assert(spec_is_seq_prefix(
                        spec_sent_commands(rest_run),
                        s.0.spec_pending_commands(),
                    ));
                    assert(spec_is_seq_prefix(
                        s.0.spec_pending_commands(),
                        m.spec_pending_commands(),
                    ) || s.0.spec_pending_commands() =~= m.spec_pending_commands());
                }
            },
            StepOutput::Done(_) => {
                assert(spec_run_actions(m, events) =~= Seq::<Action>::empty());
            },
        }
    }
}

impl SramFlow {
    /// Inside the command phase the index stays within the plan.
    pub open spec fn spec_wf(self) -> bool {
        match self.st {
            SramFlowStep::SendingCommand(i) => i < self.spec_plan().len(),
            SramFlowStep::AwaitingStatus(i) => i < self.spec_plan().len(),
            _ => true,
        }
    }
}

/// A run on the failure path can only end with an error.
pub proof fn lemma_failing_run_ends_with_error(m: SramFlow, events: Seq<Event>)
    requires
        m.spec_failing(),
    ensures
        spec_run_result(m, events) matches Some(r) ==> r is Err,
    decreases events.len(),
{
    if events.len() > 0 {
        let s = m.spec_step(events[0]);
        assert(s.0.spec_failing());
        lemma_failing_run_ends_with_error(s.0, events.drop_first());
    }
}

/// A run that ends in success has sent every command it had left to send —
/// from a fresh machine, exactly the fixed command plan, whose last
/// command is `Done` and whose every other command is not: `Done` is sent
/// exactly once, last, in every successful run.
#[verifier::rlimit(100)]
pub proof fn lemma_successful_run_sends_whole_plan(m: SramFlow, events: Seq<Event>)
    requires
        m.spec_wf(),
        spec_run_result(m, events) == Some(Result::<(), Error>::Ok(())),
    ensures
        spec_sent_commands(spec_run_actions(m, events)) =~= m.spec_pending_commands(),
    decreases events.len(),
{
    let s = m.spec_step(events[0]);
    match s.1 {
        StepOutput::Next(a) => {
            assert(s.0.spec_wf());
            lemma_successful_run_sends_whole_plan(s.0, events.drop_first());
            let run = spec_run_actions(m, events);
            let rest_run = spec_run_actions(s.0, events.drop_first());
            assert(run == seq![a] + rest_run);
            assert(run.drop_first() =~= rest_run);
            assert(run[0] == a);
            if a is SendCommandFrame {
                let c = a->SendCommandFrame_0;
                assert(spec_sent_commands(run) =~= seq![c] + spec_sent_commands(rest_run));
                match m.st {
                    SramFlowStep::WaitingForStart => {
                        assert(m.spec_plan().len() >= 1);
                        assert(seq![m.spec_plan()[0]] + m.spec_plan().skip(1) =~= m.spec_plan());
                    },
                    SramFlowStep::AwaitingStatus(i) => {
                        assert(seq![m.spec_plan()[i + 1]] + m.spec_plan().skip(i + 2)
                            =~= m.spec_plan().skip(i + 1));
                    },
                    _ => {
                        assert(false);
                    },
                }
            } else {
                assert(spec_sent_commands(run) =~= spec_sent_commands(rest_run));
                if s.0.spec_failing() {
                    lemma_failing_run_ends_with_error(s.0, events.drop_first());
                    assert(false);
                } else {
                    assert(s.0.spec_pending_commands() =~= m.spec_pending_commands());
                }
            }
        },
        StepOutput::Done(r) => {
            assert(r == Result::<(), Error>::Ok(()));
            assert(m.spec_pending_commands() =~= Seq::<crate::proto::FtCommand>::empty());
            assert(spec_run_actions(m, events) =~= Seq::<Action>::empty());
        },
    }
}

} // verus!
