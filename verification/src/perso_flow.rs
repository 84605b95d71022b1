//! The personalization stage: bootstrap the two personalization images,
//! send the host public key to the device, and receive the exported
//! personalization data.
//!
//! The machine sequences the console protocol; the records themselves are
//! encoded and decoded by [`crate::codec`], and the host key is prepared by
//! [`crate::keys`]. This stage holds no strap and no debug connection, so a
//! failure ends the stage at once.

use crate::proto::{Action, Banner, Error, Event, OpKind, StepOutput};
use vstd::prelude::*;

verus! {

/// Where the run stands: which action is in flight.
#[derive(Clone, Copy, Debug)]
pub enum PersoFlowStep {
    /// Discard buffered console output before the first bootstrap.
    ClearingRxPrimary,
    BootstrappingPrimary,
    /// The primary image must report a passing self-test banner.
    WaitingForPass,
    /// Discard buffered console output before the second bootstrap.
    ClearingRxSecondary,
    /// The secondary image runs the personalization protocol itself, so no
    /// pass banner is awaited for it.
    BootstrappingSecondary,
    SettingFlowControl,
    WaitingForReady,
    SendingData,
    WaitingForExport,
    /// The exported record is being received; the driver decodes it and
    /// reports whether a whole well-formed record arrived.
    ReceivingData,
    Finished(Result<(), Error>),
}

#[derive(Clone, Copy, Debug)]
pub struct PersoFlow {
    pub st: PersoFlowStep,
}

impl PersoFlow {
    /// The transition table.
    pub open spec fn spec_step(self, e: Event) -> (PersoFlow, StepOutput) {
        let fail = |k: Error|
            (PersoFlow { st: PersoFlowStep::Finished(Err(k)) }, StepOutput::Done(Err(k)));
        match self.st {
            PersoFlowStep::ClearingRxPrimary => match e {
                Event::Ack => (
                    PersoFlow { st: PersoFlowStep::BootstrappingPrimary },
                    StepOutput::Next(Action::BootstrapPrimary),
                ),
                Event::Failed(k) => fail(k.spec_tag_op(OpKind::ClearRxBuffer)),
                _ => fail(Error::ProtocolViolation),
            },
            PersoFlowStep::BootstrappingPrimary => match e {
                Event::Ack => (
                    PersoFlow { st: PersoFlowStep::WaitingForPass },
                    StepOutput::Next(Action::WaitForBanner(Banner::PersoPass)),
                ),
                Event::Failed(k) => fail(k.spec_tag_op(OpKind::BootstrapPrimary)),
                _ => fail(Error::ProtocolViolation),
            },
            PersoFlowStep::WaitingForPass => match e {
                Event::Ack => (
                    PersoFlow { st: PersoFlowStep::ClearingRxSecondary },
                    StepOutput::Next(Action::ClearRxBuffer),
                ),
                Event::Failed(k) => fail(k.spec_tag_op(OpKind::WaitForBanner)),
                _ => fail(Error::ProtocolViolation),
            },
            PersoFlowStep::ClearingRxSecondary => match e {
                Event::Ack => (
                    PersoFlow { st: PersoFlowStep::BootstrappingSecondary },
                    StepOutput::Next(Action::BootstrapSecondary),
                ),
                Event::Failed(k) => fail(k.spec_tag_op(OpKind::ClearRxBuffer)),
                _ => fail(Error::ProtocolViolation),
            },
            PersoFlowStep::BootstrappingSecondary => match e {
                Event::Ack => (
                    PersoFlow { st: PersoFlowStep::SettingFlowControl },
                    StepOutput::Next(Action::SetFlowControl(true)),
                ),
                Event::Failed(k) => fail(k.spec_tag_op(OpKind::BootstrapSecondary)),
                _ => fail(Error::ProtocolViolation),
            },
            PersoFlowStep::SettingFlowControl => match e {
                Event::Ack => (
                    PersoFlow { st: PersoFlowStep::WaitingForReady },
                    StepOutput::Next(Action::WaitForBanner(Banner::PersoReady)),
                ),
                Event::Failed(k) => fail(k.spec_tag_op(OpKind::SetFlowControl)),
                _ => fail(Error::ProtocolViolation),
            },
            PersoFlowStep::WaitingForReady => match e {
                Event::Ack => (
                    PersoFlow { st: PersoFlowStep::SendingData },
                    StepOutput::Next(Action::SendPersoFrame),
                ),
                Event::Failed(k) => fail(k.spec_tag_op(OpKind::WaitForBanner)),
                _ => fail(Error::ProtocolViolation),
            },
            PersoFlowStep::SendingData => match e {
                Event::Ack => (
                    PersoFlow { st: PersoFlowStep::WaitingForExport },
                    StepOutput::Next(Action::WaitForBanner(Banner::PersoExport)),
                ),
                Event::Failed(k) => fail(k.spec_tag_op(OpKind::SendFrame)),
                _ => fail(Error::ProtocolViolation),
            },
            PersoFlowStep::WaitingForExport => match e {
                Event::Ack => (
                    PersoFlow { st: PersoFlowStep::ReceivingData },
                    StepOutput::Next(Action::RecvPersoFrame),
                ),
                Event::Failed(k) => fail(k.spec_tag_op(OpKind::WaitForBanner)),
                _ => fail(Error::ProtocolViolation),
            },
            PersoFlowStep::ReceivingData => match e {
                Event::Ack => (
                    PersoFlow { st: PersoFlowStep::Finished(Ok(())) },
                    StepOutput::Done(Ok(())),
                ),
                Event::Failed(k) => fail(k.spec_tag_op(OpKind::RecvFrame)),
                _ => fail(Error::ProtocolViolation),
            },
            PersoFlowStep::Finished(r) => (self, StepOutput::Done(r)),
        }
    }

    /// Begin a personalization run. The first action is clearing the
    /// console buffer before the primary image is bootstrapped.
    pub fn run_ft_personalize() -> (r: (PersoFlow, Action))
        ensures
            r.0.st is ClearingRxPrimary,
            r.1 == Action::ClearRxBuffer,
    {
        (PersoFlow { st: PersoFlowStep::ClearingRxPrimary }, Action::ClearRxBuffer)
    }

    /// Advance the machine by one observed event.
    pub fn step(self, e: Event) -> (r: (PersoFlow, StepOutput))
        ensures
            r == self.spec_step(e),
    {
        match self.st {
            PersoFlowStep::ClearingRxPrimary => match e {
                Event::Ack => (
                    PersoFlow { st: PersoFlowStep::BootstrappingPrimary },
                    StepOutput::Next(Action::BootstrapPrimary),
                ),
                Event::Failed(k) => self.fail(k.tag_op(OpKind::ClearRxBuffer)),
                _ => self.fail(Error::ProtocolViolation),
            },
            PersoFlowStep::BootstrappingPrimary => match e {
                Event::Ack => (
                    PersoFlow { st: PersoFlowStep::WaitingForPass },
                    StepOutput::Next(Action::WaitForBanner(Banner::PersoPass)),
                ),
                Event::Failed(k) => self.fail(k.tag_op(OpKind::BootstrapPrimary)),
                _ => self.fail(Error::ProtocolViolation),
            },
            PersoFlowStep::WaitingForPass => match e {
                Event::Ack => (
                    PersoFlow { st: PersoFlowStep::ClearingRxSecondary },
                    StepOutput::Next(Action::ClearRxBuffer),
                ),
                Event::Failed(k) => self.fail(k.tag_op(OpKind::WaitForBanner)),
                _ => self.fail(Error::ProtocolViolation),
            },
            PersoFlowStep::ClearingRxSecondary => match e {
                Event::Ack => (
                    PersoFlow { st: PersoFlowStep::BootstrappingSecondary },
                    StepOutput::Next(Action::BootstrapSecondary),
                ),
                Event::Failed(k) => self.fail(k.tag_op(OpKind::ClearRxBuffer)),
                _ => self.fail(Error::ProtocolViolation),
            },
            PersoFlowStep::BootstrappingSecondary => match e {
                Event::Ack => (
                    PersoFlow { st: PersoFlowStep::SettingFlowControl },
                    StepOutput::Next(Action::SetFlowControl(true)),
                ),
                Event::Failed(k) => self.fail(k.tag_op(OpKind::BootstrapSecondary)),
                _ => self.fail(Error::ProtocolViolation),
            },
            PersoFlowStep::SettingFlowControl => match e {
                Event::Ack => (
                    PersoFlow { st: PersoFlowStep::WaitingForReady },
                    StepOutput::Next(Action::WaitForBanner(Banner::PersoReady)),
                ),
                Event::Failed(k) => self.fail(k.tag_op(OpKind::SetFlowControl)),
                _ => self.fail(Error::ProtocolViolation),
            },
            PersoFlowStep::WaitingForReady => match e {
                Event::Ack => (
                    PersoFlow { st: PersoFlowStep::SendingData },
                    StepOutput::Next(Action::SendPersoFrame),
                ),
                Event::Failed(k) => self.fail(k.tag_op(OpKind::WaitForBanner)),
                _ => self.fail(Error::ProtocolViolation),
            },
            PersoFlowStep::SendingData => match e {
                Event::Ack => (
                    PersoFlow { st: PersoFlowStep::WaitingForExport },
                    StepOutput::Next(Action::WaitForBanner(Banner::PersoExport)),
                ),
                Event::Failed(k) => self.fail(k.tag_op(OpKind::SendFrame)),
                _ => self.fail(Error::ProtocolViolation),
            },
            PersoFlowStep::WaitingForExport => match e {
                Event::Ack => (
                    PersoFlow { st: PersoFlowStep::ReceivingData },
                    StepOutput::Next(Action::RecvPersoFrame),
                ),
                Event::Failed(k) => self.fail(k.tag_op(OpKind::WaitForBanner)),
                _ => self.fail(Error::ProtocolViolation),
            },
            PersoFlowStep::ReceivingData => match e {
                Event::Ack => (
                    PersoFlow { st: PersoFlowStep::Finished(Ok(())) },
                    StepOutput::Done(Ok(())),
                ),
                Event::Failed(k) => self.fail(k.tag_op(OpKind::RecvFrame)),
                _ => self.fail(Error::ProtocolViolation),
            },
            PersoFlowStep::Finished(r) => (self, StepOutput::Done(r)),
        }
    }

    fn fail(self, k: Error) -> (r: (PersoFlow, StepOutput))
        ensures
            r == (
                PersoFlow { st: PersoFlowStep::Finished(Err(k)) },
                StepOutput::Done(Result::<(), Error>::Err(k)),
            ),
    {
        (PersoFlow { st: PersoFlowStep::Finished(Err(k)) }, StepOutput::Done(Err(k)))
    }
}

/// A banner that is not observed within the configured timeout ends the
/// stage at once with a timeout attributed to the banner wait: no further
/// action is asked of the driver, and this stage has no strap or debug
/// connection left to release.
pub proof fn lemma_banner_timeout_is_fatal(m: PersoFlow, reported: OpKind)
    requires
        m.st is WaitingForPass || m.st is WaitingForReady || m.st is WaitingForExport,
    ensures
        m.spec_step(Event::Failed(Error::Timeout { op: reported })).1 == StepOutput::Done(
            Result::<(), Error>::Err(Error::Timeout { op: OpKind::WaitForBanner }),
        ),
        m.spec_step(Event::Failed(Error::Timeout { op: reported })).0.st == PersoFlowStep::Finished(
            Result::<(), Error>::Err(Error::Timeout { op: OpKind::WaitForBanner }),
        ),
{
}

} // verus!
