//! Shared vocabulary of the orchestration protocol: the actions a stage asks
//! its driver to perform, the events the driver reports back, the errors a
//! stage can end with, and the small value types both sides exchange.

use crate::lc_state::LcState;
use vstd::prelude::*;

verus! {

/// A 128-bit lifecycle-transition token, four 32-bit words.
#[derive(Clone, Copy, Debug)]
pub struct Token {
    pub words: [u32; 4],
}

/// The debug TAP a stage connects to; each TAP has a matching pin strap.
#[derive(Clone, Copy, Debug, PartialEq, Eq, Structural)]
pub enum Tap {
    Lc,
    Riscv,
}

/// The console text banners that delimit protocol phases.
#[derive(Clone, Copy, Debug, PartialEq, Eq, Structural)]
pub enum Banner {
    /// Start of SRAM provisioning; the program waits for commands.
    SramStart,
    /// The primary personalization image reports a passing self-test.
    PersoPass,
    /// The device is ready to receive provisioning data.
    PersoReady,
    /// The device is about to export provisioning data.
    PersoExport,
}

/// A command understood by the on-device provisioning firmware.
#[derive(Clone, Copy, Debug, PartialEq, Eq, Structural)]
pub enum FtCommand {
    WriteAll,
    OtpCreatorSwCfgWrite,
    OtpOwnerSwCfgWrite,
    OtpHwCfgWrite,
    Done,
}

/// What the program loader reported after loading the SRAM program.
#[derive(Clone, Copy, Debug, PartialEq, Eq, Structural)]
pub enum ExecOutcome {
    Executing,
    Failed,
}

/// A status acknowledgement received from the device.
#[derive(Clone, Copy, Debug, PartialEq, Eq, Structural)]
pub struct Status {
    pub code: u32,
}

impl Status {
    /// Zero is success; every other code reports a device-side failure.
    pub open spec fn spec_is_success(self) -> bool {
        self.code == 0
    }

    pub fn is_success(self) -> (r: bool)
        ensures
            r == self.spec_is_success(),
    {
        self.code == 0
    }
}

/// The operation a stage had in flight when it failed, so that a fatal
/// transport error or timeout names what was being attempted.
#[derive(Clone, Copy, Debug, PartialEq, Eq, Structural)]
pub enum OpKind {
    ApplyStrap,
    ResetTarget,
    ConnectJtag,
    HaltCore,
    ClearRxBuffer,
    LoadProgram,
    SetFlowControl,
    WaitForBanner,
    ReadLcState,
    TriggerTransition,
    SendFrame,
    RecvFrame,
    DisconnectJtag,
    RemoveStrap,
    BootstrapPrimary,
    BootstrapSecondary,
}

/// Why a stage ended without success. Every error is fatal for its stage:
/// lifecycle transitions and OTP writes are irreversible, so nothing is
/// retried.
#[derive(Clone, Copy, Debug, PartialEq, Eq, Structural)]
pub enum Error {
    /// The observed pre-transition state register did not hold the required
    /// value; the transition was not attempted.
    PreconditionViolation { expected: u32, observed: u32 },
    /// After the transition the state register did not report the target
    /// state.
    PostTransitionMismatch { expected: u32, observed: u32 },
    /// A debug-probe or console operation failed; `op` identifies it.
    Transport { op: OpKind },
    /// An expected banner or acknowledgement was not observed in time;
    /// `op` identifies the operation that was waiting.
    Timeout { op: OpKind },
    /// The SRAM program did not report that it is executing.
    SramExecutionFailed,
    /// The device acknowledged a command with a non-success status.
    DeviceStatusFailure { code: u32 },
    /// A received record was truncated or malformed.
    MalformedFrame,
    /// The action set selects `all_steps` together with an individual step.
    InvalidActionSet,
    /// A key document could not be parsed or was not an uncompressed point
    /// encoding of the expected size.
    InvalidKeyEncoding,
    /// The driver reported an event the current step cannot take.
    ProtocolViolation,
}

impl Error {
    /// The same failure, with a transport error or timeout attributed to
    /// the operation the stage had in flight. A step function applies this
    /// to every failure the driver reports, so the error a stage ends with
    /// names the operation that failed, whatever the driver filled in.
    pub open spec fn spec_tag_op(self, op: OpKind) -> Error {
        match self {
            Error::Transport { .. } => Error::Transport { op },
            Error::Timeout { .. } => Error::Timeout { op },
            _ => self,
        }
    }

    pub fn tag_op(self, op: OpKind) -> (r: Error)
        ensures
            r == self.spec_tag_op(op),
    {
        match self {
            Error::Transport { .. } => Error::Transport { op },
            Error::Timeout { .. } => Error::Timeout { op },
            _ => self,
        }
    }
}

/// A request to the lifecycle controller to transition to `target`.
#[derive(Clone, Copy, Debug)]
pub struct LcTransitionRequest {
    pub target: LcState,
    pub token: Token,
    pub use_external_clk: bool,
    /// Reconnect to this TAP after the transition so the stage can re-read
    /// the state register; `None` when reconnecting is unsafe.
    pub reconnect_tap: Option<Tap>,
}

/// One blocking operation a stage asks its driver to perform. The driver
/// performs it and reports the outcome as an [`Event`].
#[derive(Clone, Copy, Debug)]
pub enum Action {
    ApplyStrap(Tap),
    ResetTarget,
    ConnectJtag(Tap),
    HaltCore,
    ClearRxBuffer,
    LoadAndExecuteSram,
    SetFlowControl(bool),
    WaitForBanner(Banner),
    ReadLcState,
    TriggerTransition(LcTransitionRequest),
    SendCommandFrame(FtCommand),
    RecvStatusFrame,
    SendPersoFrame,
    RecvPersoFrame,
    DisconnectJtag,
    RemoveStrap(Tap),
    BootstrapPrimary,
    BootstrapSecondary,
}

/// The outcome of the last action, reported by the driver.
#[derive(Clone, Copy, Debug)]
pub enum Event {
    /// The action completed.
    Ack,
    /// The state register read returned this word.
    LcStateWord(u32),
    /// The program loader finished with this outcome.
    SramExec(ExecOutcome),
    /// A status acknowledgement frame was received and decoded.
    StatusFrame(Status),
    /// The action failed; the stage must clean up and end with this error.
    Failed(Error),
}

/// What a step function hands back: either the next action to perform, or
/// the stage's final result.
#[derive(Clone, Copy, Debug)]
pub enum StepOutput {
    Next(Action),
    Done(Result<(), Error>),
}

} // verus!
