//! Selection of provisioning steps, and the fixed command plan the SRAM
//! individualization stage derives from a selection.

use crate::proto::{Error, FtCommand};
use vstd::prelude::*;

verus! {

/// Provisioning action selection: which provisioning steps to perform.
///
/// `all_steps` supersedes every individual selection and is mutually
/// exclusive with each of them.
#[derive(Clone, Copy, Debug, PartialEq, Eq, Structural)]
pub struct ManufFtProvisioningActions {
    /// Perform all provisioning steps.
    pub all_steps: bool,
    /// Transition from TEST_LOCKED0 to TEST_UNLOCKED1.
    pub test_unlock: bool,
    /// Write the OTP CREATOR_SW_CFG partition.
    pub otp_creator_sw_cfg_start: bool,
    /// Write the OTP OWNER_SW_CFG partition.
    pub otp_owner_sw_cfg: bool,
    /// Write the OTP HW_CFG partition.
    pub otp_hw_cfg: bool,
    /// Transition to a mission-mode state after provisioning.
    pub test_exit: bool,
    /// Personalize the device with secrets.
    pub personalize: bool,
}

impl ManufFtProvisioningActions {
    /// A selection is valid when `all_steps` stands alone.
    pub open spec fn spec_valid(self) -> bool {
        self.all_steps ==> !(self.test_unlock || self.otp_creator_sw_cfg_start
            || self.otp_owner_sw_cfg || self.otp_hw_cfg || self.test_exit || self.personalize)
    }

    /// Reject a selection that combines `all_steps` with any individual
    /// step. The verdict is a function of the flags alone, so it cannot
    /// depend on the order in which the flags were supplied.
    pub fn validate(&self) -> (r: Result<(), Error>)
        ensures
            self.spec_valid() ==> r == Result::<(), Error>::Ok(()),
            !self.spec_valid() ==> r == Result::<(), Error>::Err(Error::InvalidActionSet),
    {
        if self.all_steps
            && (self.test_unlock || self.otp_creator_sw_cfg_start || self.otp_owner_sw_cfg
                || self.otp_hw_cfg || self.test_exit || self.personalize) {
            Err(Error::InvalidActionSet)
        } else {
            Ok(())
        }
    }
}

/// The OTP-writing commands selected by `a`, in the fixed execution order:
/// `WriteAll` (when `all_steps`), then CREATOR_SW_CFG, OWNER_SW_CFG and
/// HW_CFG in that order, whichever are selected.
pub open spec fn spec_command_prefix(a: ManufFtProvisioningActions) -> Seq<FtCommand> {
    (if a.all_steps {
        seq![FtCommand::WriteAll]
    } else {
        Seq::<FtCommand>::empty()
    }) + (if a.otp_creator_sw_cfg_start {
        seq![FtCommand::OtpCreatorSwCfgWrite]
    } else {
        Seq::<FtCommand>::empty()
    }) + (if a.otp_owner_sw_cfg {
        seq![FtCommand::OtpOwnerSwCfgWrite]
    } else {
        Seq::<FtCommand>::empty()
    }) + (if a.otp_hw_cfg {
        seq![FtCommand::OtpHwCfgWrite]
    } else {
        Seq::<FtCommand>::empty()
    })
}

/// The full command plan of a run: the selected OTP-writing commands in
/// fixed order, terminated by `Done` — `Done` is sent even when nothing
/// else is selected, to end the session cleanly.
pub open spec fn spec_command_plan(a: ManufFtProvisioningActions) -> Seq<FtCommand> {
    spec_command_prefix(a).push(FtCommand::Done)
}

/// Build the command plan of a selection.
pub fn command_plan(a: &ManufFtProvisioningActions) -> (r: Vec<FtCommand>)
    ensures
        r@ == spec_command_plan(*a),
{
    let mut r: Vec<FtCommand> = Vec::new();
    if a.all_steps {
        r.push(FtCommand::WriteAll);
    }
    if a.otp_creator_sw_cfg_start {
        r.push(FtCommand::OtpCreatorSwCfgWrite);
    }
    if a.otp_owner_sw_cfg {
        r.push(FtCommand::OtpOwnerSwCfgWrite);
    }
    if a.otp_hw_cfg {
        r.push(FtCommand::OtpHwCfgWrite);
    }
    r.push(FtCommand::Done);
    proof {
        assert(r@ =~= spec_command_plan(*a));
    }
    r
}

/// `Done` is always the last command of a plan, and only the last.
pub proof fn lemma_plan_done_last(a: ManufFtProvisioningActions)
    ensures
        spec_command_plan(a).len() >= 1,
        spec_command_plan(a).last() == FtCommand::Done,
        forall|i: int|
            0 <= i < spec_command_plan(a).len() - 1 ==> spec_command_plan(a)[i] != FtCommand::Done,
{
}

/// The OTP-writing commands of a plan stand in the fixed order, whatever
/// subset is selected: `WriteAll` before everything, CREATOR_SW_CFG before
/// OWNER_SW_CFG before HW_CFG.
pub proof fn lemma_plan_fixed_order(a: ManufFtProvisioningActions)
    ensures
        forall|i: int, j: int|
            0 <= i < spec_command_plan(a).len() && 0 <= j < spec_command_plan(a).len()
                && spec_command_plan(a)[i] == FtCommand::OtpCreatorSwCfgWrite
                && spec_command_plan(a)[j] == FtCommand::OtpOwnerSwCfgWrite ==> i < j,
        forall|i: int, j: int|
            0 <= i < spec_command_plan(a).len() && 0 <= j < spec_command_plan(a).len()
                && spec_command_plan(a)[i] == FtCommand::OtpOwnerSwCfgWrite
                && spec_command_plan(a)[j] == FtCommand::OtpHwCfgWrite ==> i < j,
        forall|i: int, j: int|
            0 <= i < spec_command_plan(a).len() && 0 <= j < spec_command_plan(a).len()
                && spec_command_plan(a)[i] == FtCommand::OtpCreatorSwCfgWrite
                && spec_command_plan(a)[j] == FtCommand::OtpHwCfgWrite ==> i < j,
        forall|i: int|
            0 <= i < spec_command_plan(a).len() && spec_command_plan(a)[i] == FtCommand::WriteAll
                ==> i == 0,
{
}

/// A valid selection never mixes `WriteAll` with an individual OTP-writing
/// command: under `all_steps` the plan is exactly `[WriteAll, Done]`.
pub proof fn lemma_all_steps_plan(a: ManufFtProvisioningActions)
    requires
        a.spec_valid(),
        a.all_steps,
    ensures
        spec_command_plan(a) =~= seq![FtCommand::WriteAll, FtCommand::Done],
{
}

} // verus!
