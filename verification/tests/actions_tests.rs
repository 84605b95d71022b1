use ft_lib::actions::{command_plan, ManufFtProvisioningActions};
use ft_lib::proto::{Error, FtCommand};

fn none_selected() -> ManufFtProvisioningActions {
    ManufFtProvisioningActions {
        all_steps: false,
        test_unlock: false,
        otp_creator_sw_cfg_start: false,
        otp_owner_sw_cfg: false,
        otp_hw_cfg: false,
        test_exit: false,
        personalize: false,
    }
}

#[test]
fn all_steps_alone_is_valid() {
    let a = ManufFtProvisioningActions { all_steps: true, ..none_selected() };
    assert!(a.validate().is_ok());
}

#[test]
fn all_steps_with_individual_flag_is_rejected() {
    let a = ManufFtProvisioningActions { all_steps: true, otp_hw_cfg: true, ..none_selected() };
    assert!(matches!(a.validate(), Err(Error::InvalidActionSet)));
    let b = ManufFtProvisioningActions { all_steps: true, test_unlock: true, ..none_selected() };
    assert!(matches!(b.validate(), Err(Error::InvalidActionSet)));
    let c = ManufFtProvisioningActions { all_steps: true, personalize: true, ..none_selected() };
    assert!(matches!(c.validate(), Err(Error::InvalidActionSet)));
}

#[test]
fn individual_flags_without_all_steps_are_valid() {
    let a = ManufFtProvisioningActions {
        otp_creator_sw_cfg_start: true,
        otp_owner_sw_cfg: true,
        otp_hw_cfg: true,
        test_unlock: true,
        test_exit: true,
        personalize: true,
        ..none_selected()
    };
    assert!(a.validate().is_ok());
}

#[test]
fn empty_selection_plan_is_done_only() {
    let plan = command_plan(&none_selected());
    assert_eq!(plan.len(), 1);
    assert!(matches!(plan[0], FtCommand::Done));
}

#[test]
fn all_steps_plan_is_write_all_then_done() {
    let a = ManufFtProvisioningActions { all_steps: true, ..none_selected() };
    let plan = command_plan(&a);
    assert_eq!(plan.len(), 2);
    assert!(matches!(plan[0], FtCommand::WriteAll));
    assert!(matches!(plan[1], FtCommand::Done));
}

#[test]
fn full_individual_selection_keeps_fixed_order() {
    let a = ManufFtProvisioningActions {
        otp_creator_sw_cfg_start: true,
        otp_owner_sw_cfg: true,
        otp_hw_cfg: true,
        ..none_selected()
    };
    let plan = command_plan(&a);
    assert_eq!(plan.len(), 4);
    assert!(matches!(plan[0], FtCommand::OtpCreatorSwCfgWrite));
    assert!(matches!(plan[1], FtCommand::OtpOwnerSwCfgWrite));
    assert!(matches!(plan[2], FtCommand::OtpHwCfgWrite));
    assert!(matches!(plan[3], FtCommand::Done));
}

#[test]
fn sparse_selection_keeps_fixed_order() {
    let a = ManufFtProvisioningActions {
        otp_creator_sw_cfg_start: true,
        otp_hw_cfg: true,
        ..none_selected()
    };
    let plan = command_plan(&a);
    assert_eq!(plan.len(), 3);
    assert!(matches!(plan[0], FtCommand::OtpCreatorSwCfgWrite));
    assert!(matches!(plan[1], FtCommand::OtpHwCfgWrite));
    assert!(matches!(plan[2], FtCommand::Done));
}
