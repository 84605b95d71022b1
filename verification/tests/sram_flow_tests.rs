use ft_lib::actions::ManufFtProvisioningActions;
use ft_lib::proto::{Action, Error, Event, ExecOutcome, FtCommand, OpKind, Status, StepOutput, Tap};
use ft_lib::sram_flow::SramFlow;

fn none_selected() -> ManufFtProvisioningActions {
    ManufFtProvisioningActions {
        all_steps: false,
        test_unlock: false,
        otp_creator_sw_cfg_start: false,
        otp_owner_sw_cfg: false,
        otp_hw_cfg: false,
        test_exit: false,
        personalize: false,
    }
}

/// Drives an individualization flow against a stub device that loads the
/// program successfully and acknowledges every command with `status_code`.
fn drive(a: &ManufFtProvisioningActions, status_code: u32) -> (Vec<String>, Result<(), Error>) {
    let (mut m, first) = SramFlow::run_sram_ft_individualize(a).unwrap();
    assert!(matches!(first, Action::ApplyStrap(Tap::Riscv)));
    let mut log = vec![format!("{:?}", first)];
    let mut pending = first;
    for _ in 0..64 {
        let ev = match pending {
            Action::LoadAndExecuteSram => Event::SramExec(ExecOutcome::Executing),
            Action::RecvStatusFrame => Event::StatusFrame(Status { code: status_code }),
            _ => Event::Ack,
        };
        let (m2, out) = m.step(ev);
        m = m2;
        match out {
            StepOutput::Next(act) => {
                log.push(format!("{:?}", act));
                pending = act;
            }
            StepOutput::Done(r) => return (log, r),
        }
    }
    panic!("flow did not finish");
}

fn sent_commands(log: &[String]) -> Vec<String> {
    log.iter().filter(|l| l.starts_with("SendCommandFrame")).cloned().collect()
}

#[test]
fn hw_cfg_only_sends_exactly_two_commands() {
    let a = ManufFtProvisioningActions { otp_hw_cfg: true, ..none_selected() };
    let (log, result) = drive(&a, 0);
    assert!(result.is_ok());
    let cmds = sent_commands(&log);
    assert_eq!(
        cmds,
        vec![
            format!("SendCommandFrame({:?})", FtCommand::OtpHwCfgWrite),
            format!("SendCommandFrame({:?})", FtCommand::Done),
        ]
    );
    // each command is followed by a status read
    for (i, l) in log.iter().enumerate() {
        if l.starts_with("SendCommandFrame") {
            assert_eq!(log[i + 1], "RecvStatusFrame");
        }
    }
    // the stage released its resources, in order
    let n = log.len();
    assert_eq!(log[n - 2], "DisconnectJtag");
    assert_eq!(log[n - 1], "RemoveStrap(Riscv)");
}

#[test]
fn all_steps_sends_write_all_then_done() {
    let a = ManufFtProvisioningActions { all_steps: true, ..none_selected() };
    let (log, result) = drive(&a, 0);
    assert!(result.is_ok());
    let cmds = sent_commands(&log);
    assert_eq!(
        cmds,
        vec![
            format!("SendCommandFrame({:?})", FtCommand::WriteAll),
            format!("SendCommandFrame({:?})", FtCommand::Done),
        ]
    );
}

#[test]
fn empty_selection_still_sends_done() {
    let (log, result) = drive(&none_selected(), 0);
    assert!(result.is_ok());
    let cmds = sent_commands(&log);
    assert_eq!(cmds, vec![format!("SendCommandFrame({:?})", FtCommand::Done)]);
}

#[test]
fn full_selection_sends_commands_in_fixed_order() {
    let a = ManufFtProvisioningActions {
        otp_creator_sw_cfg_start: true,
        otp_owner_sw_cfg: true,
        otp_hw_cfg: true,
        ..none_selected()
    };
    let (log, result) = drive(&a, 0);
    assert!(result.is_ok());
    let cmds = sent_commands(&log);
    assert_eq!(
        cmds,
        vec![
            format!("SendCommandFrame({:?})", FtCommand::OtpCreatorSwCfgWrite),
            format!("SendCommandFrame({:?})", FtCommand::OtpOwnerSwCfgWrite),
            format!("SendCommandFrame({:?})", FtCommand::OtpHwCfgWrite),
            format!("SendCommandFrame({:?})", FtCommand::Done),
        ]
    );
}

#[test]
fn conflicting_selection_is_rejected_before_any_action() {
    let a = ManufFtProvisioningActions { all_steps: true, otp_owner_sw_cfg: true, ..none_selected() };
    assert!(matches!(
        SramFlow::run_sram_ft_individualize(&a),
        Err(Error::InvalidActionSet)
    ));
}

#[test]
fn non_success_status_aborts_remaining_commands() {
    let a = ManufFtProvisioningActions {
        otp_creator_sw_cfg_start: true,
        otp_owner_sw_cfg: true,
        ..none_selected()
    };
    let (log, result) = drive(&a, 3);
    assert!(matches!(result, Err(Error::DeviceStatusFailure { code: 3 })));
    // only the first command went out before the failing acknowledgement
    assert_eq!(sent_commands(&log).len(), 1);
    // cleanup still ran, exactly once
    assert_eq!(log.iter().filter(|l| *l == "DisconnectJtag").count(), 1);
    assert_eq!(log.iter().filter(|l| *l == "RemoveStrap(Riscv)").count(), 1);
}

#[test]
fn failed_program_load_is_fatal() {
    let (mut m, first) = SramFlow::run_sram_ft_individualize(&none_selected()).unwrap();
    let mut pending = first;
    let mut result = None;
    for _ in 0..16 {
        let ev = match pending {
            Action::LoadAndExecuteSram => Event::SramExec(ExecOutcome::Failed),
            _ => Event::Ack,
        };
        let (m2, out) = m.step(ev);
        m = m2;
        match out {
            StepOutput::Next(act) => pending = act,
            StepOutput::Done(r) => {
                result = Some(r);
                break;
            }
        }
    }
    assert!(matches!(result, Some(Err(Error::SramExecutionFailed))));
}

#[test]
fn banner_timeout_cleans_up_exactly_once() {
    let (mut m, first) = SramFlow::run_sram_ft_individualize(&none_selected()).unwrap();
    let mut pending = first;
    let mut after_timeout: Vec<String> = Vec::new();
    let mut timed_out = false;
    let mut result = None;
    for _ in 0..32 {
        let ev = match pending {
            Action::LoadAndExecuteSram => Event::SramExec(ExecOutcome::Executing),
            Action::WaitForBanner(_) => {
                timed_out = true;
                Event::Failed(Error::Timeout { op: OpKind::WaitForBanner })
            }
            _ => Event::Ack,
        };
        let (m2, out) = m.step(ev);
        m = m2;
        match out {
            StepOutput::Next(act) => {
                if timed_out {
                    after_timeout.push(format!("{:?}", act));
                }
                pending = act;
            }
            StepOutput::Done(r) => {
                result = Some(r);
                break;
            }
        }
    }
    assert!(matches!(result, Some(Err(Error::Timeout { op: OpKind::WaitForBanner }))));
    assert_eq!(after_timeout, vec!["DisconnectJtag".to_string(), "RemoveStrap(Riscv)".to_string()]);
}
