use ft_lib::codec::{decode_perso_output, encode_perso_input, encode_perso_output, PersonalizationOutput};
use ft_lib::keys::EccPublicKey;
use ft_lib::perso_flow::PersoFlow;
use ft_lib::proto::{Action, Error, Event, OpKind, StepOutput};

/// Drives a personalization run against a stub device, the way a driver
/// would: it encodes the input record when asked to send, and hands back
/// the device's exported record when asked to receive.
#[test]
fn personalization_happy_path() {
    let host_pk = EccPublicKey { x: [1; 8], y: [2; 8] };
    let device_out = PersonalizationOutput {
        wrapped_rma_unlock_token: (100..116u32).collect(),
        device_cert: vec![0xab; 42],
    };
    let exported = encode_perso_output(&device_out);

    let (mut m, first) = PersoFlow::run_ft_personalize();
    assert!(matches!(first, Action::ClearRxBuffer));
    let mut log = vec![format!("{:?}", first)];
    let mut pending = first;
    let mut received: Option<PersonalizationOutput> = None;
    let mut result = None;
    for _ in 0..32 {
        let ev = match pending {
            Action::SendPersoFrame => {
                let bytes = encode_perso_input(&host_pk);
                assert_eq!(bytes[0], 0x30);
                assert_eq!(bytes.len(), 67);
                Event::Ack
            }
            Action::RecvPersoFrame => match decode_perso_output(&exported) {
                Ok(o) => {
                    received = Some(o);
                    Event::Ack
                }
                Err(e) => Event::Failed(e),
            },
            _ => Event::Ack,
        };
        let (m2, out) = m.step(ev);
        m = m2;
        match out {
            StepOutput::Next(a) => {
                log.push(format!("{:?}", a));
                pending = a;
            }
            StepOutput::Done(r) => {
                result = Some(r);
                break;
            }
        }
    }
    assert!(matches!(result, Some(Ok(()))));
    let o = received.expect("the exported record was decoded");
    assert_eq!(o.wrapped_rma_unlock_token, (100..116u32).collect::<Vec<u32>>());
    assert_eq!(o.device_cert, vec![0xab; 42]);
    assert_eq!(
        log,
        vec![
            "ClearRxBuffer".to_string(),
            "BootstrapPrimary".to_string(),
            "WaitForBanner(PersoPass)".to_string(),
            "ClearRxBuffer".to_string(),
            "BootstrapSecondary".to_string(),
            "SetFlowControl(true)".to_string(),
            "WaitForBanner(PersoReady)".to_string(),
            "SendPersoFrame".to_string(),
            "WaitForBanner(PersoExport)".to_string(),
            "RecvPersoFrame".to_string(),
        ]
    );
}

#[test]
fn pass_banner_timeout_is_fatal() {
    let (m, _) = PersoFlow::run_ft_personalize();
    let (m, _) = m.step(Event::Ack); // buffer cleared
    let (m, out) = m.step(Event::Ack); // primary bootstrapped
    assert!(matches!(out, StepOutput::Next(Action::WaitForBanner(_))));
    let (_, out) = m.step(Event::Failed(Error::Timeout { op: OpKind::WaitForBanner }));
    assert!(matches!(
        out,
        StepOutput::Done(Err(Error::Timeout { op: OpKind::WaitForBanner }))
    ));
}

#[test]
fn malformed_export_is_fatal() {
    let (mut m, first) = PersoFlow::run_ft_personalize();
    let mut pending = first;
    let mut result = None;
    for _ in 0..32 {
        let ev = match pending {
            Action::RecvPersoFrame => {
                // a truncated record decodes to an error, which the driver
                // reports as the failure of the receive
                let e = decode_perso_output(&[0x31, 0, 1]).unwrap_err();
                Event::Failed(e)
            }
            _ => Event::Ack,
        };
        let (m2, out) = m.step(ev);
        m = m2;
        match out {
            StepOutput::Next(a) => pending = a,
            StepOutput::Done(r) => {
                result = Some(r);
                break;
            }
        }
    }
    assert!(matches!(result, Some(Err(Error::MalformedFrame))));
}
