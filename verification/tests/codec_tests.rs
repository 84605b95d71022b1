use ft_lib::codec::{
    decode_command, decode_perso_output, decode_status, encode_command, encode_perso_input,
    encode_perso_output, encode_status, PersonalizationOutput,
};
use ft_lib::keys::EccPublicKey;
use ft_lib::proto::{Error, FtCommand, Status};

#[test]
fn command_frames_are_exact() {
    assert_eq!(encode_command(FtCommand::WriteAll), vec![0x10, 0, 0]);
    assert_eq!(encode_command(FtCommand::OtpCreatorSwCfgWrite), vec![0x11, 0, 0]);
    assert_eq!(encode_command(FtCommand::OtpOwnerSwCfgWrite), vec![0x12, 0, 0]);
    assert_eq!(encode_command(FtCommand::OtpHwCfgWrite), vec![0x13, 0, 0]);
    assert_eq!(encode_command(FtCommand::Done), vec![0x14, 0, 0]);
}

#[test]
fn command_roundtrip() {
    let all = [
        FtCommand::WriteAll,
        FtCommand::OtpCreatorSwCfgWrite,
        FtCommand::OtpOwnerSwCfgWrite,
        FtCommand::OtpHwCfgWrite,
        FtCommand::Done,
    ];
    for c in all {
        let bytes = encode_command(c);
        let back = decode_command(&bytes).unwrap();
        assert_eq!(back, c);
    }
}

#[test]
fn malformed_command_frames_are_rejected() {
    assert!(matches!(decode_command(&[]), Err(Error::MalformedFrame)));
    assert!(matches!(decode_command(&[0x10]), Err(Error::MalformedFrame)));
    assert!(matches!(decode_command(&[0x15, 0, 0]), Err(Error::MalformedFrame)));
    assert!(matches!(decode_command(&[0x10, 1, 0]), Err(Error::MalformedFrame)));
    assert!(matches!(decode_command(&[0x10, 0, 0, 0]), Err(Error::MalformedFrame)));
}

#[test]
fn status_frames_are_exact_and_roundtrip() {
    let ok = Status { code: 0 };
    assert!(ok.is_success());
    assert_eq!(encode_status(ok), vec![0x20, 4, 0, 0, 0, 0, 0]);
    let failing = Status { code: 0x0102_0304 };
    assert!(!failing.is_success());
    let bytes = encode_status(failing);
    assert_eq!(bytes, vec![0x20, 4, 0, 0x04, 0x03, 0x02, 0x01]);
    let back = decode_status(&bytes).unwrap();
    assert_eq!(back, failing);
}

#[test]
fn malformed_status_frames_are_rejected() {
    assert!(matches!(decode_status(&[]), Err(Error::MalformedFrame)));
    assert!(matches!(decode_status(&[0x20, 4, 0]), Err(Error::MalformedFrame)));
    assert!(matches!(decode_status(&[0x21, 4, 0, 0, 0, 0, 0]), Err(Error::MalformedFrame)));
    assert!(matches!(decode_status(&[0x20, 3, 0, 0, 0, 0, 0]), Err(Error::MalformedFrame)));
}

#[test]
fn perso_input_frame_is_exact() {
    let k = EccPublicKey {
        x: [1, 2, 3, 4, 5, 6, 7, 8],
        y: [0x11223344, 0, 0, 0, 0, 0, 0, 0x55667788],
    };
    let bytes = encode_perso_input(&k);
    assert_eq!(bytes.len(), 3 + 64);
    assert_eq!(&bytes[0..3], &[0x30, 64, 0]);
    // x words, little-endian, in array order
    assert_eq!(&bytes[3..7], &[1, 0, 0, 0]);
    assert_eq!(&bytes[7..11], &[2, 0, 0, 0]);
    assert_eq!(&bytes[31..35], &[8, 0, 0, 0]);
    // y words
    assert_eq!(&bytes[35..39], &[0x44, 0x33, 0x22, 0x11]);
    assert_eq!(&bytes[63..67], &[0x88, 0x77, 0x66, 0x55]);
}

#[test]
fn perso_output_roundtrip() {
    let token: Vec<u32> = (0..16u32).map(|i| 0x1000_0000 + i).collect();
    let cert: Vec<u8> = (0..300u32).map(|i| (i % 251) as u8).collect();
    let o = PersonalizationOutput { wrapped_rma_unlock_token: token.clone(), device_cert: cert.clone() };
    let bytes = encode_perso_output(&o);
    assert_eq!(bytes.len(), 3 + 64 + 300);
    assert_eq!(bytes[0], 0x31);
    assert_eq!(bytes[1], ((64 + 300) % 256) as u8);
    assert_eq!(bytes[2], ((64 + 300) / 256) as u8);
    let back = decode_perso_output(&bytes).unwrap();
    assert_eq!(back.wrapped_rma_unlock_token, token);
    assert_eq!(back.device_cert, cert);
}

#[test]
fn perso_output_empty_cert_roundtrip() {
    let o = PersonalizationOutput {
        wrapped_rma_unlock_token: vec![7; 16],
        device_cert: Vec::new(),
    };
    let bytes = encode_perso_output(&o);
    assert_eq!(bytes.len(), 67);
    let back = decode_perso_output(&bytes).unwrap();
    assert_eq!(back.wrapped_rma_unlock_token, vec![7; 16]);
    assert!(back.device_cert.is_empty());
}

#[test]
fn truncated_or_malformed_perso_output_is_rejected() {
    let o = PersonalizationOutput {
        wrapped_rma_unlock_token: vec![1; 16],
        device_cert: vec![9; 10],
    };
    let bytes = encode_perso_output(&o);
    // truncated record
    assert!(matches!(decode_perso_output(&bytes[..bytes.len() - 1]), Err(Error::MalformedFrame)));
    // trailing garbage
    let mut longer = bytes.clone();
    longer.push(0);
    assert!(matches!(decode_perso_output(&longer), Err(Error::MalformedFrame)));
    // wrong discriminator
    let mut wrong = bytes.clone();
    wrong[0] = 0x30;
    assert!(matches!(decode_perso_output(&wrong), Err(Error::MalformedFrame)));
    // payload shorter than the token alone
    assert!(matches!(decode_perso_output(&[0x31, 10, 0]), Err(Error::MalformedFrame)));
    // empty input
    assert!(matches!(decode_perso_output(&[]), Err(Error::MalformedFrame)));
}

#[test]
fn oversized_cert_is_rejected() {
    // payload length claims a certificate beyond the size bound
    let plen: usize = 64 + 4097;
    let mut bytes = vec![0x31, (plen % 256) as u8, (plen / 256) as u8];
    bytes.extend(std::iter::repeat(0u8).take(plen));
    assert!(matches!(decode_perso_output(&bytes), Err(Error::MalformedFrame)));
}
