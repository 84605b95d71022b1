use ft_lib::keys::{derive_host_pubkey, EccPublicKey};
use ft_lib::proto::Error;
use p256::pkcs8::EncodePrivateKey;

#[test]
fn sec1_split_reverses_word_order() {
    // format byte, then X = 0x00..0x1f, Y = 0x20..0x3f
    let mut sec1 = vec![4u8];
    for i in 0..64u8 {
        sec1.push(i);
    }
    let k = EccPublicKey::from_sec1_bytes(&sec1).unwrap();
    for i in 0..8usize {
        let xoff = 1 + 4 * (7 - i);
        let expected_x = u32::from_be_bytes([
            sec1[xoff],
            sec1[xoff + 1],
            sec1[xoff + 2],
            sec1[xoff + 3],
        ]);
        assert_eq!(k.x[i], expected_x);
        let yoff = 33 + 4 * (7 - i);
        let expected_y = u32::from_be_bytes([
            sec1[yoff],
            sec1[yoff + 1],
            sec1[yoff + 2],
            sec1[yoff + 3],
        ]);
        assert_eq!(k.y[i], expected_y);
    }
    // spot-check concrete values: the last X chunk becomes the first word
    assert_eq!(k.x[0], 0x1c1d1e1f);
    assert_eq!(k.x[7], 0x00010203);
    assert_eq!(k.y[0], 0x3c3d3e3f);
    assert_eq!(k.y[7], 0x20212223);
}

#[test]
fn wrong_length_or_format_byte_is_rejected() {
    assert!(matches!(EccPublicKey::from_sec1_bytes(&[]), Err(Error::InvalidKeyEncoding)));
    let compressed = vec![2u8; 33];
    assert!(matches!(EccPublicKey::from_sec1_bytes(&compressed), Err(Error::InvalidKeyEncoding)));
    let wrong_tag = vec![3u8; 65];
    assert!(matches!(EccPublicKey::from_sec1_bytes(&wrong_tag), Err(Error::InvalidKeyEncoding)));
    let short = vec![4u8; 64];
    assert!(matches!(EccPublicKey::from_sec1_bytes(&short), Err(Error::InvalidKeyEncoding)));
}

#[test]
fn derive_host_pubkey_matches_curve_arithmetic() {
    // a fixed, well-known non-zero scalar as the private key
    let mut scalar = [0u8; 32];
    scalar[31] = 0x2a;
    scalar[0] = 0x01;
    let sk = p256::SecretKey::from_slice(&scalar).unwrap();
    let der = sk.to_pkcs8_der().unwrap();
    let k = derive_host_pubkey(der.as_bytes()).unwrap();

    // recompute the expectation independently from the SEC1 encoding
    let sec1 = sk.public_key().to_sec1_bytes();
    assert_eq!(sec1.len(), 65);
    assert_eq!(sec1[0], 4);
    for i in 0..8usize {
        let xoff = 1 + 4 * (7 - i);
        let expected_x = u32::from_be_bytes([
            sec1[xoff],
            sec1[xoff + 1],
            sec1[xoff + 2],
            sec1[xoff + 3],
        ]);
        assert_eq!(k.x[i], expected_x);
        let yoff = 33 + 4 * (7 - i);
        let expected_y = u32::from_be_bytes([
            sec1[yoff],
            sec1[yoff + 1],
            sec1[yoff + 2],
            sec1[yoff + 3],
        ]);
        assert_eq!(k.y[i], expected_y);
    }
}

#[test]
fn garbage_der_is_rejected() {
    assert!(matches!(derive_host_pubkey(&[0u8; 40]), Err(Error::InvalidKeyEncoding)));
}
