use ft_lib::lc_state::LcState;

#[test]
fn redundant_encodings_are_exact() {
    // the 5-bit canonical value replicated six times across 30 bits
    assert_eq!(LcState::Raw.redundant_encoding(), 0);
    assert_eq!(LcState::TestUnlocked0.redundant_encoding(), 0x0210_8421);
    assert_eq!(LcState::TestLocked0.redundant_encoding(), 2 * 0x0210_8421);
    assert_eq!(LcState::TestUnlocked1.redundant_encoding(), 3 * 0x0210_8421);
    assert_eq!(LcState::Dev.redundant_encoding(), 16 * 0x0210_8421);
    assert_eq!(LcState::Prod.redundant_encoding(), 17 * 0x0210_8421);
    assert_eq!(LcState::ProdEnd.redundant_encoding(), 18 * 0x0210_8421);
    assert_eq!(LcState::Rma.redundant_encoding(), 19 * 0x0210_8421);
    assert_eq!(LcState::Scrap.redundant_encoding(), 20 * 0x0210_8421);
}

#[test]
fn decode_roundtrips() {
    let all = [
        LcState::Raw,
        LcState::TestUnlocked0,
        LcState::TestLocked0,
        LcState::TestUnlocked1,
        LcState::Dev,
        LcState::Prod,
        LcState::ProdEnd,
        LcState::Rma,
        LcState::Scrap,
    ];
    for s in all {
        assert_eq!(LcState::decode_redundant(s.redundant_encoding()), Some(s));
    }
}

#[test]
fn corrupt_words_decode_to_none() {
    assert_eq!(LcState::decode_redundant(0x0210_8421 ^ 1), None);
    assert_eq!(LcState::decode_redundant(0xffff_ffff), None);
    assert_eq!(LcState::decode_redundant(21 * 0x0210_8421), None);
}
