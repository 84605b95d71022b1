//! Byte-exact console codec: little-endian word packing, command frames,
//! status acknowledgements, and the personalization data records.
//!
//! Every record is a length-tagged binary structure: a one-byte record
//! discriminator, a two-byte little-endian payload length, then the payload.
//! A truncated or malformed record decodes to an error, never to a partial
//! value.

use crate::keys::EccPublicKey;
use crate::proto::{Error, FtCommand, Status};
use vstd::prelude::*;

verus! {

pub const FRAME_CMD_WRITE_ALL: u8 = 0x10;
pub const FRAME_CMD_CREATOR: u8 = 0x11;
pub const FRAME_CMD_OWNER: u8 = 0x12;
pub const FRAME_CMD_HW: u8 = 0x13;
pub const FRAME_CMD_DONE: u8 = 0x14;
pub const FRAME_STATUS: u8 = 0x20;
pub const FRAME_PERSO_IN: u8 = 0x30;
pub const FRAME_PERSO_OUT: u8 = 0x31;

/// Longest device certificate a personalization output record may carry.
pub const MAX_CERT_LEN: usize = 4096;

/// The 32-bit word with little-endian bytes `b0..b3`.
pub open spec fn spec_le_word(b0: u8, b1: u8, b2: u8, b3: u8) -> u32 {
    (b0 as u32) | ((b1 as u32) << 8) | ((b2 as u32) << 16) | ((b3 as u32) << 24)
}

/// The four little-endian bytes of `w`.
pub open spec fn spec_word_le_bytes(w: u32) -> Seq<u8> {
    seq![
        (w & 0xff) as u8,
        ((w >> 8) & 0xff) as u8,
        ((w >> 16) & 0xff) as u8,
        ((w >> 24) & 0xff) as u8,
    ]
}

/// Packing the little-endian bytes of a word gives the word back.
pub proof fn lemma_word_le_roundtrip(w: u32)
    ensures
        spec_le_word(
            (w & 0xff) as u8,
            ((w >> 8) & 0xff) as u8,
            ((w >> 16) & 0xff) as u8,
            ((w >> 24) & 0xff) as u8,
        ) == w,
{
    assert((((w & 0xff) as u8) as u32) | ((((w >> 8) & 0xff) as u8) as u32) << 8
        | ((((w >> 16) & 0xff) as u8) as u32) << 16 | ((((w >> 24) & 0xff) as u8) as u32) << 24
        == w) by (bit_vector);
}

/// Splitting a packed word gives the bytes back.
pub proof fn lemma_le_word_bytes(b0: u8, b1: u8, b2: u8, b3: u8)
    ensures
        spec_word_le_bytes(spec_le_word(b0, b1, b2, b3)) =~= seq![b0, b1, b2, b3],
{
    let w = spec_le_word(b0, b1, b2, b3);
    assert(((b0 as u32) | ((b1 as u32) << 8) | ((b2 as u32) << 16) | ((b3 as u32) << 24)) & 0xff
        == b0 as u32) by (bit_vector);
    assert((((b0 as u32) | ((b1 as u32) << 8) | ((b2 as u32) << 16) | ((b3 as u32) << 24)) >> 8)
        & 0xff == b1 as u32) by (bit_vector);
    assert((((b0 as u32) | ((b1 as u32) << 8) | ((b2 as u32) << 16) | ((b3 as u32) << 24)) >> 16)
        & 0xff == b2 as u32) by (bit_vector);
    assert((((b0 as u32) | ((b1 as u32) << 8) | ((b2 as u32) << 16) | ((b3 as u32) << 24)) >> 24)
        & 0xff == b3 as u32) by (bit_vector);
}

/// Append the four little-endian bytes of `w`.
pub fn push_word_le(out: &mut Vec<u8>, w: u32)
    ensures
        final(out)@ == old(out)@ + spec_word_le_bytes(w),
{
    assert(w & 0xff <= 0xff && (w >> 8) & 0xff <= 0xff && (w >> 16) & 0xff <= 0xff
        && (w >> 24) & 0xff <= 0xff) by (bit_vector);
    out.push((w & 0xff) as u8);
    out.push(((w >> 8) & 0xff) as u8);
    out.push(((w >> 16) & 0xff) as u8);
    out.push(((w >> 24) & 0xff) as u8);
    proof {
        assert(out@ =~= old(out)@ + spec_word_le_bytes(w));
    }
}

/// Read the little-endian word at `off`.
pub fn read_word_le(b: &[u8], off: usize) -> (r: u32)
    requires
        off + 4 <= b@.len(),
    ensures
        r == spec_le_word(b@[off as int], b@[off + 1], b@[off + 2], b@[off + 3]),
{
    (b[off] as u32) | ((b[off + 1] as u32) << 8) | ((b[off + 2] as u32) << 16)
        | ((b[off + 3] as u32) << 24)
}

/// The little-endian byte stream of a word sequence.
pub open spec fn spec_words_le(ws: Seq<u32>) -> Seq<u8>
    decreases ws.len(),
{
    if ws.len() == 0 {
        Seq::<u8>::empty()
    } else {
        spec_word_le_bytes(ws[0]) + spec_words_le(ws.drop_first())
    }
}

pub proof fn lemma_words_le_len(ws: Seq<u32>)
    ensures
        spec_words_le(ws).len() == 4 * ws.len(),
    decreases ws.len(),
{
    if ws.len() > 0 {
        lemma_words_le_len(ws.drop_first());
    }
}

pub proof fn lemma_words_le_push(ws: Seq<u32>, w: u32)
    ensures
        spec_words_le(ws.push(w)) =~= spec_words_le(ws) + spec_word_le_bytes(w),
    decreases ws.len(),
{
    if ws.len() == 0 {
        assert(ws.push(w)[0] == w);
        assert(ws.push(w).drop_first() =~= Seq::<u32>::empty());
        assert(spec_words_le(ws.push(w).drop_first()) =~= Seq::<u8>::empty());
        assert(spec_words_le(ws.push(w)) =~= spec_word_le_bytes(w) + Seq::<u8>::empty());
        assert(spec_words_le(ws.push(w)) =~= spec_words_le(ws) + spec_word_le_bytes(w));
    } else {
        assert(ws.push(w).drop_first() =~= ws.drop_first().push(w));
        lemma_words_le_push(ws.drop_first(), w);
        assert(spec_words_le(ws.push(w)) =~= spec_word_le_bytes(ws[0]) + (spec_words_le(
            ws.drop_first(),
        ) + spec_word_le_bytes(w)));
        assert(spec_words_le(ws.push(w)) =~= spec_words_le(ws) + spec_word_le_bytes(w));
    }
}

/// Equal byte streams of equally many words come from equal words.
pub proof fn lemma_words_le_injective(a: Seq<u32>, b: Seq<u32>)
    requires
        a.len() == b.len(),
        spec_words_le(a) =~= spec_words_le(b),
    ensures
        a =~= b,
    decreases a.len(),
{
    if a.len() > 0 {
        lemma_words_le_len(a.drop_first());
        lemma_words_le_len(b.drop_first());
        assert(spec_word_le_bytes(a[0]) =~= spec_word_le_bytes(b[0])) by {
            assert forall|i: int| 0 <= i < 4 implies spec_word_le_bytes(a[0])[i]
                == spec_word_le_bytes(b[0])[i] by {
                assert(spec_words_le(a)[i] == spec_word_le_bytes(a[0])[i]);
                assert(spec_words_le(b)[i] == spec_word_le_bytes(b[0])[i]);
            }
        }
        lemma_le_word_bytes_agree(a[0], b[0]);
        assert(spec_words_le(a.drop_first()) =~= spec_words_le(b.drop_first())) by {
            assert forall|i: int| 0 <= i < spec_words_le(a.drop_first()).len() implies spec_words_le(
                a.drop_first(),
            )[i] == spec_words_le(b.drop_first())[i] by {
                assert(spec_words_le(a)[i + 4] == spec_words_le(a.drop_first())[i]);
                assert(spec_words_le(b)[i + 4] == spec_words_le(b.drop_first())[i]);
            }
        }
        lemma_words_le_injective(a.drop_first(), b.drop_first());
        assert forall|i: int| 0 <= i < a.len() implies a[i] == b[i] by {
            if i > 0 {
                assert(a[i] == a.drop_first()[i - 1]);
                assert(b[i] == b.drop_first()[i - 1]);
            }
        }
    }
}

proof fn lemma_le_word_bytes_agree(x: u32, y: u32)
    requires
        spec_word_le_bytes(x) =~= spec_word_le_bytes(y),
    ensures
        x == y,
{
    assert(spec_word_le_bytes(x)[0] == spec_word_le_bytes(y)[0]);
    assert(spec_word_le_bytes(x)[1] == spec_word_le_bytes(y)[1]);
    assert(spec_word_le_bytes(x)[2] == spec_word_le_bytes(y)[2]);
    assert(spec_word_le_bytes(x)[3] == spec_word_le_bytes(y)[3]);
    assert(((x & 0xff) as u8 == (y & 0xff) as u8 && ((x >> 8) & 0xff) as u8 == ((y >> 8)
        & 0xff) as u8 && ((x >> 16) & 0xff) as u8 == ((y >> 16) & 0xff) as u8 && ((x >> 24)
        & 0xff) as u8 == ((y >> 24) & 0xff) as u8) ==> x == y) by (bit_vector);
}

/// The frame discriminator of a command.
pub open spec fn spec_command_id(c: FtCommand) -> u8 {
    match c {
        FtCommand::WriteAll => FRAME_CMD_WRITE_ALL,
        FtCommand::OtpCreatorSwCfgWrite => FRAME_CMD_CREATOR,
        FtCommand::OtpOwnerSwCfgWrite => FRAME_CMD_OWNER,
        FtCommand::OtpHwCfgWrite => FRAME_CMD_HW,
        FtCommand::Done => FRAME_CMD_DONE,
    }
}

/// A command frame: the command's discriminator and an empty payload.
pub open spec fn spec_encode_command(c: FtCommand) -> Seq<u8> {
    seq![spec_command_id(c), 0u8, 0u8]
}

pub fn encode_command(c: FtCommand) -> (r: Vec<u8>)
    ensures
        r@ == spec_encode_command(c),
{
    let id: u8 = match c {
        FtCommand::WriteAll => FRAME_CMD_WRITE_ALL,
        FtCommand::OtpCreatorSwCfgWrite => FRAME_CMD_CREATOR,
        FtCommand::OtpOwnerSwCfgWrite => FRAME_CMD_OWNER,
        FtCommand::OtpHwCfgWrite => FRAME_CMD_HW,
        FtCommand::Done => FRAME_CMD_DONE,
    };
    let mut r: Vec<u8> = Vec::new();
    r.push(id);
    r.push(0);
    r.push(0);
    proof {
        assert(r@ =~= spec_encode_command(c));
    }
    r
}

pub fn decode_command(b: &[u8]) -> (r: Result<FtCommand, Error>)
    ensures
        (r is Ok <==> exists|c: FtCommand| b@ == spec_encode_command(c)),
        (forall|c: FtCommand| #[trigger] spec_encode_command(c) == b@ ==> r == Result::<
            FtCommand,
            Error,
        >::Ok(c)),
        r is Err ==> r == Result::<FtCommand, Error>::Err(Error::MalformedFrame),
{
    if b.len() != 3 || b[1] != 0 || b[2] != 0 {
        return Err(Error::MalformedFrame);
    }
    let r: Result<FtCommand, Error> = match b[0] {
        FRAME_CMD_WRITE_ALL => Ok(FtCommand::WriteAll),
        FRAME_CMD_CREATOR => Ok(FtCommand::OtpCreatorSwCfgWrite),
        FRAME_CMD_OWNER => Ok(FtCommand::OtpOwnerSwCfgWrite),
        FRAME_CMD_HW => Ok(FtCommand::OtpHwCfgWrite),
        FRAME_CMD_DONE => Ok(FtCommand::Done),
        _ => Err(Error::MalformedFrame),
    };
    proof {
        if r is Ok {
            assert(b@ =~= spec_encode_command(r->Ok_0));
        }
    }
    r
}

/// A status acknowledgement frame: discriminator, four-byte payload holding
/// the little-endian status code. Code zero is success.
pub open spec fn spec_encode_status(code: u32) -> Seq<u8> {
    seq![FRAME_STATUS, 4u8, 0u8] + spec_word_le_bytes(code)
}

pub fn encode_status(s: Status) -> (r: Vec<u8>)
    ensures
        r@ == spec_encode_status(s.code),
{
    let mut r: Vec<u8> = Vec::new();
    r.push(FRAME_STATUS);
    r.push(4);
    r.push(0);
    push_word_le(&mut r, s.code);
    proof {
        assert(r@ =~= spec_encode_status(s.code));
    }
    r
}

pub fn decode_status(b: &[u8]) -> (r: Result<Status, Error>)
    ensures
        (r is Ok <==> exists|code: u32| b@ == spec_encode_status(code)),
        r matches Ok(s) ==> b@ == spec_encode_status(s.code),
        r is Err ==> r == Result::<Status, Error>::Err(Error::MalformedFrame),
{
    if b.len() != 7 || b[0] != FRAME_STATUS || b[1] != 4 || b[2] != 0 {
        return Err(Error::MalformedFrame);
    }
    let code = read_word_le(b, 3);
    proof {
        lemma_le_word_bytes(b@[3], b@[4], b@[5], b@[6]);
        assert(b@ =~= spec_encode_status(code));
    }
    Ok(Status { code })
}

/// The personalization input record: the host public key, X words then Y
/// words, each word little-endian.
pub open spec fn spec_encode_perso_input(x: Seq<u32>, y: Seq<u32>) -> Seq<u8> {
    seq![FRAME_PERSO_IN, 64u8, 0u8] + spec_words_le(x) + spec_words_le(y)
}

pub fn encode_perso_input(k: &EccPublicKey) -> (r: Vec<u8>)
    ensures
        r@ == spec_encode_perso_input(k.x@, k.y@),
{
    let mut r: Vec<u8> = Vec::new();
    r.push(FRAME_PERSO_IN);
    r.push(64);
    r.push(0);
    let mut i: usize = 0;
    while i < 8
        invariant
            i <= 8,
            r@ =~= seq![FRAME_PERSO_IN, 64u8, 0u8] + spec_words_le(k.x@.take(i as int)),
        decreases 8 - i,
    {
        push_word_le(&mut r, k.x[i]);
        proof {
            lemma_words_le_push(k.x@.take(i as int), k.x@[i as int]);
            assert(k.x@.take(i as int).push(k.x@[i as int]) =~= k.x@.take(i + 1));
        }
        i = i + 1;
    }
    proof {
        assert(k.x@.take(8) =~= k.x@);
    }
    let mut j: usize = 0;
    while j < 8
        invariant
            j <= 8,
            r@ =~= seq![FRAME_PERSO_IN, 64u8, 0u8] + spec_words_le(k.x@) + spec_words_le(
                k.y@.take(j as int),
            ),
        decreases 8 - j,
    {
        push_word_le(&mut r, k.y[j]);
        proof {
            lemma_words_le_push(k.y@.take(j as int), k.y@[j as int]);
            assert(k.y@.take(j as int).push(k.y@[j as int]) =~= k.y@.take(j + 1));
        }
        j = j + 1;
    }
    proof {
        assert(k.y@.take(8) =~= k.y@);
        assert(r@ =~= spec_encode_perso_input(k.x@, k.y@));
    }
    r
}

/// Data the device exports at the end of personalization.
#[derive(Debug)]
pub struct PersonalizationOutput {
    /// The RMA unlock token, wrapped under the exchanged key: sixteen
    /// 32-bit words.
    pub wrapped_rma_unlock_token: Vec<u32>,
    /// The device identity certificate.
    pub device_cert: Vec<u8>,
}

impl PersonalizationOutput {
    pub open spec fn spec_valid(self) -> bool {
        self.wrapped_rma_unlock_token@.len() == 16 && self.device_cert@.len() <= MAX_CERT_LEN
    }
}

/// The personalization output record: the wrapped token words, then the
/// certificate bytes, under a payload length that covers both.
pub open spec fn spec_encode_perso_output(token: Seq<u32>, cert: Seq<u8>) -> Seq<u8> {
    seq![
        FRAME_PERSO_OUT,
        ((64 + cert.len()) % 256) as u8,
        ((64 + cert.len()) / 256) as u8,
    ] + spec_words_le(token) + cert
}

proof fn lemma_perso_output_frame_shape(token: Seq<u32>, cert: Seq<u8>)
    requires
        token.len() == 16,
    ensures
        spec_encode_perso_output(token, cert).len() == 67 + cert.len(),
        spec_encode_perso_output(token, cert)[0] == FRAME_PERSO_OUT,
        spec_encode_perso_output(token, cert)[1] == ((64 + cert.len()) % 256) as u8,
        spec_encode_perso_output(token, cert)[2] == ((64 + cert.len()) / 256) as u8,
{
    lemma_words_le_len(token);
}

/// Encode a personalization output record, as the device does.
pub fn encode_perso_output(o: &PersonalizationOutput) -> (r: Vec<u8>)
    requires
        o.spec_valid(),
    ensures
        r@ == spec_encode_perso_output(o.wrapped_rma_unlock_token@, o.device_cert@),
{
    let plen: usize = 64 + o.device_cert.len();
    let mut r: Vec<u8> = Vec::new();
    r.push(FRAME_PERSO_OUT);
    r.push((plen % 256) as u8);
    r.push((plen / 256) as u8);
    let ghost hdr: Seq<u8> = seq![
        FRAME_PERSO_OUT,
        ((64 + o.device_cert@.len()) % 256) as u8,
        ((64 + o.device_cert@.len()) / 256) as u8,
    ];
    let mut i: usize = 0;
    while i < 16
        invariant
            i <= 16,
            o.wrapped_rma_unlock_token@.len() == 16,
            r@ =~= hdr + spec_words_le(o.wrapped_rma_unlock_token@.take(i as int)),
        decreases 16 - i,
    {
        push_word_le(&mut r, o.wrapped_rma_unlock_token[i]);
        proof {
            lemma_words_le_push(
                o.wrapped_rma_unlock_token@.take(i as int),
                o.wrapped_rma_unlock_token@[i as int],
            );
            assert(o.wrapped_rma_unlock_token@.take(i as int).push(
                o.wrapped_rma_unlock_token@[i as int],
            ) =~= o.wrapped_rma_unlock_token@.take(i + 1));
        }
        i = i + 1;
    }
    proof {
        assert(o.wrapped_rma_unlock_token@.take(16) =~= o.wrapped_rma_unlock_token@);
    }
    let mut j: usize = 0;
    while j < o.device_cert.len()
        invariant
            j <= o.device_cert@.len(),
            r@ =~= hdr + spec_words_le(o.wrapped_rma_unlock_token@) + o.device_cert@.take(
                j as int,
            ),
        decreases o.device_cert@.len() - j,
    {
        let byte = o.device_cert[j];
        r.push(byte);
        proof {
            assert(o.device_cert@.take(j as int).push(o.device_cert@[j as int])
                =~= o.device_cert@.take(j + 1));
        }
        j = j + 1;
    }
    proof {
        assert(o.device_cert@.take(o.device_cert@.len() as int) =~= o.device_cert@);
        assert(r@ =~= spec_encode_perso_output(o.wrapped_rma_unlock_token@, o.device_cert@));
    }
    r
}

/// Decode a personalization output record. A record decodes if and only if
/// it is the exact encoding of a wrapped token and a certificate within the
/// size bound: a truncated or malformed record is an error, never a partial
/// value.
pub fn decode_perso_output(b: &[u8]) -> (r: Result<PersonalizationOutput, Error>)
    ensures
        r matches Ok(o) ==> o.spec_valid() && b@ == spec_encode_perso_output(
            o.wrapped_rma_unlock_token@,
            o.device_cert@,
        ),
        (r is Ok <==> exists|token: Seq<u32>, cert: Seq<u8>|
            token.len() == 16 && cert.len() <= MAX_CERT_LEN && b@ == spec_encode_perso_output(
                token,
                cert,
            )),
        r is Err ==> r == Result::<PersonalizationOutput, Error>::Err(Error::MalformedFrame),
{
    let well_shaped: bool = {
        if b.len() < 3 || b[0] != FRAME_PERSO_OUT {
            false
        } else {
            let plen: usize = (b[1] as usize) + 256 * (b[2] as usize);
            plen >= 64 && plen <= 64 + MAX_CERT_LEN && b.len() == 3 + plen
        }
    };
    if !well_shaped {
        proof {
            assert forall|token: Seq<u32>, cert: Seq<u8>|
                !(token.len() == 16 && cert.len() <= MAX_CERT_LEN && b@
                    == spec_encode_perso_output(token, cert)) by {
                if token.len() == 16 && cert.len() <= MAX_CERT_LEN && b@
                    == spec_encode_perso_output(token, cert) {
                    lemma_perso_output_frame_shape(token, cert);
                    vstd::arithmetic::div_mod::lemma_fundamental_div_mod(
                        64 + cert.len() as int,
                        256,
                    );
                }
            }
        }
        return Err(Error::MalformedFrame);
    }
    let mut token: Vec<u32> = Vec::new();
    let mut i: usize = 0;
    while i < 16
        invariant
            i <= 16,
            b@.len() >= 67,
            token@.len() == i,
            spec_words_le(token@) =~= b@.subrange(3, 3 + 4 * i as int),
        decreases 16 - i,
    {
        let ghost t0 = token@;
        let w = read_word_le(b, 3 + 4 * i);
        token.push(w);
        proof {
            lemma_words_le_push(t0, w);
            lemma_le_word_bytes(
                b@[3 + 4 * i as int],
                b@[4 + 4 * i as int],
                b@[5 + 4 * i as int],
                b@[6 + 4 * i as int],
            );
            assert(spec_words_le(token@) =~= spec_words_le(t0) + spec_word_le_bytes(w));
            assert(spec_words_le(token@) =~= b@.subrange(3, 3 + 4 * (i + 1)));
        }
        i = i + 1;
    }
    let mut cert: Vec<u8> = Vec::new();
    let mut j: usize = 67;
    while j < b.len()
        invariant
            67 <= j <= b@.len(),
            b@.len() >= 67,
            cert@ =~= b@.subrange(67, j as int),
        decreases b@.len() - j,
    {
        let byte = b[j];
        cert.push(byte);
        proof {
            assert(cert@.drop_last().push(byte) =~= cert@);
            assert(b@.subrange(67, j as int).push(b@[j as int]) =~= b@.subrange(67, j + 1));
        }
        j = j + 1;
    }
    proof {
        let plen = (b@[1] as int) + 256 * (b@[2] as int);
        assert(cert@.len() == plen - 64);
        assert(64 + cert@.len() == plen);
        vstd::arithmetic::div_mod::lemma_fundamental_div_mod_converse(
            plen,
            256,
            b@[2] as int,
            b@[1] as int,
        );
        assert(((64 + cert@.len()) % 256) as u8 == b@[1]);
        assert(((64 + cert@.len()) / 256) as u8 == b@[2]);
        lemma_words_le_len(token@);
        assert(b@ =~= spec_encode_perso_output(token@, cert@));
    }
    Ok(PersonalizationOutput { wrapped_rma_unlock_token: token, device_cert: cert })
}

/// No two personalization output records share an encoding: the record a
/// frame decodes to is unambiguous.
pub proof fn lemma_perso_output_encoding_injective(
    t1: Seq<u32>,
    c1: Seq<u8>,
    t2: Seq<u32>,
    c2: Seq<u8>,
)
    requires
        t1.len() == 16,
        t2.len() == 16,
        spec_encode_perso_output(t1, c1) =~= spec_encode_perso_output(t2, c2),
    ensures
        t1 =~= t2,
        c1 =~= c2,
{
    lemma_words_le_len(t1);
    lemma_words_le_len(t2);
    lemma_perso_output_frame_shape(t1, c1);
    lemma_perso_output_frame_shape(t2, c2);
    let e1 = spec_encode_perso_output(t1, c1);
    let e2 = spec_encode_perso_output(t2, c2);
    assert(c1.len() == c2.len());
    assert(spec_words_le(t1) =~= spec_words_le(t2)) by {
        assert forall|i: int| 0 <= i < 64 implies spec_words_le(t1)[i] == spec_words_le(t2)[i] by {
            assert(e1[3 + i] == spec_words_le(t1)[i]);
            assert(e2[3 + i] == spec_words_le(t2)[i]);
        }
    }
    lemma_words_le_injective(t1, t2);
    assert forall|i: int| 0 <= i < c1.len() implies c1[i] == c2[i] by {
        assert(e1[67 + i] == c1[i]);
        assert(e2[67 + i] == c2[i]);
    }
}

} // verus!
