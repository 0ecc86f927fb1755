//! Transport-level wire helpers shared by server and client: varint
//! sequence numbers and ACK/NACK control frames.
//!
//! ```text
//! [len: u16][channel: u8][payload...]
//! ```
//! Control frames use channel `CHANNEL_CTRL` (0xFF); the length counts the
//! payload after the channel byte.
use vstd::prelude::*;
use crate::bytes::{le16, from_le16, push_le16, u16_from_le, lemma_le16_roundtrip};

verus! {

/// Flag set on the channel byte to mark a reliable (sequenced) frame.
pub const CHANNEL_RELIABLE_FLAG: u8 = 0x80;
/// Channel byte of transport control frames (never a data channel).
pub const CHANNEL_CTRL: u8 = 0xFF;
/// Control subtype: cumulative acknowledgment.
pub const CTRL_ACK: u8 = 0x01;
/// Control subtype: negative acknowledgment.
pub const CTRL_NACK: u8 = 0x02;
/// Most sequence numbers one NACK frame carries.
pub const MAX_NACK: usize = 255;

/// A decoded transport control frame.
#[derive(Debug, Clone, PartialEq, Eq)]
pub enum CtrlFrame {
    /// Cumulative acknowledgment: everything up to and including the number.
    Ack(u16),
    /// Negative acknowledgment: these sequence numbers were missed.
    Nack(Vec<u16>),
}

/// Varint bytes of a sequence number: one byte `0x80 | seq` below 128,
/// otherwise a `0x00` marker and two little-endian bytes.
pub open spec fn varint_bytes(seq: u16) -> Seq<u8> {
    if seq < 128 {
        seq![(0x80 + seq) as u8]
    } else {
        seq![0u8] + le16(seq)
    }
}

/// The varint at the front of `data`: (value, bytes consumed), or `None`
/// when the data is empty, truncated, or starts with a byte that is neither
/// the marker nor a short form.
pub open spec fn varint_of(data: Seq<u8>) -> Option<(u16, nat)> {
    if data.len() == 0 {
        None
    } else if data[0] == 0 {
        if data.len() < 3 {
            None
        } else {
            Some((from_le16(data[1], data[2]), 3))
        }
    } else if data[0] >= 0x80 {
        Some(((data[0] - 0x80) as u16, 1))
    } else {
        None
    }
}

/// Encodes a sequence number.
pub fn encode_varint_seq(seq: u16) -> (r: Vec<u8>)
    ensures
        r@ == varint_bytes(seq),
{
    let mut out: Vec<u8> = Vec::new();
    if seq < 128 {
        out.push(0x80u8 + (seq as u8));
    } else {
        out.push(0u8);
        push_le16(&mut out, seq);
    }
    assert(out@ =~= varint_bytes(seq));
    out
}

/// Decodes a sequence number from the front of `data`.
pub fn decode_varint_seq(data: &[u8]) -> (r: Option<(u16, usize)>)
    ensures
        match varint_of(data@) {
            None => r is None,
            Some((v, n)) => r == Some((v, n as usize)),
        },
{
    if data.len() == 0 {
        return None;
    }
    let b = data[0];
    if b == 0 {
        if data.len() < 3 {
            return None;
        }
        Some((u16_from_le(data[1], data[2]), 3))
    } else if b >= 0x80 {
        Some(((b - 0x80) as u16, 1))
    } else {
        None
    }
}

/// A varint read back from the front of any bytes gives the number and its
/// length.
pub proof fn law_varint_roundtrip(seq: u16, rest: Seq<u8>)
    ensures
        varint_of(varint_bytes(seq) + rest) == Some((seq, varint_bytes(seq).len())),
        seq < 128 ==> varint_bytes(seq).len() == 1,
        seq >= 128 ==> varint_bytes(seq).len() == 3,
{
    let s = varint_bytes(seq) + rest;
    if seq >= 128 {
        lemma_le16_roundtrip(seq);
        assert(s[1] == le16(seq)[0] && s[2] == le16(seq)[1]);
    }
}

/// Bytes of a cumulative ACK frame: `[len][CHANNEL_CTRL][CTRL_ACK][varint]`.
pub open spec fn ack_frame_bytes(seq: u16) -> Seq<u8> {
    le16((1 + varint_bytes(seq).len()) as u16) + seq![CHANNEL_CTRL, CTRL_ACK] + varint_bytes(seq)
}

/// Concatenated varints of a list of sequence numbers.
pub open spec fn varints_bytes(seqs: Seq<u16>) -> Seq<u8>
    decreases seqs.len(),
{
    if seqs.len() == 0 {
        Seq::empty()
    } else {
        varint_bytes(seqs[0]) + varints_bytes(seqs.drop_first())
    }
}

/// The numbers a NACK carries: the first 255 of the missing list.
pub open spec fn nack_carried(missing: Seq<u16>) -> Seq<u16> {
    if missing.len() > MAX_NACK {
        missing.take(MAX_NACK as int)
    } else {
        missing
    }
}

/// Bytes of a NACK frame: `[len][CHANNEL_CTRL][CTRL_NACK][count][varints]`,
/// carrying at most 255 numbers.
pub open spec fn nack_frame_bytes(missing: Seq<u16>) -> Seq<u8> {
    let body = seq![CTRL_NACK, nack_carried(missing).len() as u8] + varints_bytes(
        nack_carried(missing),
    );
    le16((body.len() % 65536) as u16) + seq![CHANNEL_CTRL] + body
}

/// Encodes a cumulative ACK frame.
pub fn encode_ctrl_ack(ack_seq: u16) -> (r: Vec<u8>)
    ensures
        r@ == ack_frame_bytes(ack_seq),
{
    let seq = encode_varint_seq(ack_seq);
    let mut frame: Vec<u8> = Vec::new();
    push_le16(&mut frame, (1 + seq.len()) as u16);
    frame.push(CHANNEL_CTRL);
    frame.push(CTRL_ACK);
    crate::bytes::push_all(&mut frame, seq.as_slice());
    assert(frame@ =~= ack_frame_bytes(ack_seq));
    frame
}

/// Encodes a NACK frame for (at most the first 255 of) the missing numbers.
pub fn encode_ctrl_nack(missing: &[u16]) -> (r: Vec<u8>)
    ensures
        r@ == nack_frame_bytes(missing@),
{
    let count: usize = if missing.len() > MAX_NACK { MAX_NACK } else { missing.len() };
    let ghost carried = nack_carried(missing@);
    let mut body: Vec<u8> = Vec::new();
    body.push(CTRL_NACK);
    body.push(count as u8);
    let mut i: usize = 0;
    while i < count
        invariant
            count <= missing.len(),
            count == carried.len(),
            carried == nack_carried(missing@),
            i <= count,
            body@ == seq![CTRL_NACK, count as u8] + varints_bytes(carried.take(i as int)),
        decreases count - i,
    {
        let v = encode_varint_seq(missing[i]);
        crate::bytes::push_all(&mut body, v.as_slice());
        proof {
            lemma_varints_push(carried.take(i as int), carried[i as int]);
            assert(carried.take(i + 1) =~= carried.take(i as int).push(carried[i as int]));
            assert(carried[i as int] == missing@[i as int]);
        }
        i = i + 1;
    }
    assert(carried.take(count as int) =~= carried);
    let mut frame: Vec<u8> = Vec::new();
    push_le16(&mut frame, (body.len() % 65536) as u16);
    frame.push(CHANNEL_CTRL);
    crate::bytes::push_all(&mut frame, body.as_slice());
    assert(frame@ =~= nack_frame_bytes(missing@));
    frame
}

/// Appending one number's varint extends the concatenation.
pub proof fn lemma_varints_push(seqs: Seq<u16>, x: u16)
    ensures
        varints_bytes(seqs.push(x)) == varints_bytes(seqs) + varint_bytes(x),
    decreases seqs.len(),
{
    if seqs.len() == 0 {
        assert(seqs.push(x).drop_first() =~= Seq::<u16>::empty());
        assert(varints_bytes(seqs.push(x).drop_first()) =~= Seq::<u8>::empty());
        assert(seqs.push(x)[0] == x);
        assert(varints_bytes(seqs.push(x)) =~= varint_bytes(x) + Seq::<u8>::empty());
    } else {
        assert(seqs.push(x).drop_first() =~= seqs.drop_first().push(x));
        lemma_varints_push(seqs.drop_first(), x);
        assert(varints_bytes(seqs.push(x)) =~= varint_bytes(seqs[0]) + (varints_bytes(
            seqs.drop_first(),
        ) + varint_bytes(x)));
    }
}

/// The numbers of `count` varints read one after another, or `None` when
/// one of them does not decode.
pub open spec fn varints_of(data: Seq<u8>, count: nat) -> Option<Seq<u16>>
    decreases count,
{
    if count == 0 {
        Some(Seq::empty())
    } else {
        match varint_of(data) {
            None => None,
            Some((v, n)) => match varints_of(data.skip(n as int), (count - 1) as nat) {
                None => None,
                Some(rest) => Some(seq![v] + rest),
            },
        }
    }
}

/// The control frame a control payload (the bytes after the channel byte)
/// holds: an ACK with its varint, a NACK with its count of varints; `None`
/// for an empty payload, an unknown subtype or a truncated body.
pub open spec fn ctrl_frame_of(payload: Seq<u8>) -> Option<CtrlFrameView> {
    if payload.len() == 0 {
        None
    } else if payload[0] == CTRL_ACK {
        match varint_of(payload.skip(1)) {
            None => None,
            Some((v, _)) => Some(CtrlFrameView::Ack(v)),
        }
    } else if payload[0] == CTRL_NACK {
        if payload.len() < 2 {
            None
        } else {
            match varints_of(payload.skip(2), payload[1] as nat) {
                None => None,
                Some(s) => Some(CtrlFrameView::Nack(s)),
            }
        }
    } else {
        None
    }
}

/// A control frame with its NACK list as a sequence.
pub enum CtrlFrameView {
    Ack(u16),
    Nack(Seq<u16>),
}

impl CtrlFrame {
    /// The frame with its NACK list as a sequence.
    pub open spec fn view_ctrl(self) -> CtrlFrameView {
        match self {
            CtrlFrame::Ack(s) => CtrlFrameView::Ack(s),
            CtrlFrame::Nack(v) => CtrlFrameView::Nack(v@),
        }
    }
}

/// Decodes a control frame from its payload (bytes after the channel byte).
pub fn decode_ctrl_frame(payload: &[u8]) -> (r: Option<CtrlFrame>)
    ensures
        match ctrl_frame_of(payload@) {
            None => r is None,
            Some(f) => r matches Some(g) && g.view_ctrl() == f,
        },
{
    if payload.len() == 0 {
        return None;
    }
    if payload[0] == CTRL_ACK {
        let rest = vstd::slice::slice_subrange(payload, 1, payload.len());
        assert(rest@ =~= payload@.skip(1));
        match decode_varint_seq(rest) {
            Some((seq, _)) => Some(CtrlFrame::Ack(seq)),
            None => None,
        }
    } else if payload[0] == CTRL_NACK {
        if payload.len() < 2 {
            return None;
        }
        let count = payload[1] as usize;
        let mut seqs: Vec<u16> = Vec::new();
        let mut offset: usize = 2;
        let mut k: usize = 0;
        while k < count
            invariant
                2 <= offset <= payload.len(),
                k <= count,
                count == payload@[1] as nat,
                payload.len() >= 2,
                payload@[0] == CTRL_NACK,
                varints_of(payload@.skip(2), count as nat) matches Some(all) ==> (
                    varints_of(payload@.skip(offset as int), (count - k) as nat) matches Some(
                        rest,
                    ) && all == seqs@ + rest),
                varints_of(payload@.skip(2), count as nat) is None ==> varints_of(
                    payload@.skip(offset as int),
                    (count - k) as nat,
                ) is None,
            decreases count - k,
        {
            let rest = vstd::slice::slice_subrange(payload, offset, payload.len());
            assert(rest@ =~= payload@.skip(offset as int));
            match decode_varint_seq(rest) {
                Some((seq, consumed)) => {
                    proof {
                        assert(payload@.skip(offset as int).skip(consumed as int) =~= payload@.skip(
                            offset + consumed,
                        ));
                        if let Some(all) = varints_of(payload@.skip(2), count as nat) {
                            let r0 = varints_of(payload@.skip(offset as int), (count - k) as nat).unwrap();
                            let r1 = varints_of(payload@.skip(offset + consumed), (count - k - 1) as nat).unwrap();
                            assert(r0 == seq![seq] + r1);
                            assert(all == seqs@.push(seq) + r1);
                        }
                    }
                    seqs.push(seq);
                    offset = offset + consumed;
                },
                None => {
                    return None;
                },
            }
            k = k + 1;
        }
        proof {
            if let Some(all) = varints_of(payload@.skip(2), count as nat) {
                assert(seqs@ + Seq::<u16>::empty() =~= seqs@);
            }
        }
        Some(CtrlFrame::Nack(seqs))
    } else {
        None
    }
}

/// Varints written one after another read back as the same numbers.
pub proof fn lemma_varints_roundtrip(seqs: Seq<u16>, rest: Seq<u8>)
    ensures
        varints_of(varints_bytes(seqs) + rest, seqs.len()) == Some(seqs),
    decreases seqs.len(),
{
    if seqs.len() == 0 {
        assert(varints_of(varints_bytes(seqs) + rest, 0) == Some(Seq::<u16>::empty()));
        assert(seqs =~= Seq::<u16>::empty());
    } else {
        let tail = seqs.drop_first();
        let d = varints_bytes(seqs) + rest;
        assert(d =~= varint_bytes(seqs[0]) + (varints_bytes(tail) + rest));
        law_varint_roundtrip(seqs[0], varints_bytes(tail) + rest);
        let n = varint_bytes(seqs[0]).len();
        assert(d.skip(n as int) =~= varints_bytes(tail) + rest);
        lemma_varints_roundtrip(tail, rest);
        assert(seq![seqs[0]] + tail =~= seqs);
    }
}

/// An ACK frame's length field counts the bytes after the channel byte, and
/// its payload decodes to the acknowledged number.
pub proof fn law_ack_roundtrip(seq: u16)
    ensures
        from_le16(ack_frame_bytes(seq)[0], ack_frame_bytes(seq)[1]) == ack_frame_bytes(seq).len()
            - 3,
        ack_frame_bytes(seq)[2] == CHANNEL_CTRL,
        ctrl_frame_of(ack_frame_bytes(seq).skip(3)) == Some(CtrlFrameView::Ack(seq)),
{
    let f = ack_frame_bytes(seq);
    let v = varint_bytes(seq);
    law_varint_roundtrip(seq, Seq::empty());
    lemma_le16_roundtrip((1 + v.len()) as u16);
    assert(f.skip(3) =~= seq![CTRL_ACK] + v);
    assert(f.skip(3).skip(1) =~= v + Seq::<u8>::empty());
}

/// A NACK frame carries the first 255 missing numbers (all of them when
/// there are fewer), and its payload decodes to exactly those.
pub proof fn law_nack_roundtrip(missing: Seq<u16>)
    ensures
        nack_carried(missing).len() <= MAX_NACK,
        missing.len() <= MAX_NACK ==> nack_carried(missing) == missing,
        nack_frame_bytes(missing)[2] == CHANNEL_CTRL,
        ctrl_frame_of(nack_frame_bytes(missing).skip(3)) == Some(
            CtrlFrameView::Nack(nack_carried(missing)),
        ),
{
    let c = nack_carried(missing);
    let f = nack_frame_bytes(missing);
    let body = seq![CTRL_NACK, c.len() as u8] + varints_bytes(c);
    assert(f.skip(3) =~= body);
    assert(body.skip(2) =~= varints_bytes(c) + Seq::<u8>::empty());
    lemma_varints_roundtrip(c, Seq::empty());
}

/// Sequence-number layout: a number below 128 is the single byte
/// `0x80 + n`; a larger one is a zero marker followed by its two bytes, low
/// byte first.
pub proof fn law_varint_layout(seq: u16)
    ensures
        seq < 128 ==> varint_bytes(seq) == seq![(0x80 + seq) as u8],
        seq >= 128 ==> {
            &&& varint_bytes(seq).len() == 3
            &&& varint_bytes(seq)[0] == 0
            &&& varint_bytes(seq)[1] + 256 * varint_bytes(seq)[2] == seq
        },
{
}

} // verus!
