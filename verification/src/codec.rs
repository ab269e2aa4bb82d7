//! Fixed-width, big-endian encoding and decoding of the four header shapes.
//!
//! `encode_*` produces exactly the fixed size of each header kind.
//! `decode_*` fails with a `CodecError` when the buffer is shorter than
//! the required size or when an enumerated field carries a value with no
//! defined meaning; it never guesses a default and never reads out of
//! bounds. Round-trip lemmas state that decoding an encoding gives the
//! header back, for every field value.

use vstd::prelude::*;

use crate::error::{CodecError, CqcError};
use crate::hdr::{
    ctrl_type_byte, ctrl_type_from_u8, ctrl_type_of_byte, instr_byte, instr_from_u8,
    instr_of_byte, lemma_ctrl_type_byte_inverse, lemma_instr_byte_inverse, CmdHeader, CmdOpt,
    CqcHeader, NotifyHeader, XtraCmdHeader, CQC_CMD_HDR_LENGTH, CQC_CMD_XTRA_LENGTH,
    CQC_HDR_LENGTH, CQC_NOTIFY_LENGTH,
};

verus! {

// ---------------------------------------------------------------------------
// Big-endian primitives.
// ---------------------------------------------------------------------------

/// The value whose big-endian bytes are `b0 b1`.
pub open spec fn parse_u16(b0: u8, b1: u8) -> u16 {
    ((b0 as u16) << 8) | (b1 as u16)
}

/// The value whose big-endian bytes are `b0 b1 b2 b3`.
pub open spec fn parse_u32(b0: u8, b1: u8, b2: u8, b3: u8) -> u32 {
    ((b0 as u32) << 24) | ((b1 as u32) << 16) | ((b2 as u32) << 8) | (b3 as u32)
}

/// The value whose big-endian bytes are `b0` through `b7`.
pub open spec fn parse_u64(b0: u8, b1: u8, b2: u8, b3: u8, b4: u8, b5: u8, b6: u8, b7: u8) -> u64 {
    ((b0 as u64) << 56) | ((b1 as u64) << 48) | ((b2 as u64) << 40) | ((b3 as u64) << 32)
        | ((b4 as u64) << 24) | ((b5 as u64) << 16) | ((b6 as u64) << 8) | (b7 as u64)
}

/// The big-endian bytes of `x`, most significant first.
pub open spec fn u16_be(x: u16) -> Seq<u8> {
    seq![(x >> 8) as u8, x as u8]
}

/// The big-endian bytes of `x`, most significant first.
pub open spec fn u32_be(x: u32) -> Seq<u8> {
    seq![(x >> 24) as u8, (x >> 16) as u8, (x >> 8) as u8, x as u8]
}

/// The big-endian bytes of `x`, most significant first.
pub open spec fn u64_be(x: u64) -> Seq<u8> {
    seq![
        (x >> 56) as u8,
        (x >> 48) as u8,
        (x >> 40) as u8,
        (x >> 32) as u8,
        (x >> 24) as u8,
        (x >> 16) as u8,
        (x >> 8) as u8,
        x as u8,
    ]
}

/// Parsing the big-endian bytes of a 16-bit value gives the value back.
pub proof fn lemma_u16_be_round_trip(x: u16)
    ensures
        parse_u16((x >> 8) as u8, x as u8) == x,
{
    assert(((((x >> 8) as u8) as u16) << 8) | ((x as u8) as u16) == x) by (bit_vector);
}

/// Parsing the big-endian bytes of a 32-bit value gives the value back.
pub proof fn lemma_u32_be_round_trip(x: u32)
    ensures
        parse_u32((x >> 24) as u8, (x >> 16) as u8, (x >> 8) as u8, x as u8) == x,
{
    assert(((((x >> 24) as u8) as u32) << 24) | ((((x >> 16) as u8) as u32) << 16)
        | ((((x >> 8) as u8) as u32) << 8) | ((x as u8) as u32) == x) by (bit_vector);
}

/// Parsing the big-endian bytes of a 64-bit value gives the value back.
pub proof fn lemma_u64_be_round_trip(x: u64)
    ensures
        parse_u64(
            (x >> 56) as u8,
            (x >> 48) as u8,
            (x >> 40) as u8,
            (x >> 32) as u8,
            (x >> 24) as u8,
            (x >> 16) as u8,
            (x >> 8) as u8,
            x as u8,
        ) == x,
{
    assert(((((x >> 56) as u8) as u64) << 56) | ((((x >> 48) as u8) as u64) << 48)
        | ((((x >> 40) as u8) as u64) << 40) | ((((x >> 32) as u8) as u64) << 32)
        | ((((x >> 24) as u8) as u64) << 24) | ((((x >> 16) as u8) as u64) << 16)
        | ((((x >> 8) as u8) as u64) << 8) | ((x as u8) as u64) == x) by (bit_vector);
}

fn push_u16_be(out: &mut Vec<u8>, x: u16)
    ensures
        final(out)@ == old(out)@ + u16_be(x),
{
    out.push((x >> 8) as u8);
    out.push(x as u8);
    proof {
        assert(out@ =~= old(out)@ + u16_be(x));
    }
}

fn push_u32_be(out: &mut Vec<u8>, x: u32)
    ensures
        final(out)@ == old(out)@ + u32_be(x),
{
    out.push((x >> 24) as u8);
    out.push((x >> 16) as u8);
    out.push((x >> 8) as u8);
    out.push(x as u8);
    proof {
        assert(out@ =~= old(out)@ + u32_be(x));
    }
}

fn push_u64_be(out: &mut Vec<u8>, x: u64)
    ensures
        final(out)@ == old(out)@ + u64_be(x),
{
    out.push((x >> 56) as u8);
    out.push((x >> 48) as u8);
    out.push((x >> 40) as u8);
    out.push((x >> 32) as u8);
    out.push((x >> 24) as u8);
    out.push((x >> 16) as u8);
    out.push((x >> 8) as u8);
    out.push(x as u8);
    proof {
        assert(out@ =~= old(out)@ + u64_be(x));
    }
}

pub fn read_u16_at(buf: &Vec<u8>, i: usize) -> (r: u16)
    requires
        i + 2 <= buf@.len(),
    ensures
        r == parse_u16(buf@[i as int], buf@[i as int + 1]),
{
    let n: usize = buf.len();
    assert(i + 2 <= n);
    ((buf[i] as u16) << 8) | (buf[i + 1] as u16)
}

pub fn read_u32_at(buf: &Vec<u8>, i: usize) -> (r: u32)
    requires
        i + 4 <= buf@.len(),
    ensures
        r == parse_u32(buf@[i as int], buf@[i as int + 1], buf@[i as int + 2], buf@[i as int + 3]),
{
    let n: usize = buf.len();
    assert(i + 4 <= n);
    ((buf[i] as u32) << 24) | ((buf[i + 1] as u32) << 16) | ((buf[i + 2] as u32) << 8)
        | (buf[i + 3] as u32)
}

pub fn read_u64_at(buf: &Vec<u8>, i: usize) -> (r: u64)
    requires
        i + 8 <= buf@.len(),
    ensures
        r == parse_u64(
            buf@[i as int],
            buf@[i as int + 1],
            buf@[i as int + 2],
            buf@[i as int + 3],
            buf@[i as int + 4],
            buf@[i as int + 5],
            buf@[i as int + 6],
            buf@[i as int + 7],
        ),
{
    let n: usize = buf.len();
    assert(i + 8 <= n);
    ((buf[i] as u64) << 56) | ((buf[i + 1] as u64) << 48) | ((buf[i + 2] as u64) << 40)
        | ((buf[i + 3] as u64) << 32) | ((buf[i + 4] as u64) << 24) | ((buf[i + 5] as u64) << 16)
        | ((buf[i + 6] as u64) << 8) | (buf[i + 7] as u64)
}

// ---------------------------------------------------------------------------
// Serialized forms.
// ---------------------------------------------------------------------------

/// The exactly 8 serialized bytes of a control header.
pub open spec fn cqc_header_bytes(h: CqcHeader) -> Seq<u8> {
    seq![
        h.version,
        ctrl_type_byte(h.ctrl_type),
        (h.app_id >> 8) as u8,
        h.app_id as u8,
        (h.length >> 24) as u8,
        (h.length >> 16) as u8,
        (h.length >> 8) as u8,
        h.length as u8,
    ]
}

/// The exactly 4 serialized bytes of a command header.
pub open spec fn cmd_header_bytes(c: CmdHeader) -> Seq<u8> {
    seq![(c.qubit_id >> 8) as u8, c.qubit_id as u8, instr_byte(c.instr), c.options.bits]
}

/// The exactly 16 serialized bytes of an extended command header.
pub open spec fn xtra_header_bytes(x: XtraCmdHeader) -> Seq<u8> {
    seq![
        (x.xtra_qubit_id >> 8) as u8,
        x.xtra_qubit_id as u8,
        (x.r_app_id >> 8) as u8,
        x.r_app_id as u8,
        (x.r_node >> 24) as u8,
        (x.r_node >> 16) as u8,
        (x.r_node >> 8) as u8,
        x.r_node as u8,
        (x.cmd_length >> 24) as u8,
        (x.cmd_length >> 16) as u8,
        (x.cmd_length >> 8) as u8,
        x.cmd_length as u8,
        (x.r_port >> 8) as u8,
        x.r_port as u8,
        x.steps,
        x.unused,
    ]
}

/// The exactly 20 serialized bytes of a notify header.
pub open spec fn notify_header_bytes(n: NotifyHeader) -> Seq<u8> {
    seq![
        (n.qubit_id >> 8) as u8,
        n.qubit_id as u8,
        (n.r_app_id >> 8) as u8,
        n.r_app_id as u8,
        (n.r_node >> 24) as u8,
        (n.r_node >> 16) as u8,
        (n.r_node >> 8) as u8,
        n.r_node as u8,
        (n.datetime >> 56) as u8,
        (n.datetime >> 48) as u8,
        (n.datetime >> 40) as u8,
        (n.datetime >> 32) as u8,
        (n.datetime >> 24) as u8,
        (n.datetime >> 16) as u8,
        (n.datetime >> 8) as u8,
        n.datetime as u8,
        (n.r_port >> 8) as u8,
        n.r_port as u8,
        n.outcome,
        n.unused,
    ]
}

// ---------------------------------------------------------------------------
// Parsed forms, at an offset into a byte sequence.
// ---------------------------------------------------------------------------

/// The control header whose 8 serialized bytes stand at offset `i` of `s`,
/// or `None` when the control-type byte has no defined meaning.
pub open spec fn parse_cqc_header_at(s: Seq<u8>, i: int) -> Option<CqcHeader>
    recommends
        0 <= i,
        i + 8 <= s.len(),
{
    match ctrl_type_of_byte(s[i + 1]) {
        None => None,
        Some(t) => Some(
            CqcHeader {
                version: s[i],
                ctrl_type: t,
                app_id: parse_u16(s[i + 2], s[i + 3]),
                length: parse_u32(s[i + 4], s[i + 5], s[i + 6], s[i + 7]),
            },
        ),
    }
}

/// The command header whose 4 serialized bytes stand at offset `i` of `s`,
/// or `None` when the instruction byte has no defined meaning.
pub open spec fn parse_cmd_header_at(s: Seq<u8>, i: int) -> Option<CmdHeader>
    recommends
        0 <= i,
        i + 4 <= s.len(),
{
    match instr_of_byte(s[i + 2]) {
        None => None,
        Some(ins) => Some(
            CmdHeader {
                qubit_id: parse_u16(s[i], s[i + 1]),
                instr: ins,
                options: CmdOpt { bits: s[i + 3] },
            },
        ),
    }
}

/// The extended command header whose 16 serialized bytes stand at offset
/// `i` of `s`.
pub open spec fn parse_xtra_header_at(s: Seq<u8>, i: int) -> XtraCmdHeader
    recommends
        0 <= i,
        i + 16 <= s.len(),
{
    XtraCmdHeader {
        xtra_qubit_id: parse_u16(s[i], s[i + 1]),
        r_app_id: parse_u16(s[i + 2], s[i + 3]),
        r_node: parse_u32(s[i + 4], s[i + 5], s[i + 6], s[i + 7]),
        cmd_length: parse_u32(s[i + 8], s[i + 9], s[i + 10], s[i + 11]),
        r_port: parse_u16(s[i + 12], s[i + 13]),
        steps: s[i + 14],
        unused: s[i + 15],
    }
}

/// The notify header whose 20 serialized bytes stand at offset `i` of `s`.
pub open spec fn parse_notify_header_at(s: Seq<u8>, i: int) -> NotifyHeader
    recommends
        0 <= i,
        i + 20 <= s.len(),
{
    NotifyHeader {
        qubit_id: parse_u16(s[i], s[i + 1]),
        r_app_id: parse_u16(s[i + 2], s[i + 3]),
        r_node: parse_u32(s[i + 4], s[i + 5], s[i + 6], s[i + 7]),
        datetime: parse_u64(
            s[i + 8],
            s[i + 9],
            s[i + 10],
            s[i + 11],
            s[i + 12],
            s[i + 13],
            s[i + 14],
            s[i + 15],
        ),
        r_port: parse_u16(s[i + 16], s[i + 17]),
        outcome: s[i + 18],
        unused: s[i + 19],
    }
}

// ---------------------------------------------------------------------------
// Encoders.
// ---------------------------------------------------------------------------

/// Encode a control header as its exactly 8 big-endian bytes.
pub fn encode_cqc_header(h: &CqcHeader) -> (r: Vec<u8>)
    ensures
        r@ == cqc_header_bytes(*h),
        r@.len() == CQC_HDR_LENGTH,
{
    let mut out: Vec<u8> = Vec::new();
    out.push(h.version);
    out.push(crate::hdr::ctrl_type_to_u8(h.ctrl_type));
    push_u16_be(&mut out, h.app_id);
    push_u32_be(&mut out, h.length);
    proof {
        assert(out@ =~= cqc_header_bytes(*h));
    }
    out
}

/// Encode a command header as its exactly 4 bytes.
pub fn encode_cmd_header(c: &CmdHeader) -> (r: Vec<u8>)
    ensures
        r@ == cmd_header_bytes(*c),
        r@.len() == CQC_CMD_HDR_LENGTH,
{
    let mut out: Vec<u8> = Vec::new();
    push_u16_be(&mut out, c.qubit_id);
    out.push(crate::hdr::instr_to_u8(c.instr));
    out.push(c.options.bits);
    proof {
        assert(out@ =~= cmd_header_bytes(*c));
    }
    out
}

/// Encode an extended command header as its exactly 16 big-endian bytes.
pub fn encode_xtra_header(x: &XtraCmdHeader) -> (r: Vec<u8>)
    ensures
        r@ == xtra_header_bytes(*x),
        r@.len() == CQC_CMD_XTRA_LENGTH,
{
    let mut out: Vec<u8> = Vec::new();
    push_u16_be(&mut out, x.xtra_qubit_id);
    push_u16_be(&mut out, x.r_app_id);
    push_u32_be(&mut out, x.r_node);
    push_u32_be(&mut out, x.cmd_length);
    push_u16_be(&mut out, x.r_port);
    out.push(x.steps);
    out.push(x.unused);
    proof {
        assert(out@ =~= xtra_header_bytes(*x));
    }
    out
}

/// Encode a notify header as its exactly 20 big-endian bytes.
pub fn encode_notify_header(n: &NotifyHeader) -> (r: Vec<u8>)
    ensures
        r@ == notify_header_bytes(*n),
        r@.len() == CQC_NOTIFY_LENGTH,
{
    let mut out: Vec<u8> = Vec::new();
    push_u16_be(&mut out, n.qubit_id);
    push_u16_be(&mut out, n.r_app_id);
    push_u32_be(&mut out, n.r_node);
    push_u64_be(&mut out, n.datetime);
    push_u16_be(&mut out, n.r_port);
    out.push(n.outcome);
    out.push(n.unused);
    proof {
        assert(out@ =~= notify_header_bytes(*n));
    }
    out
}

// ---------------------------------------------------------------------------
// Decoders.
// ---------------------------------------------------------------------------

/// Decode a control header from the first 8 bytes of `buf`.
pub fn decode_cqc_header(buf: &Vec<u8>) -> (r: Result<CqcHeader, CqcError>)
    ensures
        buf@.len() < 8 ==> r == Err::<CqcHeader, CqcError>(CqcError::Codec(CodecError::Undersized)),
        buf@.len() >= 8 && ctrl_type_of_byte(buf@[1]) is None ==> r == Err::<CqcHeader, CqcError>(
            CqcError::Codec(CodecError::UnknownCtrlType(buf@[1])),
        ),
        buf@.len() >= 8 && ctrl_type_of_byte(buf@[1]) is Some ==> r == Ok::<CqcHeader, CqcError>(
            parse_cqc_header_at(buf@, 0)->Some_0,
        ),
{
    if buf.len() < CQC_HDR_LENGTH {
        return Err(CqcError::Codec(CodecError::Undersized));
    }
    let t = match ctrl_type_from_u8(buf[1]) {
        Some(t) => t,
        None => {
            return Err(CqcError::Codec(CodecError::UnknownCtrlType(buf[1])));
        },
    };
    Ok(
        CqcHeader {
            version: buf[0],
            ctrl_type: t,
            app_id: read_u16_at(buf, 2),
            length: read_u32_at(buf, 4),
        },
    )
}

/// Decode a command header from the first 4 bytes of `buf`.
pub fn decode_cmd_header(buf: &Vec<u8>) -> (r: Result<CmdHeader, CqcError>)
    ensures
        buf@.len() < 4 ==> r == Err::<CmdHeader, CqcError>(CqcError::Codec(CodecError::Undersized)),
        buf@.len() >= 4 && instr_of_byte(buf@[2]) is None ==> r == Err::<CmdHeader, CqcError>(
            CqcError::Codec(CodecError::UnknownInstr(buf@[2])),
        ),
        buf@.len() >= 4 && instr_of_byte(buf@[2]) is Some ==> r == Ok::<CmdHeader, CqcError>(
            parse_cmd_header_at(buf@, 0)->Some_0,
        ),
{
    if buf.len() < CQC_CMD_HDR_LENGTH {
        return Err(CqcError::Codec(CodecError::Undersized));
    }
    let ins = match instr_from_u8(buf[2]) {
        Some(ins) => ins,
        None => {
            return Err(CqcError::Codec(CodecError::UnknownInstr(buf[2])));
        },
    };
    Ok(
        CmdHeader {
            qubit_id: read_u16_at(buf, 0),
            instr: ins,
            options: CmdOpt { bits: buf[3] },
        },
    )
}

/// Decode an extended command header from the first 16 bytes of `buf`.
pub fn decode_xtra_header(buf: &Vec<u8>) -> (r: Result<XtraCmdHeader, CqcError>)
    ensures
        buf@.len() < 16 ==> r == Err::<XtraCmdHeader, CqcError>(
            CqcError::Codec(CodecError::Undersized),
        ),
        buf@.len() >= 16 ==> r == Ok::<XtraCmdHeader, CqcError>(parse_xtra_header_at(buf@, 0)),
{
    if buf.len() < CQC_CMD_XTRA_LENGTH {
        return Err(CqcError::Codec(CodecError::Undersized));
    }
    Ok(decode_xtra_header_at(buf, 0))
}

/// Decode a notify header from the first 20 bytes of `buf`.
pub fn decode_notify_header(buf: &Vec<u8>) -> (r: Result<NotifyHeader, CqcError>)
    ensures
        buf@.len() < 20 ==> r == Err::<NotifyHeader, CqcError>(
            CqcError::Codec(CodecError::Undersized),
        ),
        buf@.len() >= 20 ==> r == Ok::<NotifyHeader, CqcError>(parse_notify_header_at(buf@, 0)),
{
    if buf.len() < CQC_NOTIFY_LENGTH {
        return Err(CqcError::Codec(CodecError::Undersized));
    }
    Ok(decode_notify_header_at(buf, 0))
}

/// Decode the extended command header standing at offset `i` of `buf`.
pub fn decode_xtra_header_at(buf: &Vec<u8>, i: usize) -> (r: XtraCmdHeader)
    requires
        i + 16 <= buf@.len(),
    ensures
        r == parse_xtra_header_at(buf@, i as int),
{
    let n: usize = buf.len();
    assert(i + 16 <= n);
    XtraCmdHeader {
        xtra_qubit_id: read_u16_at(buf, i),
        r_app_id: read_u16_at(buf, i + 2),
        r_node: read_u32_at(buf, i + 4),
        cmd_length: read_u32_at(buf, i + 8),
        r_port: read_u16_at(buf, i + 12),
        steps: buf[i + 14],
        unused: buf[i + 15],
    }
}

/// Decode the notify header standing at offset `i` of `buf`.
pub fn decode_notify_header_at(buf: &Vec<u8>, i: usize) -> (r: NotifyHeader)
    requires
        i + 20 <= buf@.len(),
    ensures
        r == parse_notify_header_at(buf@, i as int),
{
    let n: usize = buf.len();
    assert(i + 20 <= n);
    NotifyHeader {
        qubit_id: read_u16_at(buf, i),
        r_app_id: read_u16_at(buf, i + 2),
        r_node: read_u32_at(buf, i + 4),
        datetime: read_u64_at(buf, i + 8),
        r_port: read_u16_at(buf, i + 16),
        outcome: buf[i + 18],
        unused: buf[i + 19],
    }
}

// ---------------------------------------------------------------------------
// Round trips: decoding an encoding gives the header back, for every
// field value.
// ---------------------------------------------------------------------------

/// Parsing the serialized bytes of a control header gives the header back.
pub proof fn lemma_cqc_header_round_trip(h: CqcHeader)
    ensures
        cqc_header_bytes(h).len() == 8,
        parse_cqc_header_at(cqc_header_bytes(h), 0) == Some(h),
{
    let s = cqc_header_bytes(h);
    lemma_ctrl_type_byte_inverse(h.ctrl_type);
    lemma_u16_be_round_trip(h.app_id);
    lemma_u32_be_round_trip(h.length);
}

/// Parsing the serialized bytes of a command header gives the header back.
pub proof fn lemma_cmd_header_round_trip(c: CmdHeader)
    ensures
        cmd_header_bytes(c).len() == 4,
        parse_cmd_header_at(cmd_header_bytes(c), 0) == Some(c),
{
    let s = cmd_header_bytes(c);
    lemma_instr_byte_inverse(c.instr);
    lemma_u16_be_round_trip(c.qubit_id);
}

/// Parsing the serialized bytes of an extended command header gives the
/// header back.
pub proof fn lemma_xtra_header_round_trip(x: XtraCmdHeader)
    ensures
        xtra_header_bytes(x).len() == 16,
        parse_xtra_header_at(xtra_header_bytes(x), 0) == x,
{
    lemma_u16_be_round_trip(x.xtra_qubit_id);
    lemma_u16_be_round_trip(x.r_app_id);
    lemma_u32_be_round_trip(x.r_node);
    lemma_u32_be_round_trip(x.cmd_length);
    lemma_u16_be_round_trip(x.r_port);
}

/// Parsing the serialized bytes of a notify header gives the header back.
pub proof fn lemma_notify_header_round_trip(n: NotifyHeader)
    ensures
        notify_header_bytes(n).len() == 20,
        parse_notify_header_at(notify_header_bytes(n), 0) == n,
{
    lemma_u16_be_round_trip(n.qubit_id);
    lemma_u16_be_round_trip(n.r_app_id);
    lemma_u32_be_round_trip(n.r_node);
    lemma_u64_be_round_trip(n.datetime);
    lemma_u16_be_round_trip(n.r_port);
}

} // verus!
