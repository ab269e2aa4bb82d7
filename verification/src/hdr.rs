//! Wire header shapes, control and instruction codes, and option flags.
//!
//! Every multi-byte integer on the wire is big-endian. The four header
//! shapes and their serialized sizes are:
//! `CqcHeader` 8 bytes, `CmdHeader` 4 bytes, `XtraCmdHeader` 16 bytes,
//! `NotifyHeader` 20 bytes.

use vstd::prelude::*;

verus! {

/// Protocol version spoken by this client.
pub const CQC_VERSION: u8 = 0;

/// Serialized size of a `CqcHeader` in bytes.
pub const CQC_HDR_LENGTH: usize = 8;
/// Serialized size of a `CmdHeader` in bytes.
pub const CQC_CMD_HDR_LENGTH: usize = 4;
/// Serialized size of an `XtraCmdHeader` in bytes.
pub const CQC_CMD_XTRA_LENGTH: usize = 16;
/// Serialized size of a `NotifyHeader` in bytes.
pub const CQC_NOTIFY_LENGTH: usize = 20;

/// Packet control type: the kind of a message, carried in the second byte
/// of every `CqcHeader`. Codes 0 through 10 are success kinds; codes 20
/// through 23 are server-signalled error kinds.
#[derive(Clone, Copy, Debug, PartialEq, Eq, Structural)]
pub enum CtrlType {
    /// 0: alive check.
    Hello,
    /// 1: execute a command list.
    Command,
    /// 2: start executing a command list repeatedly.
    Factory,
    /// 3: qubit has expired.
    Expire,
    /// 4: command execution done.
    Done,
    /// 5: received qubit.
    Recv,
    /// 6: created EPR pair.
    EprOk,
    /// 7: measurement outcome.
    Measout,
    /// 8: get creation time of qubit.
    GetTime,
    /// 9: inform about time.
    InfTime,
    /// 10: created new qubit.
    NewOk,
    /// 20: general purpose error, no details.
    ErrGeneral,
    /// 21: no more qubits available.
    ErrNoQubit,
    /// 22: command sequence not supported.
    ErrUnsupp,
    /// 23: timeout.
    ErrTimeout,
}

/// The wire code of a control type.
pub open spec fn ctrl_type_byte(t: CtrlType) -> u8 {
    match t {
        CtrlType::Hello => 0,
        CtrlType::Command => 1,
        CtrlType::Factory => 2,
        CtrlType::Expire => 3,
        CtrlType::Done => 4,
        CtrlType::Recv => 5,
        CtrlType::EprOk => 6,
        CtrlType::Measout => 7,
        CtrlType::GetTime => 8,
        CtrlType::InfTime => 9,
        CtrlType::NewOk => 10,
        CtrlType::ErrGeneral => 20,
        CtrlType::ErrNoQubit => 21,
        CtrlType::ErrUnsupp => 22,
        CtrlType::ErrTimeout => 23,
    }
}

/// The control type a wire code stands for; `None` when the code has no
/// defined meaning. Decoding never substitutes a default for an unknown
/// code.
pub open spec fn ctrl_type_of_byte(b: u8) -> Option<CtrlType> {
    if b == 0 { Some(CtrlType::Hello) }
    else if b == 1 { Some(CtrlType::Command) }
    else if b == 2 { Some(CtrlType::Factory) }
    else if b == 3 { Some(CtrlType::Expire) }
    else if b == 4 { Some(CtrlType::Done) }
    else if b == 5 { Some(CtrlType::Recv) }
    else if b == 6 { Some(CtrlType::EprOk) }
    else if b == 7 { Some(CtrlType::Measout) }
    else if b == 8 { Some(CtrlType::GetTime) }
    else if b == 9 { Some(CtrlType::InfTime) }
    else if b == 10 { Some(CtrlType::NewOk) }
    else if b == 20 { Some(CtrlType::ErrGeneral) }
    else if b == 21 { Some(CtrlType::ErrNoQubit) }
    else if b == 22 { Some(CtrlType::ErrUnsupp) }
    else if b == 23 { Some(CtrlType::ErrTimeout) }
    else { None }
}

/// Whether a control type is one of the four server-signalled error kinds.
pub open spec fn is_err_ctrl_type(t: CtrlType) -> bool {
    t is ErrGeneral || t is ErrNoQubit || t is ErrUnsupp || t is ErrTimeout
}

pub fn ctrl_type_to_u8(t: CtrlType) -> (r: u8)
    ensures
        r == ctrl_type_byte(t),
{
    match t {
        CtrlType::Hello => 0,
        CtrlType::Command => 1,
        CtrlType::Factory => 2,
        CtrlType::Expire => 3,
        CtrlType::Done => 4,
        CtrlType::Recv => 5,
        CtrlType::EprOk => 6,
        CtrlType::Measout => 7,
        CtrlType::GetTime => 8,
        CtrlType::InfTime => 9,
        CtrlType::NewOk => 10,
        CtrlType::ErrGeneral => 20,
        CtrlType::ErrNoQubit => 21,
        CtrlType::ErrUnsupp => 22,
        CtrlType::ErrTimeout => 23,
    }
}

pub fn ctrl_type_from_u8(b: u8) -> (r: Option<CtrlType>)
    ensures
        r == ctrl_type_of_byte(b),
{
    match b {
        0 => Some(CtrlType::Hello),
        1 => Some(CtrlType::Command),
        2 => Some(CtrlType::Factory),
        3 => Some(CtrlType::Expire),
        4 => Some(CtrlType::Done),
        5 => Some(CtrlType::Recv),
        6 => Some(CtrlType::EprOk),
        7 => Some(CtrlType::Measout),
        8 => Some(CtrlType::GetTime),
        9 => Some(CtrlType::InfTime),
        10 => Some(CtrlType::NewOk),
        20 => Some(CtrlType::ErrGeneral),
        21 => Some(CtrlType::ErrNoQubit),
        22 => Some(CtrlType::ErrUnsupp),
        23 => Some(CtrlType::ErrTimeout),
        _ => None,
    }
}

/// Encoding a control type and decoding the code gives the type back.
pub proof fn lemma_ctrl_type_byte_inverse(t: CtrlType)
    ensures
        ctrl_type_of_byte(ctrl_type_byte(t)) == Some(t),
{
}

/// Instruction to execute, carried in the third byte of a `CmdHeader`.
#[derive(Clone, Copy, Debug, PartialEq, Eq, Structural)]
pub enum Instr {
    /// 0: identity (do nothing, wait one step).
    I,
    /// 1: ask for a new qubit.
    New,
    /// 2: measure qubit.
    Measure,
    /// 3: measure qubit in place.
    MeasureInplace,
    /// 4: reset qubit to |0>.
    Reset,
    /// 5: send qubit to another node.
    Send,
    /// 6: ask to receive qubit.
    Recv,
    /// 7: create EPR pair with the specified node.
    Epr,
    /// 8: receive EPR pair.
    EprRecv,
    /// 10: Pauli X.
    X,
    /// 11: Pauli Z.
    Z,
    /// 12: Pauli Y.
    Y,
    /// 13: T gate.
    T,
    /// 14: rotation around X in pi/256 increments.
    RotX,
    /// 15: rotation around Y in pi/256 increments.
    RotY,
    /// 16: rotation around Z in pi/256 increments.
    RotZ,
    /// 17: Hadamard gate.
    H,
    /// 18: K gate, taking the computational to the Y eigenbasis.
    K,
    /// 20: CNOT gate with this qubit as control.
    Cnot,
    /// 21: CPHASE gate with this qubit as control.
    Cphase,
}

/// The wire code of an instruction.
pub open spec fn instr_byte(i: Instr) -> u8 {
    match i {
        Instr::I => 0,
        Instr::New => 1,
        Instr::Measure => 2,
        Instr::MeasureInplace => 3,
        Instr::Reset => 4,
        Instr::Send => 5,
        Instr::Recv => 6,
        Instr::Epr => 7,
        Instr::EprRecv => 8,
        Instr::X => 10,
        Instr::Z => 11,
        Instr::Y => 12,
        Instr::T => 13,
        Instr::RotX => 14,
        Instr::RotY => 15,
        Instr::RotZ => 16,
        Instr::H => 17,
        Instr::K => 18,
        Instr::Cnot => 20,
        Instr::Cphase => 21,
    }
}

/// The instruction a wire code stands for; `None` when the code has no
/// defined meaning.
pub open spec fn instr_of_byte(b: u8) -> Option<Instr> {
    if b == 0 { Some(Instr::I) }
    else if b == 1 { Some(Instr::New) }
    else if b == 2 { Some(Instr::Measure) }
    else if b == 3 { Some(Instr::MeasureInplace) }
    else if b == 4 { Some(Instr::Reset) }
    else if b == 5 { Some(Instr::Send) }
    else if b == 6 { Some(Instr::Recv) }
    else if b == 7 { Some(Instr::Epr) }
    else if b == 8 { Some(Instr::EprRecv) }
    else if b == 10 { Some(Instr::X) }
    else if b == 11 { Some(Instr::Z) }
    else if b == 12 { Some(Instr::Y) }
    else if b == 13 { Some(Instr::T) }
    else if b == 14 { Some(Instr::RotX) }
    else if b == 15 { Some(Instr::RotY) }
    else if b == 16 { Some(Instr::RotZ) }
    else if b == 17 { Some(Instr::H) }
    else if b == 18 { Some(Instr::K) }
    else if b == 20 { Some(Instr::Cnot) }
    else if b == 21 { Some(Instr::Cphase) }
    else { None }
}

pub fn instr_to_u8(i: Instr) -> (r: u8)
    ensures
        r == instr_byte(i),
{
    match i {
        Instr::I => 0,
        Instr::New => 1,
        Instr::Measure => 2,
        Instr::MeasureInplace => 3,
        Instr::Reset => 4,
        Instr::Send => 5,
        Instr::Recv => 6,
        Instr::Epr => 7,
        Instr::EprRecv => 8,
        Instr::X => 10,
        Instr::Z => 11,
        Instr::Y => 12,
        Instr::T => 13,
        Instr::RotX => 14,
        Instr::RotY => 15,
        Instr::RotZ => 16,
        Instr::H => 17,
        Instr::K => 18,
        Instr::Cnot => 20,
        Instr::Cphase => 21,
    }
}

pub fn instr_from_u8(b: u8) -> (r: Option<Instr>)
    ensures
        r == instr_of_byte(b),
{
    match b {
        0 => Some(Instr::I),
        1 => Some(Instr::New),
        2 => Some(Instr::Measure),
        3 => Some(Instr::MeasureInplace),
        4 => Some(Instr::Reset),
        5 => Some(Instr::Send),
        6 => Some(Instr::Recv),
        7 => Some(Instr::Epr),
        8 => Some(Instr::EprRecv),
        10 => Some(Instr::X),
        11 => Some(Instr::Z),
        12 => Some(Instr::Y),
        13 => Some(Instr::T),
        14 => Some(Instr::RotX),
        15 => Some(Instr::RotY),
        16 => Some(Instr::RotZ),
        17 => Some(Instr::H),
        18 => Some(Instr::K),
        20 => Some(Instr::Cnot),
        21 => Some(Instr::Cphase),
        _ => None,
    }
}

/// Encoding an instruction and decoding the code gives the instruction back.
pub proof fn lemma_instr_byte_inverse(i: Instr)
    ensures
        instr_of_byte(instr_byte(i)) == Some(i),
{
}

/// Option bit: send a notification when the command is done.
pub const CQC_OPT_NOTIFY: u8 = 0x01;
/// Option bit: there are actions to execute when done.
pub const CQC_OPT_ACTION: u8 = 0x02;
/// Option bit: block until the command is done.
pub const CQC_OPT_BLOCK: u8 = 0x04;
/// Option bit: execute commands depending on the outcome.
pub const CQC_OPT_IFTHEN: u8 = 0x08;

/// Bit-packed command option flags. The bits are independent and combine
/// with bitwise OR, so the order in which they are set does not matter.
#[derive(Clone, Copy, Debug, PartialEq, Eq, Structural)]
pub struct CmdOpt {
    pub bits: u8,
}

impl CmdOpt {
    pub open spec fn spec_empty() -> CmdOpt {
        CmdOpt { bits: 0 }
    }

    /// No option set.
    #[verifier::when_used_as_spec(spec_empty)]
    pub fn empty() -> (r: CmdOpt)
        ensures
            r == CmdOpt::spec_empty(),
    {
        CmdOpt { bits: 0 }
    }

    pub open spec fn spec_set_notify(self) -> CmdOpt {
        CmdOpt { bits: self.bits | CQC_OPT_NOTIFY }
    }

    /// Set the NOTIFY bit.
    #[verifier::when_used_as_spec(spec_set_notify)]
    pub fn set_notify(self) -> (r: CmdOpt)
        ensures
            r == self.spec_set_notify(),
    {
        CmdOpt { bits: self.bits | CQC_OPT_NOTIFY }
    }

    pub open spec fn spec_set_action(self) -> CmdOpt {
        CmdOpt { bits: self.bits | CQC_OPT_ACTION }
    }

    /// Set the ACTION bit.
    #[verifier::when_used_as_spec(spec_set_action)]
    pub fn set_action(self) -> (r: CmdOpt)
        ensures
            r == self.spec_set_action(),
    {
        CmdOpt { bits: self.bits | CQC_OPT_ACTION }
    }

    pub open spec fn spec_set_block(self) -> CmdOpt {
        CmdOpt { bits: self.bits | CQC_OPT_BLOCK }
    }

    /// Set the BLOCK bit.
    #[verifier::when_used_as_spec(spec_set_block)]
    pub fn set_block(self) -> (r: CmdOpt)
        ensures
            r == self.spec_set_block(),
    {
        CmdOpt { bits: self.bits | CQC_OPT_BLOCK }
    }

    pub open spec fn spec_set_ifthen(self) -> CmdOpt {
        CmdOpt { bits: self.bits | CQC_OPT_IFTHEN }
    }

    /// Set the IFTHEN bit.
    #[verifier::when_used_as_spec(spec_set_ifthen)]
    pub fn set_ifthen(self) -> (r: CmdOpt)
        ensures
            r == self.spec_set_ifthen(),
    {
        CmdOpt { bits: self.bits | CQC_OPT_IFTHEN }
    }

    pub open spec fn spec_get_notify(self) -> bool {
        self.bits & CQC_OPT_NOTIFY != 0
    }

    /// Whether the NOTIFY bit is set.
    #[verifier::when_used_as_spec(spec_get_notify)]
    pub fn get_notify(self) -> (r: bool)
        ensures
            r == self.spec_get_notify(),
    {
        self.bits & CQC_OPT_NOTIFY != 0
    }

    pub open spec fn spec_get_block(self) -> bool {
        self.bits & CQC_OPT_BLOCK != 0
    }

    /// Whether the BLOCK bit is set.
    #[verifier::when_used_as_spec(spec_get_block)]
    pub fn get_block(self) -> (r: bool)
        ensures
            r == self.spec_get_block(),
    {
        self.bits & CQC_OPT_BLOCK != 0
    }
}

/// Setting any two option masks ORs them in, so the order of two `set`
/// calls never matters.
pub proof fn lemma_set_order_irrelevant(o: CmdOpt, a: u8, b: u8)
    ensures
        (CmdOpt { bits: (o.bits | a) | b }) == (CmdOpt { bits: (o.bits | b) | a }),
{
    let x = o.bits;
    assert((x | a) | b == (x | b) | a) by (bit_vector);
}

/// Setting NOTIFY then BLOCK yields the same flags as setting BLOCK then
/// NOTIFY, whatever was set before.
pub proof fn lemma_notify_block_commute(o: CmdOpt)
    ensures
        o.set_notify().set_block() == o.set_block().set_notify(),
{
    lemma_set_order_irrelevant(o, CQC_OPT_NOTIFY, CQC_OPT_BLOCK);
}

/// Outer framing header carrying the message kind, the application id and
/// the byte count of whatever headers follow. Serialized as exactly 8
/// bytes: version, control type, app id (2 bytes), length (4 bytes).
#[derive(Clone, Copy, Debug, PartialEq, Eq, Structural)]
pub struct CqcHeader {
    /// Protocol version.
    pub version: u8,
    /// Packet control type.
    pub ctrl_type: CtrlType,
    /// Application id.
    pub app_id: u16,
    /// Total length of the headers that follow in this message.
    pub length: u32,
}

/// Command header naming the qubit to act on, the instruction, and the
/// option flags. Serialized as exactly 4 bytes.
#[derive(Clone, Copy, Debug, PartialEq, Eq, Structural)]
pub struct CmdHeader {
    /// Qubit to perform the operation on.
    pub qubit_id: u16,
    /// Instruction to execute.
    pub instr: Instr,
    /// Options when executing the command.
    pub options: CmdOpt,
}

/// Additional command details, present only for commands that need a
/// remote peer, a second operand qubit, or a repetition count.
/// Serialized as exactly 16 bytes.
#[derive(Clone, Copy, Debug, PartialEq, Eq, Structural)]
pub struct XtraCmdHeader {
    /// Id of the additional qubit.
    pub xtra_qubit_id: u16,
    /// Remote application id.
    pub r_app_id: u16,
    /// Address of the remote node.
    pub r_node: u32,
    /// Length of the commands to execute upon completion.
    pub cmd_length: u32,
    /// Port of the remote node for control information.
    pub r_port: u16,
    /// Angle step of a rotation, or the number of repetitions.
    pub steps: u8,
    /// Padding to a 4-byte boundary.
    pub unused: u8,
}

/// Reply payload carrying a measurement outcome or transfer metadata for
/// a completed command. Serialized as exactly 20 bytes.
#[derive(Clone, Copy, Debug, PartialEq, Eq, Structural)]
pub struct NotifyHeader {
    /// Id of the received qubit, if any.
    pub qubit_id: u16,
    /// Remote application id.
    pub r_app_id: u16,
    /// Address of the remote node.
    pub r_node: u32,
    /// Time of the qubit.
    pub datetime: u64,
    /// Port of the remote node for control information.
    pub r_port: u16,
    /// Measurement outcome.
    pub outcome: u8,
    /// Padding to a 4-byte boundary.
    pub unused: u8,
}

} // verus!
