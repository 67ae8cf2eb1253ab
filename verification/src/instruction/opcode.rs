//! Operation codes of the 8080 and how the first byte of an instruction
//! selects one.
use crate::i8080::register::Register;
use vstd::prelude::*;

verus! {

/// How many bytes an instruction occupies: the opcode byte alone, the opcode
/// with one operand byte, or the opcode with a two-byte operand.
#[derive(Clone, Copy, Debug, PartialEq, Eq, Structural)]
pub enum OpcodeSize {
    Unary,
    Binary,
    Trinary,
}

/// An operation of the 8080, with the register operands that the opcode byte
/// itself names. `Unknown` carries an opcode byte to which the documented
/// instruction set assigns no operation.
#[derive(Clone, Copy, Debug, PartialEq, Eq, Structural)]
pub enum Opcode {
    NOP,
    LXI(Register),
    STAX(Register),
    INX(Register),
    INR(Register),
    DCR(Register),
    MVI(Register),
    RLC,
    DAD(Register),
    LDAX(Register),
    DCX(Register),
    RRC,
    RAL,
    RAR,
    SHLD,
    DAA,
    LHLD,
    CMA,
    STA,
    STC,
    LDA,
    CMC,
    MOV(Register, Register),
    HLT,
    ADD(Register),
    ADC(Register),
    SUB(Register),
    SBB(Register),
    ANA(Register),
    XRA(Register),
    ORA(Register),
    CMP(Register),
    RNZ,
    RZ,
    RNC,
    RC,
    RPO,
    RPE,
    RP,
    RM,
    POP(Register),
    PUSH(Register),
    JNZ,
    JZ,
    JNC,
    JC,
    JPO,
    JPE,
    JP,
    JM,
    JMP,
    CNZ,
    CZ,
    CNC,
    CC,
    CPO,
    CPE,
    CP,
    CM,
    CALL,
    ADI,
    ACI,
    SUI,
    SBI,
    ANI,
    XRI,
    ORI,
    CPI,
    RST(u8),
    RET,
    PCHL,
    SPHL,
    XTHL,
    XCHG,
    OUT,
    IN,
    DI,
    EI,
    Unknown(u8),
}

/// The register that a three-bit operand field names.
pub open spec fn operand_register(code: int) -> Register {
    if code == 0 {
        Register::B
    } else if code == 1 {
        Register::C
    } else if code == 2 {
        Register::D
    } else if code == 3 {
        Register::E
    } else if code == 4 {
        Register::H
    } else if code == 5 {
        Register::L
    } else if code == 6 {
        Register::M
    } else {
        Register::A
    }
}

/// The register that a two-bit register-pair field names: the leading
/// register of the pair, or the stack pointer.
pub open spec fn pair_register(code: int) -> Register {
    if code == 0 {
        Register::B
    } else if code == 1 {
        Register::D
    } else if code == 2 {
        Register::H
    } else {
        Register::SP
    }
}

/// The operation among eight that a three-bit selector picks.
pub open spec fn select(
    code: int,
    op0: Opcode,
    op1: Opcode,
    op2: Opcode,
    op3: Opcode,
    op4: Opcode,
    op5: Opcode,
    op6: Opcode,
    op7: Opcode,
) -> Opcode {
    if code == 0 {
        op0
    } else if code == 1 {
        op1
    } else if code == 2 {
        op2
    } else if code == 3 {
        op3
    } else if code == 4 {
        op4
    } else if code == 5 {
        op5
    } else if code == 6 {
        op6
    } else {
        op7
    }
}

impl Opcode {
    /// The operation that an opcode byte selects. The byte is read as three
    /// fields: bits 7..6 give the group, bits 5..3 a destination or a
    /// selector, bits 2..0 a source or a column.
    pub open spec fn decode(byte: u8) -> Opcode {
        let group = byte as int / 64;
        let mid = (byte as int / 8) % 8;
        let low = byte as int % 8;
        let pair = pair_register(mid / 2);
        let odd = mid % 2 == 1;
        if group == 0 {
            if low == 0 {
                if mid == 0 {
                    Opcode::NOP
                } else {
                    Opcode::Unknown(byte)
                }
            } else if low == 1 {
                if odd {
                    Opcode::DAD(pair)
                } else {
                    Opcode::LXI(pair)
                }
            } else if low == 2 {
                select(
                    mid,
                    Opcode::STAX(Register::B),
                    Opcode::LDAX(Register::B),
                    Opcode::STAX(Register::D),
                    Opcode::LDAX(Register::D),
                    Opcode::SHLD,
                    Opcode::LHLD,
                    Opcode::STA,
                    Opcode::LDA,
                )
            } else if low == 3 {
                if odd {
                    Opcode::DCX(pair)
                } else {
                    Opcode::INX(pair)
                }
            } else if low == 4 {
                Opcode::INR(operand_register(mid))
            } else if low == 5 {
                Opcode::DCR(operand_register(mid))
            } else if low == 6 {
                Opcode::MVI(operand_register(mid))
            } else {
                select(
                    mid,
                    Opcode::RLC,
                    Opcode::RRC,
                    Opcode::RAL,
                    Opcode::RAR,
                    Opcode::DAA,
                    Opcode::CMA,
                    Opcode::STC,
                    Opcode::CMC,
                )
            }
        } else if group == 1 {
            if mid == 6 && low == 6 {
                Opcode::HLT
            } else {
                Opcode::MOV(operand_register(mid), operand_register(low))
            }
        } else if group == 2 {
            let source = operand_register(low);
            select(
                mid,
                Opcode::ADD(source),
                Opcode::ADC(source),
                Opcode::SUB(source),
                Opcode::SBB(source),
                Opcode::ANA(source),
                Opcode::XRA(source),
                Opcode::ORA(source),
                Opcode::CMP(source),
            )
        } else {
            if low == 0 {
                select(
                    mid,
                    Opcode::RNZ,
                    Opcode::RZ,
                    Opcode::RNC,
                    Opcode::RC,
                    Opcode::RPO,
                    Opcode::RPE,
                    Opcode::RP,
                    Opcode::RM,
                )
            } else if low == 1 {
                select(
                    mid,
                    Opcode::POP(Register::B),
                    Opcode::RET,
                    Opcode::POP(Register::D),
                    Opcode::Unknown(byte),
                    Opcode::POP(Register::H),
                    Opcode::PCHL,
                    Opcode::POP(Register::SP),
                    Opcode::SPHL,
                )
            } else if low == 2 {
                select(
                    mid,
                    Opcode::JNZ,
                    Opcode::JZ,
                    Opcode::JNC,
                    Opcode::JC,
                    Opcode::JPO,
                    Opcode::JPE,
                    Opcode::JP,
                    Opcode::JM,
                )
            } else if low == 3 {
                select(
                    mid,
                    Opcode::JMP,
                    Opcode::Unknown(byte),
                    Opcode::OUT,
                    Opcode::IN,
                    Opcode::XTHL,
                    Opcode::XCHG,
                    Opcode::DI,
                    Opcode::EI,
                )
            } else if low == 4 {
                select(
                    mid,
                    Opcode::CNZ,
                    Opcode::CZ,
                    Opcode::CNC,
                    Opcode::CC,
                    Opcode::CPO,
                    Opcode::CPE,
                    Opcode::CP,
                    Opcode::CM,
                )
            } else if low == 5 {
                select(
                    mid,
                    Opcode::PUSH(Register::B),
                    Opcode::CALL,
                    Opcode::PUSH(Register::D),
                    Opcode::Unknown(byte),
                    Opcode::PUSH(Register::H),
                    Opcode::Unknown(byte),
                    Opcode::PUSH(Register::SP),
                    Opcode::Unknown(byte),
                )
            } else if low == 6 {
                select(
                    mid,
                    Opcode::ADI,
                    Opcode::ACI,
                    Opcode::SUI,
                    Opcode::SBI,
                    Opcode::ANI,
                    Opcode::XRI,
                    Opcode::ORI,
                    Opcode::CPI,
                )
            } else {
                Opcode::RST((byte / 8) % 8)
            }
        }
    }

    /// The number of operand bytes that follow the opcode byte.
    pub open spec fn operand_bytes(self) -> nat {
        match self {
            Opcode::LXI(_)
            | Opcode::SHLD
            | Opcode::LHLD
            | Opcode::STA
            | Opcode::LDA
            | Opcode::JNZ
            | Opcode::JZ
            | Opcode::JNC
            | Opcode::JC
            | Opcode::JPO
            | Opcode::JPE
            | Opcode::JP
            | Opcode::JM
            | Opcode::JMP
            | Opcode::CNZ
            | Opcode::CZ
            | Opcode::CNC
            | Opcode::CC
            | Opcode::CPO
            | Opcode::CPE
            | Opcode::CP
            | Opcode::CM
            | Opcode::CALL => 2,
            Opcode::MVI(_)
            | Opcode::ADI
            | Opcode::ACI
            | Opcode::SUI
            | Opcode::SBI
            | Opcode::ANI
            | Opcode::XRI
            | Opcode::ORI
            | Opcode::CPI
            | Opcode::OUT
            | Opcode::IN => 1,
            _ => 0,
        }
    }

    /// The size class that goes with `operand_bytes`.
    pub open spec fn size_class(self) -> OpcodeSize {
        if self.operand_bytes() == 2 {
            OpcodeSize::Trinary
        } else if self.operand_bytes() == 1 {
            OpcodeSize::Binary
        } else {
            OpcodeSize::Unary
        }
    }

    /// The size class of the instruction that `self` begins: three bytes for
    /// the operations that take an address or a 16-bit immediate, two for
    /// those that take an 8-bit immediate or a port, one for all others.
    pub fn size(&self) -> (size: OpcodeSize)
        ensures
            size == self.size_class(),
    {
        match self {
            Opcode::LXI(_) | Opcode::SHLD | Opcode::LHLD | Opcode::STA | Opcode::LDA => {
                OpcodeSize::Trinary
            },
            Opcode::JNZ
            | Opcode::JZ
            | Opcode::JNC
            | Opcode::JC
            | Opcode::JPO
            | Opcode::JPE
            | Opcode::JP
            | Opcode::JM
            | Opcode::JMP => OpcodeSize::Trinary,
            Opcode::CNZ
            | Opcode::CZ
            | Opcode::CNC
            | Opcode::CC
            | Opcode::CPO
            | Opcode::CPE
            | Opcode::CP
            | Opcode::CM
            | Opcode::CALL => OpcodeSize::Trinary,
            Opcode::MVI(_) | Opcode::OUT | Opcode::IN => OpcodeSize::Binary,
            Opcode::ADI
            | Opcode::ACI
            | Opcode::SUI
            | Opcode::SBI
            | Opcode::ANI
            | Opcode::XRI
            | Opcode::ORI
            | Opcode::CPI => OpcodeSize::Binary,
            _ => OpcodeSize::Unary,
        }
    }
}

/// Reads a three-bit operand field as a register name.
fn register_of(code: u8) -> (register: Register)
    requires
        code < 8,
    ensures
        register == operand_register(code as int),
{
    match code {
        0 => Register::B,
        1 => Register::C,
        2 => Register::D,
        3 => Register::E,
        4 => Register::H,
        5 => Register::L,
        6 => Register::M,
        _ => Register::A,
    }
}

/// Reads a two-bit register-pair field as a register name.
fn pair_of(code: u8) -> (register: Register)
    requires
        code < 4,
    ensures
        register == pair_register(code as int),
{
    match code {
        0 => Register::B,
        1 => Register::D,
        2 => Register::H,
        _ => Register::SP,
    }
}

/// Decodes an opcode byte of the group with bits 7..6 clear.
fn decode_group0(byte: u8, mid: u8, low: u8) -> (op: Opcode)
    requires
        byte < 64,
        mid == (byte / 8) % 8,
        low == byte % 8,
    ensures
        op == Opcode::decode(byte),
{
    match low {
        0 => if mid == 0 {
            Opcode::NOP
        } else {
            Opcode::Unknown(byte)
        },
        1 => if mid % 2 == 1 {
            Opcode::DAD(pair_of(mid / 2))
        } else {
            Opcode::LXI(pair_of(mid / 2))
        },
        2 => match mid {
            0 => Opcode::STAX(Register::B),
            1 => Opcode::LDAX(Register::B),
            2 => Opcode::STAX(Register::D),
            3 => Opcode::LDAX(Register::D),
            4 => Opcode::SHLD,
            5 => Opcode::LHLD,
            6 => Opcode::STA,
            _ => Opcode::LDA,
        },
        3 => if mid % 2 == 1 {
            Opcode::DCX(pair_of(mid / 2))
        } else {
            Opcode::INX(pair_of(mid / 2))
        },
        4 => Opcode::INR(register_of(mid)),
        5 => Opcode::DCR(register_of(mid)),
        6 => Opcode::MVI(register_of(mid)),
        _ => match mid {
            0 => Opcode::RLC,
            1 => Opcode::RRC,
            2 => Opcode::RAL,
            3 => Opcode::RAR,
            4 => Opcode::DAA,
            5 => Opcode::CMA,
            6 => Opcode::STC,
            _ => Opcode::CMC,
        },
    }
}

/// Decodes an opcode byte of the accumulator group, bits 7..6 being `10`.
fn decode_group2(byte: u8, mid: u8, low: u8) -> (op: Opcode)
    requires
        128 <= byte < 192,
        mid == (byte / 8) % 8,
        low == byte % 8,
    ensures
        op == Opcode::decode(byte),
{
    let source = register_of(low);
    match mid {
        0 => Opcode::ADD(source),
        1 => Opcode::ADC(source),
        2 => Opcode::SUB(source),
        3 => Opcode::SBB(source),
        4 => Opcode::ANA(source),
        5 => Opcode::XRA(source),
        6 => Opcode::ORA(source),
        _ => Opcode::CMP(source),
    }
}

/// Decodes an opcode byte of the group with bits 7..6 set.
fn decode_group3(byte: u8, mid: u8, low: u8) -> (op: Opcode)
    requires
        192 <= byte,
        mid == (byte / 8) % 8,
        low == byte % 8,
    ensures
        op == Opcode::decode(byte),
{
    match low {
        0 => match mid {
            0 => Opcode::RNZ,
            1 => Opcode::RZ,
            2 => Opcode::RNC,
            3 => Opcode::RC,
            4 => Opcode::RPO,
            5 => Opcode::RPE,
            6 => Opcode::RP,
            _ => Opcode::RM,
        },
        1 => match mid {
            0 => Opcode::POP(Register::B),
            1 => Opcode::RET,
            2 => Opcode::POP(Register::D),
            3 => Opcode::Unknown(byte),
            4 => Opcode::POP(Register::H),
            5 => Opcode::PCHL,
            6 => Opcode::POP(Register::SP),
            _ => Opcode::SPHL,
        },
        2 => match mid {
            0 => Opcode::JNZ,
            1 => Opcode::JZ,
            2 => Opcode::JNC,
            3 => Opcode::JC,
            4 => Opcode::JPO,
            5 => Opcode::JPE,
            6 => Opcode::JP,
            _ => Opcode::JM,
        },
        3 => match mid {
            0 => Opcode::JMP,
            1 => Opcode::Unknown(byte),
            2 => Opcode::OUT,
            3 => Opcode::IN,
            4 => Opcode::XTHL,
            5 => Opcode::XCHG,
            6 => Opcode::DI,
            _ => Opcode::EI,
        },
        4 => match mid {
            0 => Opcode::CNZ,
            1 => Opcode::CZ,
            2 => Opcode::CNC,
            3 => Opcode::CC,
            4 => Opcode::CPO,
            5 => Opcode::CPE,
            6 => Opcode::CP,
            _ => Opcode::CM,
        },
        5 => match mid {
            0 => Opcode::PUSH(Register::B),
            1 => Opcode::CALL,
            2 => Opcode::PUSH(Register::D),
            4 => Opcode::PUSH(Register::H),
            6 => Opcode::PUSH(Register::SP),
            _ => Opcode::Unknown(byte),
        },
        6 => match mid {
            0 => Opcode::ADI,
            1 => Opcode::ACI,
            2 => Opcode::SUI,
            3 => Opcode::SBI,
            4 => Opcode::ANI,
            5 => Opcode::XRI,
            6 => Opcode::ORI,
            _ => Opcode::CPI,
        },
        _ => Opcode::RST(mid),
    }
}

impl From<u8> for Opcode {
    /// Decodes an opcode byte. Every byte decodes; the bytes to which the
    /// instruction set assigns no operation come back as `Unknown`.
    fn from(byte: u8) -> (op: Opcode)
        ensures
            op == Opcode::decode(byte),
    {
        assert(byte >> 6 == byte / 64) by (bit_vector);
        assert((byte >> 3) & 7 == (byte / 8) % 8) by (bit_vector);
        assert(byte & 7 == byte % 8) by (bit_vector);
        let group: u8 = byte >> 6;
        let mid: u8 = (byte >> 3) & 7;
        let low: u8 = byte & 7;
        if group == 0 {
            decode_group0(byte, mid, low)
        } else if group == 1 {
            if byte == 0x76 {
                Opcode::HLT
            } else {
                Opcode::MOV(register_of(mid), register_of(low))
            }
        } else if group == 2 {
            decode_group2(byte, mid, low)
        } else {
            decode_group3(byte, mid, low)
        }
    }
}

impl vstd::std_specs::convert::FromSpecImpl<u8> for Opcode {
    open spec fn obeys_from_spec() -> bool {
        true
    }

    open spec fn from_spec(byte: u8) -> Opcode {
        Opcode::decode(byte)
    }
}

/// The three-bit field that names an operand register. The stack pointer is
/// no operand register.
pub open spec fn register_code(register: Register) -> Option<int> {
    match register {
        Register::B => Some(0),
        Register::C => Some(1),
        Register::D => Some(2),
        Register::E => Some(3),
        Register::H => Some(4),
        Register::L => Some(5),
        Register::M => Some(6),
        Register::A => Some(7),
        Register::SP => None,
    }
}

/// The two-bit field that names a register pair by its leading register, or
/// the stack pointer.
pub open spec fn pair_code(register: Register) -> Option<int> {
    match register {
        Register::B => Some(0),
        Register::D => Some(1),
        Register::H => Some(2),
        Register::SP => Some(3),
        _ => None,
    }
}

/// The opcode byte made of a base and an operand field, where the operand
/// has a field.
pub open spec fn with_field(base: int, weight: int, field: Option<int>) -> Option<int> {
    match field {
        Some(code) => Some(base + weight * code),
        None => None,
    }
}

impl Opcode {
    /// The opcode byte that the instruction set assigns to `self`. There is
    /// none for `Unknown`, nor for an operation with an operand that its
    /// opcode byte cannot name.
    pub open spec fn encoding(self) -> Option<int> {
        match self {
            Opcode::NOP => Some(0x00),
            Opcode::LXI(r) => with_field(0x01, 16, pair_code(r)),
            Opcode::STAX(r) => if r == Register::B {
                Some(0x02)
            } else if r == Register::D {
                Some(0x12)
            } else {
                None
            },
            Opcode::INX(r) => with_field(0x03, 16, pair_code(r)),
            Opcode::INR(r) => with_field(0x04, 8, register_code(r)),
            Opcode::DCR(r) => with_field(0x05, 8, register_code(r)),
            Opcode::MVI(r) => with_field(0x06, 8, register_code(r)),
            Opcode::RLC => Some(0x07),
            Opcode::DAD(r) => with_field(0x09, 16, pair_code(r)),
            Opcode::LDAX(r) => if r == Register::B {
                Some(0x0a)
            } else if r == Register::D {
                Some(0x1a)
            } else {
                None
            },
            Opcode::DCX(r) => with_field(0x0b, 16, pair_code(r)),
            Opcode::RRC => Some(0x0f),
            Opcode::RAL => Some(0x17),
            Opcode::RAR => Some(0x1f),
            Opcode::SHLD => Some(0x22),
            Opcode::DAA => Some(0x27),
            Opcode::LHLD => Some(0x2a),
            Opcode::CMA => Some(0x2f),
            Opcode::STA => Some(0x32),
            Opcode::STC => Some(0x37),
            Opcode::LDA => Some(0x3a),
            Opcode::CMC => Some(0x3f),
            Opcode::MOV(d, s) => if d == Register::M && s == Register::M {
                None
            } else {
                match register_code(d) {
                    Some(code) => with_field(0x40 + 8 * code, 1, register_code(s)),
                    None => None,
                }
            },
            Opcode::HLT => Some(0x76),
            Opcode::ADD(r) => with_field(0x80, 1, register_code(r)),
            Opcode::ADC(r) => with_field(0x88, 1, register_code(r)),
            Opcode::SUB(r) => with_field(0x90, 1, register_code(r)),
            Opcode::SBB(r) => with_field(0x98, 1, register_code(r)),
            Opcode::ANA(r) => with_field(0xa0, 1, register_code(r)),
            Opcode::XRA(r) => with_field(0xa8, 1, register_code(r)),
            Opcode::ORA(r) => with_field(0xb0, 1, register_code(r)),
            Opcode::CMP(r) => with_field(0xb8, 1, register_code(r)),
            Opcode::RNZ => Some(0xc0),
            Opcode::RZ => Some(0xc8),
            Opcode::RNC => Some(0xd0),
            Opcode::RC => Some(0xd8),
            Opcode::RPO => Some(0xe0),
            Opcode::RPE => Some(0xe8),
            Opcode::RP => Some(0xf0),
            Opcode::RM => Some(0xf8),
            Opcode::POP(r) => with_field(0xc1, 16, pair_code(r)),
            Opcode::PUSH(r) => with_field(0xc5, 16, pair_code(r)),
            Opcode::JNZ => Some(0xc2),
            Opcode::JZ => Some(0xca),
            Opcode::JNC => Some(0xd2),
            Opcode::JC => Some(0xda),
            Opcode::JPO => Some(0xe2),
            Opcode::JPE => Some(0xea),
            Opcode::JP => Some(0xf2),
            Opcode::JM => Some(0xfa),
            Opcode::JMP => Some(0xc3),
            Opcode::CNZ => Some(0xc4),
            Opcode::CZ => Some(0xcc),
            Opcode::CNC => Some(0xd4),
            Opcode::CC => Some(0xdc),
            Opcode::CPO => Some(0xe4),
            Opcode::CPE => Some(0xec),
            Opcode::CP => Some(0xf4),
            Opcode::CM => Some(0xfc),
            Opcode::CALL => Some(0xcd),
            Opcode::ADI => Some(0xc6),
            Opcode::ACI => Some(0xce),
            Opcode::SUI => Some(0xd6),
            Opcode::SBI => Some(0xde),
            Opcode::ANI => Some(0xe6),
            Opcode::XRI => Some(0xee),
            Opcode::ORI => Some(0xf6),
            Opcode::CPI => Some(0xfe),
            Opcode::RST(n) => if n < 8 {
                Some(0xc7 + 8 * n)
            } else {
                None
            },
            Opcode::RET => Some(0xc9),
            Opcode::PCHL => Some(0xe9),
            Opcode::SPHL => Some(0xf9),
            Opcode::XTHL => Some(0xe3),
            Opcode::XCHG => Some(0xeb),
            Opcode::OUT => Some(0xd3),
            Opcode::IN => Some(0xdb),
            Opcode::DI => Some(0xf3),
            Opcode::EI => Some(0xfb),
            Opcode::Unknown(_) => None,
        }
    }
}

/// The three fields of a byte that was put together from them.
proof fn lemma_fields(group: int, mid: int, low: int)
    requires
        0 <= group < 4,
        0 <= mid < 8,
        0 <= low < 8,
    ensures
        (64 * group + 8 * mid + low) / 64 == group,
        ((64 * group + 8 * mid + low) / 8) % 8 == mid,
        (64 * group + 8 * mid + low) % 8 == low,
        0 <= 64 * group + 8 * mid + low < 256,
{
}

/// Whether decoding the opcode byte of `op` gives `op` back.
pub open spec fn decodes_back(op: Opcode) -> bool {
    &&& 0 <= op.encoding()->Some_0 < 256
    &&& Opcode::decode(op.encoding()->Some_0 as u8) == op
}

/// `decodes_back` for the operations that take one operand register.
proof fn lemma_decode_register_operand(op: Opcode, register: Register)
    requires
        register_code(register) is Some,
        op == Opcode::INR(register) || op == Opcode::DCR(register) || op == Opcode::MVI(register)
            || op == Opcode::ADD(register) || op == Opcode::ADC(register) || op == Opcode::SUB(
            register,
        ) || op == Opcode::SBB(register) || op == Opcode::ANA(register) || op == Opcode::XRA(
            register,
        ) || op == Opcode::ORA(register) || op == Opcode::CMP(register),
    ensures
        decodes_back(op),
{
    let code = register_code(register)->Some_0;
    assert(operand_register(code) == register);
    match op {
        Opcode::INR(_) => lemma_fields(0, code, 4),
        Opcode::DCR(_) => lemma_fields(0, code, 5),
        Opcode::MVI(_) => lemma_fields(0, code, 6),
        Opcode::ADD(_) => lemma_fields(2, 0, code),
        Opcode::ADC(_) => lemma_fields(2, 1, code),
        Opcode::SUB(_) => lemma_fields(2, 2, code),
        Opcode::SBB(_) => lemma_fields(2, 3, code),
        Opcode::ANA(_) => lemma_fields(2, 4, code),
        Opcode::XRA(_) => lemma_fields(2, 5, code),
        Opcode::ORA(_) => lemma_fields(2, 6, code),
        _ => lemma_fields(2, 7, code),
    }
}

/// `decodes_back` for the operations that take a register pair.
proof fn lemma_decode_pair_operand(op: Opcode, register: Register)
    requires
        pair_code(register) is Some,
        op == Opcode::LXI(register) || op == Opcode::DAD(register) || op == Opcode::INX(register)
            || op == Opcode::DCX(register) || op == Opcode::POP(register) || op == Opcode::PUSH(
            register,
        ),
    ensures
        decodes_back(op),
{
    let code = pair_code(register)->Some_0;
    assert(pair_register(code) == register);
    match op {
        Opcode::LXI(_) => lemma_fields(0, 2 * code, 1),
        Opcode::DAD(_) => lemma_fields(0, 2 * code + 1, 1),
        Opcode::INX(_) => lemma_fields(0, 2 * code, 3),
        Opcode::DCX(_) => lemma_fields(0, 2 * code + 1, 3),
        Opcode::POP(_) => lemma_fields(3, 2 * code, 1),
        _ => lemma_fields(3, 2 * code, 5),
    }
}

/// `decodes_back` for `MOV`.
proof fn lemma_decode_move(target: Register, source: Register)
    requires
        register_code(target) is Some,
        register_code(source) is Some,
        !(target == Register::M && source == Register::M),
    ensures
        decodes_back(Opcode::MOV(target, source)),
{
    let to = register_code(target)->Some_0;
    let from = register_code(source)->Some_0;
    assert(operand_register(to) == target);
    assert(operand_register(from) == source);
    lemma_fields(1, to, from);
}

/// Decoding undoes encoding: an operation that has an opcode byte is the one
/// that its byte decodes to.
pub proof fn lemma_decode_inverts_encoding(op: Opcode)
    requires
        op.encoding() is Some,
    ensures
        decodes_back(op),
{
    match op {
        Opcode::INR(r)
        | Opcode::DCR(r)
        | Opcode::MVI(r)
        | Opcode::ADD(r)
        | Opcode::ADC(r)
        | Opcode::SUB(r)
        | Opcode::SBB(r)
        | Opcode::ANA(r)
        | Opcode::XRA(r)
        | Opcode::ORA(r)
        | Opcode::CMP(r) => lemma_decode_register_operand(op, r),
        Opcode::LXI(r)
        | Opcode::DAD(r)
        | Opcode::INX(r)
        | Opcode::DCX(r)
        | Opcode::POP(r)
        | Opcode::PUSH(r) => lemma_decode_pair_operand(op, r),
        Opcode::MOV(d, s) => lemma_decode_move(d, s),
        Opcode::RST(n) => lemma_fields(3, n as int, 7),
        _ => {
            let byte = op.encoding()->Some_0;
            lemma_fields(byte / 64, (byte / 8) % 8, byte % 8);
        },
    }
}

/// Encoding undoes decoding: a byte decodes to an operation whose opcode
/// byte it is, or else to `Unknown` with the byte itself.
pub proof fn lemma_encoding_inverts_decode(byte: u8)
    ensures
        Opcode::decode(byte) is Unknown ==> Opcode::decode(byte) == Opcode::Unknown(byte),
        !(Opcode::decode(byte) is Unknown) ==> Opcode::decode(byte).encoding() == Some(
            byte as int,
        ),
{
    let group = byte as int / 64;
    let mid = (byte as int / 8) % 8;
    let low = byte as int % 8;
    assert(byte == 64 * group + 8 * mid + low);
    assert(0 <= group < 4 && 0 <= mid < 8 && 0 <= low < 8);
    assert(register_code(operand_register(mid)) == Some(mid));
    assert(register_code(operand_register(low)) == Some(low));
    assert(pair_code(pair_register(mid / 2)) == Some(mid / 2));
}

} // verus!
