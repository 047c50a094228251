use vstd::prelude::*;

use crate::types::{AddressingMode, Instruction, Register, register_from_opcode, working_register};

verus! {

/// The operand that columns 5 to 15 of the opcode map name: a direct
/// address, `@R0`, `@R1`, or the working register in the low three bits.
pub open spec fn column_operand(op: u8, a1: u8) -> AddressingMode {
    let lo = op % 16;
    if lo == 5 {
        AddressingMode::Direct(a1)
    } else if lo == 6 {
        AddressingMode::Indirect(Register::R0)
    } else if lo == 7 {
        AddressingMode::Indirect(Register::R1)
    } else {
        AddressingMode::Register(working_register(op as int % 8))
    }
}

/// Whether `op` is an 8051 opcode: every byte but 0xA5.
pub open spec fn is_opcode(op: u8) -> bool {
    op != 0xA5
}

/// The 8051 opcode map: the instruction that opcode `op` followed by the
/// bytes `a1` and `a2` encodes, or `None` for a byte that is no opcode.
pub open spec fn decode_spec(op: u8, a1: u8, a2: u8) -> Option<Instruction> {
    let acc = AddressingMode::Register(Register::A);
    let carry = AddressingMode::Register(Register::C);
    let hi = op / 16;
    let lo = op % 16;
    if lo == 1 {
        if hi % 2 == 0 {
            Some(Instruction::AJMP(((op / 32) as int * 256 + a1) as u16))
        } else {
            Some(Instruction::ACALL(((op / 32) as int * 256 + a1) as u16))
        }
    } else if lo >= 4 {
        let operand = column_operand(op, a1);
        let source = if lo == 4 {
            AddressingMode::Immediate(a1)
        } else {
            operand
        };
        if hi == 0 {
            Some(Instruction::INC(if lo == 4 { acc } else { operand }))
        } else if hi == 1 {
            Some(Instruction::DEC(if lo == 4 { acc } else { operand }))
        } else if hi == 2 {
            Some(Instruction::ADD(source))
        } else if hi == 3 {
            Some(Instruction::ADDC(source))
        } else if hi == 4 {
            Some(Instruction::ORL(acc, source))
        } else if hi == 5 {
            Some(Instruction::ANL(acc, source))
        } else if hi == 6 {
            Some(Instruction::XRL(acc, source))
        } else if hi == 7 {
            if lo == 4 {
                Some(Instruction::MOV(acc, AddressingMode::Immediate(a1)))
            } else if lo == 5 {
                Some(Instruction::MOV(AddressingMode::Direct(a1), AddressingMode::Immediate(a2)))
            } else {
                Some(Instruction::MOV(operand, AddressingMode::Immediate(a1)))
            }
        } else if hi == 8 {
            if lo == 4 {
                Some(Instruction::DIV)
            } else if lo == 5 {
                Some(Instruction::MOV(AddressingMode::Direct(a2), AddressingMode::Direct(a1)))
            } else {
                Some(Instruction::MOV(AddressingMode::Direct(a1), operand))
            }
        } else if hi == 9 {
            Some(Instruction::SUBB(source))
        } else if hi == 10 {
            if lo == 4 {
                Some(Instruction::MUL)
            } else if lo == 5 {
                None
            } else {
                Some(Instruction::MOV(operand, AddressingMode::Direct(a1)))
            }
        } else if hi == 11 {
            if lo == 4 {
                Some(Instruction::CJNE(acc, AddressingMode::Immediate(a1), a2 as i8))
            } else if lo == 5 {
                Some(Instruction::CJNE(acc, AddressingMode::Direct(a1), a2 as i8))
            } else {
                Some(Instruction::CJNE(operand, AddressingMode::Immediate(a1), a2 as i8))
            }
        } else if hi == 12 {
            if lo == 4 {
                Some(Instruction::SWAP)
            } else {
                Some(Instruction::XCH(operand))
            }
        } else if hi == 13 {
            if lo == 4 {
                Some(Instruction::DA)
            } else if lo == 5 {
                Some(Instruction::DJNZ(AddressingMode::Direct(a1), a2 as i8))
            } else if lo <= 7 {
                Some(Instruction::XCHD(operand))
            } else {
                Some(Instruction::DJNZ(operand, a1 as i8))
            }
        } else if hi == 14 {
            if lo == 4 {
                Some(Instruction::CLR(acc))
            } else {
                Some(Instruction::MOV(acc, operand))
            }
        } else {
            if lo == 4 {
                Some(Instruction::CPL(acc))
            } else {
                Some(Instruction::MOV(operand, acc))
            }
        }
    } else {
        match op {
            0x00 => Some(Instruction::NOP),
            0x02 => Some(Instruction::LJMP((a1 as int * 256 + a2) as u16)),
            0x03 => Some(Instruction::RR),
            0x10 => Some(Instruction::JBC(AddressingMode::Bit(a1), a2 as i8)),
            0x12 => Some(Instruction::LCALL((a1 as int * 256 + a2) as u16)),
            0x13 => Some(Instruction::RRC),
            0x20 => Some(Instruction::JB(AddressingMode::Bit(a1), a2 as i8)),
            0x22 => Some(Instruction::RET),
            0x23 => Some(Instruction::RL),
            0x30 => Some(Instruction::JNB(AddressingMode::Bit(a1), a2 as i8)),
            0x32 => Some(Instruction::RETI),
            0x33 => Some(Instruction::RLC),
            0x40 => Some(Instruction::JC(a1 as i8)),
            0x42 => Some(Instruction::ORL(AddressingMode::Direct(a1), acc)),
            0x43 => Some(Instruction::ORL(AddressingMode::Direct(a1), AddressingMode::Immediate(a2))),
            0x50 => Some(Instruction::JNC(a1 as i8)),
            0x52 => Some(Instruction::ANL(AddressingMode::Direct(a1), acc)),
            0x53 => Some(Instruction::ANL(AddressingMode::Direct(a1), AddressingMode::Immediate(a2))),
            0x60 => Some(Instruction::JZ(a1 as i8)),
            0x62 => Some(Instruction::XRL(AddressingMode::Direct(a1), acc)),
            0x63 => Some(Instruction::XRL(AddressingMode::Direct(a1), AddressingMode::Immediate(a2))),
            0x70 => Some(Instruction::JNZ(a1 as i8)),
            0x72 => Some(Instruction::ORL(carry, AddressingMode::Bit(a1))),
            0x73 => Some(Instruction::JMP),
            0x80 => Some(Instruction::SJMP(a1 as i8)),
            0x82 => Some(Instruction::ANL(carry, AddressingMode::Bit(a1))),
            0x83 => Some(Instruction::MOVC(AddressingMode::IndirectCode(Register::PC))),
            0x90 => Some(Instruction::LoadDptr((a1 as int * 256 + a2) as u16)),
            0x92 => Some(Instruction::MOV(AddressingMode::Bit(a1), carry)),
            0x93 => Some(Instruction::MOVC(AddressingMode::IndirectCode(Register::DPTR))),
            0xA0 => Some(Instruction::ORL(carry, AddressingMode::NotBit(a1))),
            0xA2 => Some(Instruction::MOV(carry, AddressingMode::Bit(a1))),
            0xA3 => Some(Instruction::INC(AddressingMode::Register(Register::DPTR))),
            0xB0 => Some(Instruction::ANL(carry, AddressingMode::NotBit(a1))),
            0xB2 => Some(Instruction::CPL(AddressingMode::Bit(a1))),
            0xB3 => Some(Instruction::CPL(carry)),
            0xC0 => Some(Instruction::PUSH(AddressingMode::Direct(a1))),
            0xC2 => Some(Instruction::CLR(AddressingMode::Bit(a1))),
            0xC3 => Some(Instruction::CLR(carry)),
            0xD0 => Some(Instruction::POP(AddressingMode::Direct(a1))),
            0xD2 => Some(Instruction::SETB(AddressingMode::Bit(a1))),
            0xD3 => Some(Instruction::SETB(carry)),
            0xE0 => Some(Instruction::MOVX(acc, AddressingMode::IndirectExternal(Register::DPTR))),
            0xE2 => Some(Instruction::MOVX(acc, AddressingMode::IndirectExternal(Register::R0))),
            0xE3 => Some(Instruction::MOVX(acc, AddressingMode::IndirectExternal(Register::R1))),
            0xF0 => Some(Instruction::MOVX(AddressingMode::IndirectExternal(Register::DPTR), acc)),
            0xF2 => Some(Instruction::MOVX(AddressingMode::IndirectExternal(Register::R0), acc)),
            _ => Some(Instruction::MOVX(AddressingMode::IndirectExternal(Register::R1), acc)),
        }
    }
}

/// The number of bytes an operand occupies in an instruction's encoding.
pub open spec fn operand_bytes(mode: AddressingMode) -> int {
    match mode {
        AddressingMode::Immediate(_) | AddressingMode::Direct(_) | AddressingMode::Bit(_)
        | AddressingMode::NotBit(_) => 1,
        _ => 0,
    }
}

/// The length in bytes of an instruction's encoding: the opcode, one byte per
/// immediate, direct or bit operand, one per relative offset, and the bytes of
/// an absolute address.
pub open spec fn encoded_length(ins: Instruction) -> int {
    match ins {
        Instruction::ACALL(_) | Instruction::AJMP(_) => 2,
        Instruction::LCALL(_) | Instruction::LJMP(_) | Instruction::LoadDptr(_) => 3,
        Instruction::ADD(m) | Instruction::ADDC(m) | Instruction::SUBB(m) | Instruction::CLR(m)
        | Instruction::CPL(m) | Instruction::DEC(m) | Instruction::INC(m) | Instruction::MOVC(m)
        | Instruction::POP(m) | Instruction::PUSH(m) | Instruction::SETB(m) | Instruction::XCH(m)
        | Instruction::XCHD(m) => 1 + operand_bytes(m),
        Instruction::ANL(m1, m2) | Instruction::MOV(m1, m2) | Instruction::MOVX(m1, m2)
        | Instruction::ORL(m1, m2) | Instruction::XRL(m1, m2) => 1 + operand_bytes(m1) + operand_bytes(m2),
        Instruction::CJNE(m1, m2, _) => 2 + operand_bytes(m1) + operand_bytes(m2),
        Instruction::DJNZ(m, _) | Instruction::JB(m, _) | Instruction::JBC(m, _) | Instruction::JNB(m, _) => 2
            + operand_bytes(m),
        Instruction::JC(_) | Instruction::JNC(_) | Instruction::JNZ(_) | Instruction::JZ(_)
        | Instruction::SJMP(_) => 2,
        _ => 1,
    }
}

/// The length of the instruction that opcode `op` begins.
pub open spec fn instruction_length(op: u8) -> int {
    match decode_spec(op, 0, 0) {
        Some(ins) => encoded_length(ins),
        None => 1,
    }
}

/// The operand bytes of an instruction never change its length: the bytes
/// that the fetch reads, as `instruction_length` of the opcode alone, are
/// the bytes the decoded instruction occupies, and that is one to three.
pub proof fn length_depends_on_opcode_only(op: u8, a1: u8, a2: u8)
    requires
        is_opcode(op),
    ensures
        decode_spec(op, a1, a2) is Some,
        encoded_length(decode_spec(op, a1, a2).unwrap()) == instruction_length(op),
        1 <= instruction_length(op) <= 3,
{
}

/// The operand named by the column of opcode `op`.
fn operand_in_column(op: u8, a1: u8) -> (r: AddressingMode)
    ensures
        r == column_operand(op, a1),
{
    let lo = op % 16;
    if lo == 5 {
        AddressingMode::Direct(a1)
    } else if lo == 6 {
        AddressingMode::Indirect(Register::R0)
    } else if lo == 7 {
        AddressingMode::Indirect(Register::R1)
    } else {
        AddressingMode::Register(register_from_opcode(op))
    }
}

/// Decodes opcode `op` with the bytes `a1` and `a2` that follow it in code
/// memory; `None` where `op` is no opcode.
pub fn decode(op: u8, a1: u8, a2: u8) -> (r: Option<Instruction>)
    ensures
        r == decode_spec(op, a1, a2),
        r is Some <==> is_opcode(op),
{
    let acc = AddressingMode::Register(Register::A);
    let carry = AddressingMode::Register(Register::C);
    let hi = op / 16;
    let lo = op % 16;
    if lo == 1 {
        if hi % 2 == 0 {
            Some(Instruction::AJMP((op / 32) as u16 * 256 + a1 as u16))
        } else {
            Some(Instruction::ACALL((op / 32) as u16 * 256 + a1 as u16))
        }
    } else if lo >= 4 {
        let operand = operand_in_column(op, a1);
        let source = if lo == 4 {
            AddressingMode::Immediate(a1)
        } else {
            operand
        };
        if hi == 0 {
            Some(Instruction::INC(if lo == 4 { acc } else { operand }))
        } else if hi == 1 {
            Some(Instruction::DEC(if lo == 4 { acc } else { operand }))
        } else if hi == 2 {
            Some(Instruction::ADD(source))
        } else if hi == 3 {
            Some(Instruction::ADDC(source))
        } else if hi == 4 {
            Some(Instruction::ORL(acc, source))
        } else if hi == 5 {
            Some(Instruction::ANL(acc, source))
        } else if hi == 6 {
            Some(Instruction::XRL(acc, source))
        } else if hi == 7 {
            if lo == 4 {
                Some(Instruction::MOV(acc, AddressingMode::Immediate(a1)))
            } else if lo == 5 {
                Some(Instruction::MOV(AddressingMode::Direct(a1), AddressingMode::Immediate(a2)))
            } else {
                Some(Instruction::MOV(operand, AddressingMode::Immediate(a1)))
            }
        } else if hi == 8 {
            if lo == 4 {
                Some(Instruction::DIV)
            } else if lo == 5 {
                Some(Instruction::MOV(AddressingMode::Direct(a2), AddressingMode::Direct(a1)))
            } else {
                Some(Instruction::MOV(AddressingMode::Direct(a1), operand))
            }
        } else if hi == 9 {
            Some(Instruction::SUBB(source))
        } else if hi == 10 {
            if lo == 4 {
                Some(Instruction::MUL)
            } else if lo == 5 {
                None
            } else {
                Some(Instruction::MOV(operand, AddressingMode::Direct(a1)))
            }
        } else if hi == 11 {
            if lo == 4 {
                Some(Instruction::CJNE(acc, AddressingMode::Immediate(a1), a2 as i8))
            } else if lo == 5 {
                Some(Instruction::CJNE(acc, AddressingMode::Direct(a1), a2 as i8))
            } else {
                Some(Instruction::CJNE(operand, AddressingMode::Immediate(a1), a2 as i8))
            }
        } else if hi == 12 {
            if lo == 4 {
                Some(Instruction::SWAP)
            } else {
                Some(Instruction::XCH(operand))
            }
        } else if hi == 13 {
            if lo == 4 {
                Some(Instruction::DA)
            } else if lo == 5 {
                Some(Instruction::DJNZ(AddressingMode::Direct(a1), a2 as i8))
            } else if lo <= 7 {
                Some(Instruction::XCHD(operand))
            } else {
                Some(Instruction::DJNZ(operand, a1 as i8))
            }
        } else if hi == 14 {
            if lo == 4 {
                Some(Instruction::CLR(acc))
            } else {
                Some(Instruction::MOV(acc, operand))
            }
        } else {
            if lo == 4 {
                Some(Instruction::CPL(acc))
            } else {
                Some(Instruction::MOV(operand, acc))
            }
        }
    } else {
        match op {
            0x00 => Some(Instruction::NOP),
            0x02 => Some(Instruction::LJMP((a1 as u16) * 256 + a2 as u16)),
            0x03 => Some(Instruction::RR),
            0x10 => Some(Instruction::JBC(AddressingMode::Bit(a1), a2 as i8)),
            0x12 => Some(Instruction::LCALL((a1 as u16) * 256 + a2 as u16)),
            0x13 => Some(Instruction::RRC),
            0x20 => Some(Instruction::JB(AddressingMode::Bit(a1), a2 as i8)),
            0x22 => Some(Instruction::RET),
            0x23 => Some(Instruction::RL),
            0x30 => Some(Instruction::JNB(AddressingMode::Bit(a1), a2 as i8)),
            0x32 => Some(Instruction::RETI),
            0x33 => Some(Instruction::RLC),
            0x40 => Some(Instruction::JC(a1 as i8)),
            0x42 => Some(Instruction::ORL(AddressingMode::Direct(a1), acc)),
            0x43 => Some(Instruction::ORL(AddressingMode::Direct(a1), AddressingMode::Immediate(a2))),
            0x50 => Some(Instruction::JNC(a1 as i8)),
            0x52 => Some(Instruction::ANL(AddressingMode::Direct(a1), acc)),
            0x53 => Some(Instruction::ANL(AddressingMode::Direct(a1), AddressingMode::Immediate(a2))),
            0x60 => Some(Instruction::JZ(a1 as i8)),
            0x62 => Some(Instruction::XRL(AddressingMode::Direct(a1), acc)),
            0x63 => Some(Instruction::XRL(AddressingMode::Direct(a1), AddressingMode::Immediate(a2))),
            0x70 => Some(Instruction::JNZ(a1 as i8)),
            0x72 => Some(Instruction::ORL(carry, AddressingMode::Bit(a1))),
            0x73 => Some(Instruction::JMP),
            0x80 => Some(Instruction::SJMP(a1 as i8)),
            0x82 => Some(Instruction::ANL(carry, AddressingMode::Bit(a1))),
            0x83 => Some(Instruction::MOVC(AddressingMode::IndirectCode(Register::PC))),
            0x90 => Some(Instruction::LoadDptr((a1 as u16) * 256 + a2 as u16)),
            0x92 => Some(Instruction::MOV(AddressingMode::Bit(a1), carry)),
            0x93 => Some(Instruction::MOVC(AddressingMode::IndirectCode(Register::DPTR))),
            0xA0 => Some(Instruction::ORL(carry, AddressingMode::NotBit(a1))),
            0xA2 => Some(Instruction::MOV(carry, AddressingMode::Bit(a1))),
            0xA3 => Some(Instruction::INC(AddressingMode::Register(Register::DPTR))),
            0xB0 => Some(Instruction::ANL(carry, AddressingMode::NotBit(a1))),
            0xB2 => Some(Instruction::CPL(AddressingMode::Bit(a1))),
            0xB3 => Some(Instruction::CPL(carry)),
            0xC0 => Some(Instruction::PUSH(AddressingMode::Direct(a1))),
            0xC2 => Some(Instruction::CLR(AddressingMode::Bit(a1))),
            0xC3 => Some(Instruction::CLR(carry)),
            0xD0 => Some(Instruction::POP(AddressingMode::Direct(a1))),
            0xD2 => Some(Instruction::SETB(AddressingMode::Bit(a1))),
            0xD3 => Some(Instruction::SETB(carry)),
            0xE0 => Some(Instruction::MOVX(acc, AddressingMode::IndirectExternal(Register::DPTR))),
            0xE2 => Some(Instruction::MOVX(acc, AddressingMode::IndirectExternal(Register::R0))),
            0xE3 => Some(Instruction::MOVX(acc, AddressingMode::IndirectExternal(Register::R1))),
            0xF0 => Some(Instruction::MOVX(AddressingMode::IndirectExternal(Register::DPTR), acc)),
            0xF2 => Some(Instruction::MOVX(AddressingMode::IndirectExternal(Register::R0), acc)),
            _ => Some(Instruction::MOVX(AddressingMode::IndirectExternal(Register::R1), acc)),
        }
    }
}

fn operand_length(mode: AddressingMode) -> (n: u16)
    ensures
        n == operand_bytes(mode),
{
    match mode {
        AddressingMode::Immediate(_) | AddressingMode::Direct(_) | AddressingMode::Bit(_)
        | AddressingMode::NotBit(_) => 1,
        _ => 0,
    }
}

/// The length in bytes of an instruction's encoding.
pub fn instruction_size(ins: Instruction) -> (n: u16)
    ensures
        n == encoded_length(ins),
{
    match ins {
        Instruction::ACALL(_) | Instruction::AJMP(_) => 2,
        Instruction::LCALL(_) | Instruction::LJMP(_) | Instruction::LoadDptr(_) => 3,
        Instruction::ADD(m) | Instruction::ADDC(m) | Instruction::SUBB(m) | Instruction::CLR(m)
        | Instruction::CPL(m) | Instruction::DEC(m) | Instruction::INC(m) | Instruction::MOVC(m)
        | Instruction::POP(m) | Instruction::PUSH(m) | Instruction::SETB(m) | Instruction::XCH(m)
        | Instruction::XCHD(m) => 1 + operand_length(m),
        Instruction::ANL(m1, m2) | Instruction::MOV(m1, m2) | Instruction::MOVX(m1, m2)
        | Instruction::ORL(m1, m2) | Instruction::XRL(m1, m2) => 1 + operand_length(m1)
            + operand_length(m2),
        Instruction::CJNE(m1, m2, _) => 2 + operand_length(m1) + operand_length(m2),
        Instruction::DJNZ(m, _) | Instruction::JB(m, _) | Instruction::JBC(m, _) | Instruction::JNB(m, _) => 2
            + operand_length(m),
        Instruction::JC(_) | Instruction::JNC(_) | Instruction::JNZ(_) | Instruction::JZ(_)
        | Instruction::SJMP(_) => 2,
        _ => 1,
    }
}

} // verus!
