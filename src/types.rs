use vstd::prelude::*;

verus! {

/// A byte location in one of the 8051 address spaces.
#[derive(Clone, Copy, Debug, PartialEq, Eq, Structural)]
pub enum Address {
    /// Program ROM.
    Code(u16),
    /// External data RAM, reached by `MOVX`.
    ExternalData(u16),
    /// Internal RAM.
    InternalData(u8),
    /// The special function register page (0x80..=0xFF).
    SpecialFunctionRegister(u8),
    /// A single bit, by its 8051 bit address.
    Bit(u8),
}

/// The architectural registers that an operand may name.
#[derive(Clone, Copy, Debug, PartialEq, Eq, Structural)]
pub enum Register {
    R0,
    R1,
    R2,
    R3,
    R4,
    R5,
    R6,
    R7,
    A,
    C,
    PC,
    DPTR,
}

/// The operand forms of the 8051.
#[derive(Clone, Copy, Debug, PartialEq, Eq, Structural)]
pub enum AddressingMode {
    /// A constant carried in the instruction.
    Immediate(u8),
    /// A register.
    Register(Register),
    /// A bit, by bit address.
    Bit(u8),
    /// The complement of a bit (load only).
    NotBit(u8),
    /// Internal RAM or an SFR, by direct byte address.
    Direct(u8),
    /// Internal RAM through `@R0` or `@R1`.
    Indirect(Register),
    /// External RAM through `@R0`, `@R1` or `@DPTR`.
    IndirectExternal(Register),
    /// Code ROM through `@A+DPTR` or `@A+PC`.
    IndirectCode(Register),
}

/// A decoded instruction with its operands.
#[derive(Clone, Copy, Debug, PartialEq, Eq, Structural)]
pub enum Instruction {
    ACALL(u16),
    ADD(AddressingMode),
    ADDC(AddressingMode),
    AJMP(u16),
    ANL(AddressingMode, AddressingMode),
    CJNE(AddressingMode, AddressingMode, i8),
    CLR(AddressingMode),
    CPL(AddressingMode),
    DA,
    DEC(AddressingMode),
    DIV,
    DJNZ(AddressingMode, i8),
    INC(AddressingMode),
    JB(AddressingMode, i8),
    JBC(AddressingMode, i8),
    JC(i8),
    JMP,
    JNB(AddressingMode, i8),
    JNC(i8),
    JNZ(i8),
    JZ(i8),
    LCALL(u16),
    LJMP(u16),
    LoadDptr(u16),
    MOV(AddressingMode, AddressingMode),
    MOVC(AddressingMode),
    MOVX(AddressingMode, AddressingMode),
    MUL,
    NOP,
    ORL(AddressingMode, AddressingMode),
    POP(AddressingMode),
    PUSH(AddressingMode),
    RET,
    RETI,
    RL,
    RLC,
    RR,
    RRC,
    SETB(AddressingMode),
    SJMP(i8),
    SUBB(AddressingMode),
    SWAP,
    XCH(AddressingMode),
    XCHD(AddressingMode),
    XRL(AddressingMode, AddressingMode),
    Undefined,
}

/// The ways an operation of the core, or of its memory, can fail.
#[derive(Clone, Copy, Debug, PartialEq, Eq, Structural)]
pub enum Error {
    /// The opcode at the program counter is not an 8051 instruction.
    Decode,
    /// The memory does not hold the address.
    BadAddress,
    /// The memory holds the address but refuses writes to it.
    ReadOnly,
    /// An operand form that the operation cannot use.
    UnsupportedMode,
    /// A push or call with the stack pointer at 127 or above.
    StackOverflow,
}

/// The working register `Rn` for `n` in `0..8`.
pub open spec fn working_register(n: int) -> Register {
    if n == 0 {
        Register::R0
    } else if n == 1 {
        Register::R1
    } else if n == 2 {
        Register::R2
    } else if n == 3 {
        Register::R3
    } else if n == 4 {
        Register::R4
    } else if n == 5 {
        Register::R5
    } else if n == 6 {
        Register::R6
    } else {
        Register::R7
    }
}

/// The index `n` of a working register `Rn`, if the register is one.
pub open spec fn register_index(r: Register) -> Option<int> {
    match r {
        Register::R0 => Some(0),
        Register::R1 => Some(1),
        Register::R2 => Some(2),
        Register::R3 => Some(3),
        Register::R4 => Some(4),
        Register::R5 => Some(5),
        Register::R6 => Some(6),
        Register::R7 => Some(7),
        _ => None,
    }
}

/// The working register named by the low three bits of an opcode.
pub fn register_from_opcode(id: u8) -> (r: Register)
    ensures
        r == working_register(id as int % 8),
        register_index(r) == Some(id as int % 8),
{
    match id % 8 {
        0 => Register::R0,
        1 => Register::R1,
        2 => Register::R2,
        3 => Register::R3,
        4 => Register::R4,
        5 => Register::R5,
        6 => Register::R6,
        _ => Register::R7,
    }
}

} // verus!
