use vstd::prelude::*;

use crate::memory::{read_outcome, write_outcome};
use crate::types::{Address, AddressingMode, Error, Register, register_index};

verus! {

/// The architectural register file of the core.
#[derive(Clone, Copy, Debug, PartialEq, Eq, Structural)]
pub struct Registers {
    /// Selects which eight bytes of internal RAM are `R0..R7`.
    pub bank: u8,
    pub carry_flag: u8,
    pub auxiliary_carry_flag: u8,
    pub overflow_flag: u8,
    pub accumulator: u8,
    pub b_register: u8,
    /// Internal RAM index of the top of the stack.
    pub stack_pointer: u8,
    pub data_pointer: u16,
    /// Address of the next byte to fetch.
    pub program_counter: u16,
}

/// The register file invariant: a bank in `0..4` and flags that are 0 or 1.
pub open spec fn registers_valid(r: Registers) -> bool {
    &&& r.bank < 4
    &&& r.carry_flag <= 1
    &&& r.auxiliary_carry_flag <= 1
    &&& r.overflow_flag <= 1
}

/// The first internal RAM byte of the selected register bank.
pub open spec fn bank_base(r: Registers) -> int {
    r.bank * 8
}

/// The internal RAM byte that working register `Rn` aliases.
pub open spec fn register_address(r: Registers, n: int) -> Address {
    Address::InternalData((bank_base(r) + n) as u8)
}

/// The internal RAM byte that holds bit address `b`, for `b < 128`.
pub open spec fn bit_byte(b: u8) -> Address {
    Address::InternalData((0x20 + b / 8) as u8)
}

/// Bit `k` of `x`, as 0 or 1.
pub open spec fn bit_of(x: u8, k: u8) -> u8 {
    (x >> k) & 1
}

/// `x` with bit `k` set when `set` holds, cleared otherwise.
pub open spec fn with_bit(x: u8, k: u8, set: bool) -> u8 {
    if set {
        x | (1u8 << k)
    } else {
        x & !(1u8 << k)
    }
}

/// A byte value read as a truth value, normalised to 0 or 1.
pub open spec fn as_flag(v: u8) -> u8 {
    if v != 0 {
        1
    } else {
        0
    }
}

/// `x + y` in 16-bit wrapping arithmetic.
pub open spec fn add16(x: int, y: int) -> u16 {
    ((x + y) % 0x10000) as u16
}

/// The value of bit address `b`.
pub open spec fn load_bit(r: Registers, m: Map<Address, u8>, b: u8) -> Result<u8, Error> {
    if b < 128 {
        match read_outcome(m, bit_byte(b)) {
            Ok(octet) => Ok(bit_of(octet, b % 8)),
            Err(e) => Err(e),
        }
    } else if 0xE0 <= b <= 0xE7 {
        Ok(bit_of(r.accumulator, b % 8))
    } else if 0xF0 <= b <= 0xF7 {
        Ok(bit_of(r.b_register, b % 8))
    } else {
        read_outcome(m, Address::Bit(b))
    }
}

/// What loading an operand yields, from registers `r` and memory contents `m`.
pub open spec fn load_spec(r: Registers, m: Map<Address, u8>, mode: AddressingMode) -> Result<
    u8,
    Error,
> {
    match mode {
        AddressingMode::Immediate(v) => Ok(v),
        AddressingMode::Register(reg) => match reg {
            Register::A => Ok(r.accumulator),
            Register::C => Ok(r.carry_flag % 2),
            _ => match register_index(reg) {
                Some(n) => read_outcome(m, register_address(r, n)),
                None => Err(Error::UnsupportedMode),
            },
        },
        AddressingMode::Direct(a) => {
            if a < 128 {
                read_outcome(m, Address::InternalData(a))
            } else if a == 0x81 {
                Ok(r.stack_pointer)
            } else if a == 0x82 {
                Ok((r.data_pointer % 256) as u8)
            } else if a == 0x83 {
                Ok((r.data_pointer / 256) as u8)
            } else if a == 0xE0 {
                Ok(r.accumulator)
            } else if a == 0xF0 {
                Ok(r.b_register)
            } else {
                read_outcome(m, Address::SpecialFunctionRegister(a))
            }
        },
        AddressingMode::Indirect(reg) => match reg {
            Register::R0 | Register::R1 => match read_outcome(
                m,
                register_address(r, register_index(reg).unwrap()),
            ) {
                Ok(p) => read_outcome(m, Address::InternalData(p)),
                Err(e) => Err(e),
            },
            _ => Err(Error::UnsupportedMode),
        },
        AddressingMode::IndirectExternal(reg) => match reg {
            Register::R0 | Register::R1 => match read_outcome(
                m,
                register_address(r, register_index(reg).unwrap()),
            ) {
                Ok(p) => read_outcome(m, Address::ExternalData(p as u16)),
                Err(e) => Err(e),
            },
            Register::DPTR => read_outcome(m, Address::ExternalData(r.data_pointer)),
            _ => Err(Error::UnsupportedMode),
        },
        AddressingMode::IndirectCode(reg) => match reg {
            Register::DPTR => read_outcome(
                m,
                Address::Code(add16(r.data_pointer as int, r.accumulator as int)),
            ),
            Register::PC => read_outcome(
                m,
                Address::Code(add16(r.program_counter as int, r.accumulator + 1)),
            ),
            _ => Err(Error::UnsupportedMode),
        },
        AddressingMode::Bit(b) => load_bit(r, m, b),
        AddressingMode::NotBit(b) => match load_bit(r, m, b) {
            Ok(v) => Ok(
                if v == 0 {
                    1
                } else {
                    0
                },
            ),
            Err(e) => Err(e),
        },
    }
}

/// The state after writing `data` to memory address `a`, or the memory's error.
pub open spec fn write_spec(
    r: Registers,
    m: Map<Address, u8>,
    w: Set<Address>,
    a: Address,
    data: u8,
) -> Result<(Registers, Map<Address, u8>), Error> {
    match write_outcome(m, w, a) {
        Ok(_) => Ok((r, m.insert(a, data))),
        Err(e) => Err(e),
    }
}

/// The state after storing `data` through an operand, from registers `r`,
/// memory contents `m` and writable addresses `w`.
pub open spec fn store_spec(
    r: Registers,
    m: Map<Address, u8>,
    w: Set<Address>,
    mode: AddressingMode,
    data: u8,
) -> Result<(Registers, Map<Address, u8>), Error> {
    match mode {
        AddressingMode::Register(reg) => match reg {
            Register::A => Ok((Registers { accumulator: data, ..r }, m)),
            Register::C => Ok((Registers { carry_flag: as_flag(data), ..r }, m)),
            _ => match register_index(reg) {
                Some(n) => write_spec(r, m, w, register_address(r, n), data),
                None => Err(Error::UnsupportedMode),
            },
        },
        AddressingMode::Direct(a) => {
            if a < 128 {
                write_spec(r, m, w, Address::InternalData(a), data)
            } else if a == 0x81 {
                Ok((Registers { stack_pointer: data, ..r }, m))
            } else if a == 0x82 {
                Ok((Registers { data_pointer: ((r.data_pointer / 256) * 256 + data) as u16, ..r }, m))
            } else if a == 0x83 {
                Ok((Registers { data_pointer: (data * 256 + r.data_pointer % 256) as u16, ..r }, m))
            } else if a == 0xE0 {
                Ok((Registers { accumulator: data, ..r }, m))
            } else if a == 0xF0 {
                Ok((Registers { b_register: data, ..r }, m))
            } else {
                write_spec(r, m, w, Address::SpecialFunctionRegister(a), data)
            }
        },
        AddressingMode::Indirect(reg) => match reg {
            Register::R0 | Register::R1 => match read_outcome(
                m,
                register_address(r, register_index(reg).unwrap()),
            ) {
                Ok(p) => write_spec(r, m, w, Address::InternalData(p), data),
                Err(e) => Err(e),
            },
            _ => Err(Error::UnsupportedMode),
        },
        AddressingMode::IndirectExternal(reg) => match reg {
            Register::R0 | Register::R1 => match read_outcome(
                m,
                register_address(r, register_index(reg).unwrap()),
            ) {
                Ok(p) => write_spec(r, m, w, Address::ExternalData(p as u16), data),
                Err(e) => Err(e),
            },
            Register::DPTR => write_spec(r, m, w, Address::ExternalData(r.data_pointer), data),
            _ => Err(Error::UnsupportedMode),
        },
        AddressingMode::Bit(b) => {
            if b < 128 {
                match read_outcome(m, bit_byte(b)) {
                    Ok(octet) => write_spec(
                        r,
                        m,
                        w,
                        bit_byte(b),
                        with_bit(octet, b % 8, data != 0),
                    ),
                    Err(e) => Err(e),
                }
            } else if 0xE0 <= b <= 0xE7 {
                Ok((Registers { accumulator: with_bit(r.accumulator, b % 8, data != 0), ..r }, m))
            } else if 0xF0 <= b <= 0xF7 {
                Ok((Registers { b_register: with_bit(r.b_register, b % 8, data != 0), ..r }, m))
            } else {
                write_spec(r, m, w, Address::Bit(b), as_flag(data))
            }
        },
        _ => Err(Error::UnsupportedMode),
    }
}

/// How an operation's result `res` and final state `(r1, m1)` meet the
/// modelled outcome `spec` from the state `(r0, m0)`: on success the modelled
/// state is reached, on failure the modelled error is returned and nothing
/// changed.
pub open spec fn store_outcome(
    spec: Result<(Registers, Map<Address, u8>), Error>,
    res: Result<(), Error>,
    r0: Registers,
    m0: Map<Address, u8>,
    r1: Registers,
    m1: Map<Address, u8>,
) -> bool {
    match spec {
        Ok((r, m)) => res is Ok && r1 == r && m1 == m,
        Err(e) => res == Err::<(), Error>(e) && r1 == r0 && m1 == m0,
    }
}

} // verus!
