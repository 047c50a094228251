use vstd::prelude::*;

use crate::memory::Memory;
use crate::semantics::{
    Registers, load_bit, load_spec, register_address, registers_valid, store_outcome, store_spec,
    write_spec,
};
use crate::types::{Address, AddressingMode, Error, Register, register_index};

verus! {

/// An 8051 core: its register file and the memory it owns.
pub struct CPU<A: Memory> {
    pub regs: Registers,
    pub memory: A,
}

impl<A: Memory> CPU<A> {
    /// The core's invariant: a valid register file over a valid memory.
    pub open spec fn valid(&self) -> bool {
        registers_valid(self.regs) && self.memory.valid()
    }

    /// A core with every register zero, over `memory`.
    pub fn new(memory: A) -> (cpu: CPU<A>)
        requires
            memory.valid(),
        ensures
            cpu.valid(),
            cpu.memory == memory,
            cpu.regs == (Registers {
                bank: 0,
                carry_flag: 0,
                auxiliary_carry_flag: 0,
                overflow_flag: 0,
                accumulator: 0,
                b_register: 0,
                stack_pointer: 0,
                data_pointer: 0,
                program_counter: 0,
            }),
    {
        CPU {
            regs: Registers {
                bank: 0,
                carry_flag: 0,
                auxiliary_carry_flag: 0,
                overflow_flag: 0,
                accumulator: 0,
                b_register: 0,
                stack_pointer: 0,
                data_pointer: 0,
                program_counter: 0,
            },
            memory,
        }
    }

    /// The internal RAM address of working register `Rn`.
    fn working_address(&self, n: u8) -> (a: Address)
        requires
            registers_valid(self.regs),
            n < 8,
        ensures
            a == register_address(self.regs, n as int),
    {
        Address::InternalData(self.regs.bank * 8 + n)
    }

    /// Reads a bit by bit address.
    fn load_bit(&mut self, b: u8) -> (r: Result<u8, Error>)
        requires
            old(self).valid(),
        ensures
            final(self).valid(),
            final(self).regs == old(self).regs,
            final(self).memory.cells() == old(self).memory.cells(),
            final(self).memory.writable() == old(self).memory.writable(),
            r == load_bit(old(self).regs, old(self).memory.cells(), b),
    {
        if b < 128 {
            let octet = self.memory.read_memory(Address::InternalData(0x20 + b / 8))?;
            Ok((octet >> (b % 8)) & 1)
        } else if 0xE0 <= b && b <= 0xE7 {
            Ok((self.regs.accumulator >> (b % 8)) & 1)
        } else if 0xF0 <= b && b <= 0xF7 {
            Ok((self.regs.b_register >> (b % 8)) & 1)
        } else {
            self.memory.read_memory(Address::Bit(b))
        }
    }

    /// Loads the value of an operand.
    pub fn load(&mut self, mode: AddressingMode) -> (r: Result<u8, Error>)
        requires
            old(self).valid(),
        ensures
            final(self).valid(),
            final(self).regs == old(self).regs,
            final(self).memory.cells() == old(self).memory.cells(),
            final(self).memory.writable() == old(self).memory.writable(),
            r == load_spec(old(self).regs, old(self).memory.cells(), mode),
    {
        match mode {
            AddressingMode::Immediate(v) => Ok(v),
            AddressingMode::Register(reg) => match reg {
                Register::A => Ok(self.regs.accumulator),
                Register::C => Ok(self.regs.carry_flag % 2),
                Register::PC | Register::DPTR => Err(Error::UnsupportedMode),
                _ => {
                    let n = Self::register_number(reg);
                    let a = self.working_address(n);
                    self.memory.read_memory(a)
                },
            },
            AddressingMode::Direct(a) => {
                if a < 128 {
                    self.memory.read_memory(Address::InternalData(a))
                } else if a == 0x81 {
                    Ok(self.regs.stack_pointer)
                } else if a == 0x82 {
                    Ok((self.regs.data_pointer % 256) as u8)
                } else if a == 0x83 {
                    Ok((self.regs.data_pointer / 256) as u8)
                } else if a == 0xE0 {
                    Ok(self.regs.accumulator)
                } else if a == 0xF0 {
                    Ok(self.regs.b_register)
                } else {
                    self.memory.read_memory(Address::SpecialFunctionRegister(a))
                }
            },
            AddressingMode::Indirect(reg) => match reg {
                Register::R0 | Register::R1 => {
                    let n = Self::register_number(reg);
                    let a = self.working_address(n);
                    let p = self.memory.read_memory(a)?;
                    self.memory.read_memory(Address::InternalData(p))
                },
                _ => Err(Error::UnsupportedMode),
            },
            AddressingMode::IndirectExternal(reg) => match reg {
                Register::R0 | Register::R1 => {
                    let n = Self::register_number(reg);
                    let a = self.working_address(n);
                    let p = self.memory.read_memory(a)?;
                    self.memory.read_memory(Address::ExternalData(p as u16))
                },
                Register::DPTR => self.memory.read_memory(
                    Address::ExternalData(self.regs.data_pointer),
                ),
                _ => Err(Error::UnsupportedMode),
            },
            AddressingMode::IndirectCode(reg) => match reg {
                Register::DPTR => {
                    let a = ((self.regs.data_pointer as u32 + self.regs.accumulator as u32)
                        % 0x10000) as u16;
                    self.memory.read_memory(Address::Code(a))
                },
                Register::PC => {
                    let a = ((self.regs.program_counter as u32 + self.regs.accumulator as u32 + 1)
                        % 0x10000) as u16;
                    self.memory.read_memory(Address::Code(a))
                },
                _ => Err(Error::UnsupportedMode),
            },
            AddressingMode::Bit(b) => self.load_bit(b),
            AddressingMode::NotBit(b) => {
                let v = self.load_bit(b)?;
                if v == 0 {
                    Ok(1)
                } else {
                    Ok(0)
                }
            },
        }
    }

    /// Writes `data` to memory address `a`.
    pub(crate) fn write(&mut self, a: Address, data: u8) -> (r: Result<(), Error>)
        requires
            old(self).valid(),
        ensures
            final(self).valid(),
            final(self).memory.writable() == old(self).memory.writable(),
            final(self).regs == old(self).regs,
            store_outcome(
                write_spec(old(self).regs, old(self).memory.cells(), old(self).memory.writable(), a, data),
                r,
                old(self).regs,
                old(self).memory.cells(),
                final(self).regs,
                final(self).memory.cells(),
            ),
    {
        self.memory.write_memory(a, data)
    }

    /// Stores `data` through an operand.
    pub fn store(&mut self, mode: AddressingMode, data: u8) -> (r: Result<(), Error>)
        requires
            old(self).valid(),
        ensures
            final(self).valid(),
            final(self).memory.writable() == old(self).memory.writable(),
            final(self).regs.program_counter == old(self).regs.program_counter,
            store_outcome(
                store_spec(old(self).regs, old(self).memory.cells(), old(self).memory.writable(), mode, data),
                r,
                old(self).regs,
                old(self).memory.cells(),
                final(self).regs,
                final(self).memory.cells(),
            ),
    {
        match mode {
            AddressingMode::Register(reg) => match reg {
                Register::A => {
                    self.regs.accumulator = data;
                    Ok(())
                },
                Register::C => {
                    self.regs.carry_flag = if data != 0 { 1 } else { 0 };
                    Ok(())
                },
                Register::PC | Register::DPTR => Err(Error::UnsupportedMode),
                _ => {
                    let n = Self::register_number(reg);
                    let a = self.working_address(n);
                    self.write(a, data)
                },
            },
            AddressingMode::Direct(a) => {
                if a < 128 {
                    self.write(Address::InternalData(a), data)
                } else if a == 0x81 {
                    self.regs.stack_pointer = data;
                    Ok(())
                } else if a == 0x82 {
                    self.regs.data_pointer = (self.regs.data_pointer / 256) * 256 + data as u16;
                    Ok(())
                } else if a == 0x83 {
                    self.regs.data_pointer = (data as u16) * 256 + self.regs.data_pointer % 256;
                    Ok(())
                } else if a == 0xE0 {
                    self.regs.accumulator = data;
                    Ok(())
                } else if a == 0xF0 {
                    self.regs.b_register = data;
                    Ok(())
                } else {
                    self.write(Address::SpecialFunctionRegister(a), data)
                }
            },
            AddressingMode::Indirect(reg) => match reg {
                Register::R0 | Register::R1 => {
                    let n = Self::register_number(reg);
                    let a = self.working_address(n);
                    let p = self.memory.read_memory(a)?;
                    self.write(Address::InternalData(p), data)
                },
                _ => Err(Error::UnsupportedMode),
            },
            AddressingMode::IndirectExternal(reg) => match reg {
                Register::R0 | Register::R1 => {
                    let n = Self::register_number(reg);
                    let a = self.working_address(n);
                    let p = self.memory.read_memory(a)?;
                    self.write(Address::ExternalData(p as u16), data)
                },
                Register::DPTR => self.write(Address::ExternalData(self.regs.data_pointer), data),
                _ => Err(Error::UnsupportedMode),
            },
            AddressingMode::Bit(b) => {
                if b < 128 {
                    let a = Address::InternalData(0x20 + b / 8);
                    let octet = self.memory.read_memory(a)?;
                    let k = b % 8;
                    let v = if data != 0 {
                        octet | (1u8 << k)
                    } else {
                        octet & !(1u8 << k)
                    };
                    self.write(a, v)
                } else if 0xE0 <= b && b <= 0xE7 {
                    let k = b % 8;
                    let acc = self.regs.accumulator;
                    self.regs.accumulator = if data != 0 {
                        acc | (1u8 << k)
                    } else {
                        acc & !(1u8 << k)
                    };
                    Ok(())
                } else if 0xF0 <= b && b <= 0xF7 {
                    let k = b % 8;
                    let breg = self.regs.b_register;
                    self.regs.b_register = if data != 0 {
                        breg | (1u8 << k)
                    } else {
                        breg & !(1u8 << k)
                    };
                    Ok(())
                } else {
                    self.write(Address::Bit(b), if data != 0 { 1 } else { 0 })
                }
            },
            _ => Err(Error::UnsupportedMode),
        }
    }

    /// The index `n` of a working register `Rn`.
    fn register_number(reg: Register) -> (n: u8)
        requires
            register_index(reg) is Some,
        ensures
            register_index(reg) == Some(n as int),
            n < 8,
    {
        match reg {
            Register::R0 => 0,
            Register::R1 => 1,
            Register::R2 => 2,
            Register::R3 => 3,
            Register::R4 => 4,
            Register::R5 => 5,
            Register::R6 => 6,
            _ => 7,
        }
    }
}

} // verus!
