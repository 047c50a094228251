use vstd::prelude::*;

use crate::cpu::CPU;
use crate::memory::{Memory, read_outcome};
use crate::decode::{decode, decode_spec, instruction_length, instruction_size, is_opcode};
use crate::semantics::{Registers, add16, load_spec, store_spec, write_spec};
use crate::types::{Address, AddressingMode, Error, Instruction, Register};

verus! {

/// What executing an instruction leads to: the new registers (with the
/// program counter not yet moved), the new memory contents and the address
/// of the next instruction; or the error that stopped it.
pub type Effect = Result<(Registers, Map<Address, u8>, u16), Error>;

/// A truth value as a flag byte.
pub open spec fn flag(b: bool) -> u8 {
    if b {
        1
    } else {
        0
    }
}

/// The value of a byte read as a two's complement number.
pub open spec fn signed(x: u8) -> int {
    if x >= 128 {
        x - 256
    } else {
        x as int
    }
}

/// The target of a relative branch: `pc` plus the sign-extended offset.
pub open spec fn relative(pc: u16, rel: i8) -> u16 {
    add16(pc as int, rel as int)
}

/// `ADD` (`c == 0`) or `ADDC` (`c` the carry) of `v` into the accumulator.
pub open spec fn add_spec(r: Registers, v: u8, c: u8) -> Registers {
    let sum = r.accumulator + v + c;
    let carry = sum > 0xFF;
    let seven = r.accumulator % 128 + v % 128 + c > 0x7F;
    Registers {
        accumulator: (sum % 256) as u8,
        carry_flag: flag(carry),
        auxiliary_carry_flag: flag(r.accumulator % 16 + v % 16 + c > 0x0F),
        overflow_flag: flag(carry != seven),
        ..r
    }
}

/// `SUBB` of `v` and the carry from the accumulator.
pub open spec fn subb_spec(r: Registers, v: u8) -> Registers {
    let c = r.carry_flag % 2;
    let diff = signed(r.accumulator) - signed(v) - c;
    Registers {
        accumulator: ((r.accumulator - v - c) % 256) as u8,
        carry_flag: flag(v + c > r.accumulator),
        auxiliary_carry_flag: flag(v % 16 + c > r.accumulator % 16),
        overflow_flag: flag(diff < -128 || diff > 127),
        ..r
    }
}

/// `DA A`: decimal adjust of the accumulator after an addition.
pub open spec fn decimal_adjust_spec(r: Registers) -> Registers {
    let t1 = if r.accumulator % 16 > 9 || r.auxiliary_carry_flag == 1 {
        r.accumulator + 6
    } else {
        r.accumulator as int
    };
    let c1 = r.carry_flag == 1 || t1 > 0xFF;
    let a1 = t1 % 256;
    let t2 = if a1 / 16 > 9 || c1 {
        a1 + 0x60
    } else {
        a1
    };
    Registers { accumulator: (t2 % 256) as u8, carry_flag: flag(c1 || t2 > 0xFF), ..r }
}

/// `ADD`, `ADDC`, `SUBB` or `MOVC` with the loaded operand `v`.
pub open spec fn accumulate_spec(ins: Instruction, r: Registers, v: u8) -> Registers {
    match ins {
        Instruction::ADD(_) => add_spec(r, v, 0),
        Instruction::ADDC(_) => add_spec(r, v, r.carry_flag % 2),
        Instruction::SUBB(_) => subb_spec(r, v),
        _ => Registers { accumulator: v, ..r },
    }
}

/// The instructions that act on registers alone.
pub open spec fn register_op_spec(ins: Instruction, r: Registers) -> Registers {
    let a = r.accumulator;
    let c = r.carry_flag % 2;
    match ins {
        Instruction::MUL => {
            let p = a * r.b_register;
            Registers {
                accumulator: (p % 256) as u8,
                b_register: (p / 256) as u8,
                carry_flag: 0,
                overflow_flag: flag(p > 0xFF),
                ..r
            }
        },
        Instruction::DIV => if r.b_register == 0 {
            Registers { carry_flag: 0, overflow_flag: 1, ..r }
        } else {
            Registers {
                accumulator: a / r.b_register,
                b_register: a % r.b_register,
                carry_flag: 0,
                overflow_flag: 0,
                ..r
            }
        },
        Instruction::DA => decimal_adjust_spec(r),
        Instruction::RL => Registers { accumulator: ((a * 2) % 256 + a / 128) as u8, ..r },
        Instruction::RR => Registers { accumulator: (a / 2 + (a % 2) * 128) as u8, ..r },
        Instruction::RLC => Registers {
            accumulator: ((a * 2) % 256 + c) as u8,
            carry_flag: a / 128,
            ..r
        },
        Instruction::RRC => Registers {
            accumulator: (a / 2 + c * 128) as u8,
            carry_flag: a % 2,
            ..r
        },
        Instruction::SWAP => Registers { accumulator: ((a % 16) * 16 + a / 16) as u8, ..r },
        Instruction::LoadDptr(v) => Registers { data_pointer: v, ..r },
        Instruction::INC(_) => Registers { data_pointer: add16(r.data_pointer as int, 1), ..r },
        _ => r,
    }
}

/// The new value that a read-modify-write instruction stores over `x`.
pub open spec fn modify_spec(ins: Instruction, x: u8) -> u8 {
    match ins {
        Instruction::INC(_) => ((x + 1) % 256) as u8,
        Instruction::DEC(_) => ((x + 255) % 256) as u8,
        Instruction::CPL(AddressingMode::Bit(_)) | Instruction::CPL(
            AddressingMode::Register(Register::C),
        ) => flag(x == 0),
        _ => (255 - x) as u8,
    }
}

/// The byte that a two-operand logic instruction stores over its first operand.
pub open spec fn logic_spec(ins: Instruction, x: u8, y: u8) -> u8 {
    match ins {
        Instruction::ANL(_, _) => x & y,
        Instruction::ORL(_, _) => x | y,
        _ => x ^ y,
    }
}

/// A load followed by the rest of an instruction.
pub open spec fn then_load(
    r: Registers,
    m: Map<Address, u8>,
    mode: AddressingMode,
    k: spec_fn(u8) -> Effect,
) -> Effect {
    match load_spec(r, m, mode) {
        Ok(v) => k(v),
        Err(e) => Err(e),
    }
}

/// A store followed by the rest of an instruction.
pub open spec fn then_store(
    r: Registers,
    m: Map<Address, u8>,
    w: Set<Address>,
    mode: AddressingMode,
    data: u8,
    k: spec_fn(Registers, Map<Address, u8>) -> Effect,
) -> Effect {
    match store_spec(r, m, w, mode, data) {
        Ok((r2, m2)) => k(r2, m2),
        Err(e) => Err(e),
    }
}

/// `ACALL`/`LCALL`: pushes the return address `next`, low byte first, and
/// continues at `target`.
pub open spec fn call_spec(r: Registers, m: Map<Address, u8>, w: Set<Address>, next: u16, target: u16) -> Effect {
    if r.stack_pointer >= 127 {
        Err(Error::StackOverflow)
    } else {
        match write_spec(r, m, w, Address::InternalData((r.stack_pointer + 1) as u8), (next % 256) as u8) {
            Ok((r1, m1)) => match write_spec(
                r1,
                m1,
                w,
                Address::InternalData((r.stack_pointer + 2) as u8),
                (next / 256) as u8,
            ) {
                Ok((r2, m2)) => Ok((Registers { stack_pointer: (r.stack_pointer + 2) as u8, ..r2 }, m2, target)),
                Err(e) => Err(e),
            },
            Err(e) => Err(e),
        }
    }
}

/// `RET`/`RETI`: pops the high byte, then the low byte, of the return address.
pub open spec fn return_spec(r: Registers, m: Map<Address, u8>) -> Effect {
    match read_outcome(m, Address::InternalData(r.stack_pointer)) {
        Ok(hi) => match read_outcome(m, Address::InternalData(((r.stack_pointer + 255) % 256) as u8)) {
            Ok(lo) => Ok((
                Registers { stack_pointer: ((r.stack_pointer + 254) % 256) as u8, ..r },
                m,
                (hi * 256 + lo) as u16,
            )),
            Err(e) => Err(e),
        },
        Err(e) => Err(e),
    }
}

/// What executing `ins` does from registers `r`, memory contents `m` and
/// writable addresses `w`, where `next` is the address that follows the
/// instruction.
#[verifier::opaque]
pub open spec fn execute_spec(
    ins: Instruction,
    r: Registers,
    m: Map<Address, u8>,
    w: Set<Address>,
    next: u16,
) -> Effect {
    match ins {
        Instruction::ADD(o) | Instruction::ADDC(o) | Instruction::SUBB(o) | Instruction::MOVC(o) => then_load(
            r,
            m,
            o,
            |v: u8| Ok((accumulate_spec(ins, r, v), m, next)),
        ),
        Instruction::MUL | Instruction::DIV | Instruction::DA | Instruction::RL | Instruction::RR
        | Instruction::RLC | Instruction::RRC | Instruction::SWAP | Instruction::LoadDptr(_)
        | Instruction::NOP | Instruction::INC(AddressingMode::Register(Register::DPTR)) => Ok(
            (register_op_spec(ins, r), m, next),
        ),
        Instruction::INC(o) | Instruction::DEC(o) | Instruction::CPL(o) => then_load(
            r,
            m,
            o,
            |x: u8| then_store(r, m, w, o, modify_spec(ins, x), |r2: Registers, m2: Map<Address, u8>| Ok((r2, m2, next))),
        ),
        Instruction::ANL(o1, o2) | Instruction::ORL(o1, o2) | Instruction::XRL(o1, o2) => then_load(
            r,
            m,
            o1,
            |x: u8|
                then_load(
                    r,
                    m,
                    o2,
                    |y: u8| then_store(r, m, w, o1, logic_spec(ins, x, y), |r2: Registers, m2: Map<Address, u8>| Ok((r2, m2, next))),
                ),
        ),
        Instruction::MOV(d, s) | Instruction::MOVX(d, s) => then_load(
            r,
            m,
            s,
            |v: u8| then_store(r, m, w, d, v, |r2: Registers, m2: Map<Address, u8>| Ok((r2, m2, next))),
        ),
        Instruction::CLR(o) => then_store(r, m, w, o, 0, |r2: Registers, m2: Map<Address, u8>| Ok((r2, m2, next))),
        Instruction::SETB(o) => then_store(r, m, w, o, 1, |r2: Registers, m2: Map<Address, u8>| Ok((r2, m2, next))),
        Instruction::XCH(o) => then_load(
            r,
            m,
            o,
            |x: u8|
                then_store(
                    r,
                    m,
                    w,
                    o,
                    r.accumulator,
                    |r2: Registers, m2: Map<Address, u8>| Ok((Registers { accumulator: x, ..r2 }, m2, next)),
                ),
        ),
        Instruction::XCHD(o) => then_load(
            r,
            m,
            o,
            |x: u8|
                then_store(
                    r,
                    m,
                    w,
                    o,
                    ((x / 16) * 16 + r.accumulator % 16) as u8,
                    |r2: Registers, m2: Map<Address, u8>|
                        Ok((Registers { accumulator: ((r.accumulator / 16) * 16 + x % 16) as u8, ..r2 }, m2, next)),
                ),
        ),
        Instruction::AJMP(a) => Ok((r, m, (next & 0xF800) | a)),
        Instruction::LJMP(a) => Ok((r, m, a)),
        Instruction::SJMP(rel) => Ok((r, m, relative(next, rel))),
        Instruction::JMP => Ok((r, m, add16(r.data_pointer as int, r.accumulator as int))),
        Instruction::JC(rel) => Ok((r, m, if r.carry_flag != 0 { relative(next, rel) } else { next })),
        Instruction::JNC(rel) => Ok((r, m, if r.carry_flag == 0 { relative(next, rel) } else { next })),
        Instruction::JZ(rel) => Ok((r, m, if r.accumulator == 0 { relative(next, rel) } else { next })),
        Instruction::JNZ(rel) => Ok((r, m, if r.accumulator != 0 { relative(next, rel) } else { next })),
        Instruction::JB(b, rel) => then_load(r, m, b, |v: u8| Ok((r, m, if v != 0 { relative(next, rel) } else { next }))),
        Instruction::JNB(b, rel) => then_load(r, m, b, |v: u8| Ok((r, m, if v == 0 { relative(next, rel) } else { next }))),
        Instruction::JBC(b, rel) => then_load(
            r,
            m,
            b,
            |v: u8|
                if v != 0 {
                    then_store(r, m, w, b, 0, |r2: Registers, m2: Map<Address, u8>| Ok((r2, m2, relative(next, rel))))
                } else {
                    Ok((r, m, next))
                },
        ),
        Instruction::CJNE(o1, o2, rel) => then_load(
            r,
            m,
            o1,
            |x: u8|
                then_load(
                    r,
                    m,
                    o2,
                    |y: u8|
                        Ok((
                            Registers { carry_flag: flag(x < y), ..r },
                            m,
                            if x != y { relative(next, rel) } else { next },
                        )),
                ),
        ),
        Instruction::DJNZ(o, rel) => then_load(
            r,
            m,
            o,
            |x: u8|
                then_store(
                    r,
                    m,
                    w,
                    o,
                    ((x + 255) % 256) as u8,
                    |r2: Registers, m2: Map<Address, u8>|
                        Ok((r2, m2, if (x + 255) % 256 != 0 { relative(next, rel) } else { next })),
                ),
        ),
        Instruction::ACALL(a) => call_spec(r, m, w, next, (next & 0xF800) | a),
        Instruction::LCALL(a) => call_spec(r, m, w, next, a),
        Instruction::RET | Instruction::RETI => return_spec(r, m),
        Instruction::PUSH(o) => if r.stack_pointer >= 127 {
            Err(Error::StackOverflow)
        } else {
            then_load(
                r,
                m,
                o,
                |v: u8|
                    match write_spec(r, m, w, Address::InternalData((r.stack_pointer + 1) as u8), v) {
                        Ok((r2, m2)) => Ok((Registers { stack_pointer: (r.stack_pointer + 1) as u8, ..r2 }, m2, next)),
                        Err(e) => Err(e),
                    },
            )
        },
        Instruction::POP(o) => match read_outcome(m, Address::InternalData(r.stack_pointer)) {
            Ok(v) => then_store(
                Registers { stack_pointer: ((r.stack_pointer + 255) % 256) as u8, ..r },
                m,
                w,
                o,
                v,
                |r2: Registers, m2: Map<Address, u8>| Ok((r2, m2, next)),
            ),
            Err(e) => Err(e),
        },
        Instruction::Undefined => Err(Error::Decode),
    }
}

/// Fetches and decodes the instruction at the program counter: the
/// instruction and its length, or the error that stopped the fetch. Only the
/// bytes the instruction occupies are read.
pub open spec fn fetch_spec(r: Registers, m: Map<Address, u8>) -> Result<(Instruction, u16), Error> {
    let pc = r.program_counter;
    match read_outcome(m, Address::Code(pc)) {
        Err(e) => Err(e),
        Ok(op) => if !is_opcode(op) {
            Err(Error::Decode)
        } else {
            let len = instruction_length(op);
            let arg1 = if len >= 2 { read_outcome(m, Address::Code(add16(pc as int, 1))) } else { Ok(0u8) };
            let arg2 = if len >= 3 { read_outcome(m, Address::Code(add16(pc as int, 2))) } else { Ok(0u8) };
            match arg1 {
                Err(e) => Err(e),
                Ok(a1) => match arg2 {
                    Err(e) => Err(e),
                    Ok(a2) => Ok((decode_spec(op, a1, a2).unwrap(), len as u16)),
                },
            }
        },
    }
}

/// One step of the machine from registers `r`, memory contents `m` and
/// writable addresses `w`: fetch, decode, execute, and move the program
/// counter to the next instruction.
pub open spec fn step_spec(r: Registers, m: Map<Address, u8>, w: Set<Address>) -> Result<
    (Registers, Map<Address, u8>),
    Error,
> {
    match fetch_spec(r, m) {
        Err(e) => Err(e),
        Ok((ins, len)) => match execute_spec(ins, r, m, w, add16(r.program_counter as int, len as int)) {
            Ok((r2, m2, pc)) => Ok((Registers { program_counter: pc, ..r2 }, m2)),
            Err(e) => Err(e),
        },
    }
}

/// The state a failed step leaves behind: a failed fetch changes nothing, a
/// failed instruction leaves its `failure_state`.
pub open spec fn step_failure(r: Registers, m: Map<Address, u8>, w: Set<Address>) -> (
    Registers,
    Map<Address, u8>,
) {
    match fetch_spec(r, m) {
        Err(_) => (r, m),
        Ok((ins, len)) => failure_state(ins, r, m, w, add16(r.program_counter as int, len as int)),
    }
}

/// How a step's result `res` and final state `(r1, m1)` meet the modelled
/// step: on success the modelled state; on failure the modelled error and
/// the state `failed` that the failure leaves, whose program counter is
/// where it was.
pub open spec fn step_outcome(
    spec: Result<(Registers, Map<Address, u8>), Error>,
    failed: (Registers, Map<Address, u8>),
    res: Result<(), Error>,
    r1: Registers,
    m1: Map<Address, u8>,
) -> bool {
    match spec {
        Ok((r, m)) => res is Ok && r1 == r && m1 == m,
        Err(e) => res == Err::<(), Error>(e) && r1 == failed.0 && m1 == failed.1,
    }
}

/// The state a failed instruction leaves behind. Effects made before the
/// failing memory operation are not rolled back: `POP` has already moved the
/// stack pointer down when its store fails, and a call has already written
/// the low byte of the return address when its second write fails. Every
/// other instruction fails before it changes anything.
pub open spec fn failure_state(
    ins: Instruction,
    r: Registers,
    m: Map<Address, u8>,
    w: Set<Address>,
    next: u16,
) -> (Registers, Map<Address, u8>) {
    match ins {
        Instruction::POP(_) => match read_outcome(m, Address::InternalData(r.stack_pointer)) {
            Ok(_) => (Registers { stack_pointer: ((r.stack_pointer + 255) % 256) as u8, ..r }, m),
            Err(_) => (r, m),
        },
        Instruction::ACALL(_) | Instruction::LCALL(_) => if r.stack_pointer >= 127 {
            (r, m)
        } else {
            match write_spec(r, m, w, Address::InternalData((r.stack_pointer + 1) as u8), (next % 256) as u8) {
                Ok((r1, m1)) => (r1, m1),
                Err(_) => (r, m),
            }
        },
        _ => (r, m),
    }
}

/// How an execution's result `res` and final state `(r1, m1)` meet the
/// modelled effect: on success the modelled state and next address, on
/// failure the modelled error and the state `failed` that the failure leaves.
pub open spec fn effect_outcome(
    spec: Effect,
    failed: (Registers, Map<Address, u8>),
    res: Result<u16, Error>,
    r1: Registers,
    m1: Map<Address, u8>,
) -> bool {
    match spec {
        Ok((r, m, pc)) => res == Ok::<u16, Error>(pc) && r1 == r && m1 == m,
        Err(e) => res == Err::<u16, Error>(e) && r1 == failed.0 && m1 == failed.1,
    }
}


/// The register file after `ADD` (`c == 0`) or `ADDC` (`c` the carry) of `v`.
fn add_registers(r: Registers, v: u8, c: u8) -> (out: Registers)
    requires
        c <= 1,
    ensures
        out == add_spec(r, v, c),
{
    let a = r.accumulator;
    let sum: u16 = a as u16 + v as u16 + c as u16;
    let carry = sum > 0xFF;
    let seven = a % 128 + v % 128 + c > 0x7F;
    Registers {
        accumulator: (sum % 256) as u8,
        carry_flag: if carry { 1 } else { 0 },
        auxiliary_carry_flag: if a % 16 + v % 16 + c > 0x0F { 1 } else { 0 },
        overflow_flag: if carry != seven { 1 } else { 0 },
        ..r
    }
}

/// The register file after `SUBB` of `v`.
fn subb_registers(r: Registers, v: u8) -> (out: Registers)
    ensures
        out == subb_spec(r, v),
{
    let a = r.accumulator;
    let c = r.carry_flag % 2;
    let sa: i16 = if a >= 128 { a as i16 - 256 } else { a as i16 };
    let sv: i16 = if v >= 128 { v as i16 - 256 } else { v as i16 };
    let diff: i16 = sa - sv - c as i16;
    Registers {
        accumulator: ((a as i16 - v as i16 - c as i16 + 512) % 256) as u8,
        carry_flag: if v as u16 + c as u16 > a as u16 { 1 } else { 0 },
        auxiliary_carry_flag: if v % 16 + c > a % 16 { 1 } else { 0 },
        overflow_flag: if diff < -128 || diff > 127 { 1 } else { 0 },
        ..r
    }
}

/// The target of a relative branch from `pc`.
fn relative_target(pc: u16, rel: i8) -> (t: u16)
    ensures
        t == relative(pc, rel),
{
    ((pc as i32 + rel as i32 + 0x10000) % 0x10000) as u16
}

impl<A: Memory> CPU<A> {
    /// The instructions that act on the register file alone.
    fn execute_register_op(&mut self, ins: Instruction)
        requires
            old(self).valid(),
        ensures
            final(self).valid(),
            final(self).memory == old(self).memory,
            final(self).regs == register_op_spec(ins, old(self).regs),
    {
        let a = self.regs.accumulator;
        let c = self.regs.carry_flag % 2;
        match ins {
            Instruction::MUL => {
                let b = self.regs.b_register;
                proof {
                    assert(a * b <= 255 * 255) by (nonlinear_arith)
                        requires
                            a <= 255,
                            b <= 255,
                    ;
                }
                let p: u16 = a as u16 * b as u16;
                self.regs.accumulator = (p % 256) as u8;
                self.regs.b_register = (p / 256) as u8;
                self.regs.carry_flag = 0;
                self.regs.overflow_flag = if p > 0xFF { 1 } else { 0 };
            },
            Instruction::DIV => {
                let b = self.regs.b_register;
                if b == 0 {
                    self.regs.carry_flag = 0;
                    self.regs.overflow_flag = 1;
                } else {
                    self.regs.accumulator = a / b;
                    self.regs.b_register = a % b;
                    self.regs.carry_flag = 0;
                    self.regs.overflow_flag = 0;
                }
            },
            Instruction::DA => {
                let t1: u16 = if a % 16 > 9 || self.regs.auxiliary_carry_flag == 1 {
                    a as u16 + 6
                } else {
                    a as u16
                };
                let c1 = self.regs.carry_flag == 1 || t1 > 0xFF;
                let a1 = t1 % 256;
                let t2: u16 = if a1 / 16 > 9 || c1 { a1 + 0x60 } else { a1 };
                self.regs.accumulator = (t2 % 256) as u8;
                self.regs.carry_flag = if c1 || t2 > 0xFF { 1 } else { 0 };
            },
            Instruction::RL => {
                self.regs.accumulator = ((a as u16 * 2) % 256 + a as u16 / 128) as u8;
            },
            Instruction::RR => {
                self.regs.accumulator = a / 2 + (a % 2) * 128;
            },
            Instruction::RLC => {
                self.regs.accumulator = ((a as u16 * 2) % 256 + c as u16) as u8;
                self.regs.carry_flag = a / 128;
            },
            Instruction::RRC => {
                self.regs.accumulator = a / 2 + c * 128;
                self.regs.carry_flag = a % 2;
            },
            Instruction::SWAP => {
                self.regs.accumulator = (a % 16) * 16 + a / 16;
            },
            Instruction::LoadDptr(v) => {
                self.regs.data_pointer = v;
            },
            Instruction::INC(_) => {
                self.regs.data_pointer = ((self.regs.data_pointer as u32 + 1) % 0x10000) as u16;
            },
            _ => {},
        }
    }

    /// `ADD`, `ADDC`, `SUBB` and `MOVC`: a load into the accumulator.
    fn execute_accumulate(&mut self, ins: Instruction, o: AddressingMode) -> (r: Result<(), Error>)
        requires
            old(self).valid(),
        ensures
            final(self).valid(),
            final(self).memory.writable() == old(self).memory.writable(),
            final(self).memory.cells() == old(self).memory.cells(),
            match load_spec(old(self).regs, old(self).memory.cells(), o) {
                Ok(v) => r is Ok && final(self).regs == accumulate_spec(ins, old(self).regs, v),
                Err(e) => r == Err::<(), Error>(e) && final(self).regs == old(self).regs,
            },
    {
        let v = match self.load(o) {
            Ok(v) => v,
            Err(e) => return Err(e),
        };
        let r0 = self.regs;
        self.regs = match ins {
            Instruction::ADD(_) => add_registers(r0, v, 0),
            Instruction::ADDC(_) => add_registers(r0, v, r0.carry_flag % 2),
            Instruction::SUBB(_) => subb_registers(r0, v),
            _ => Registers { accumulator: v, ..r0 },
        };
        Ok(())
    }

    /// Read-modify-write: `INC`, `DEC` and `CPL` of an operand.
    fn execute_modify(&mut self, ins: Instruction, next: u16) -> (r: Result<u16, Error>)
        requires
            old(self).valid(),
            (ins is INC || ins is DEC || ins is CPL) && ins != Instruction::INC(AddressingMode::Register(Register::DPTR)),
        ensures
            final(self).valid(),
            final(self).memory.writable() == old(self).memory.writable(),
            final(self).regs.program_counter == old(self).regs.program_counter,
            effect_outcome(
                execute_spec(ins, old(self).regs, old(self).memory.cells(), old(self).memory.writable(), next),
                failure_state(ins, old(self).regs, old(self).memory.cells(), old(self).memory.writable(), next),
                r,
                final(self).regs,
                final(self).memory.cells(),
            ),
    {
        proof {
            reveal(execute_spec);
        }
        let o = match ins {
            Instruction::INC(o) | Instruction::DEC(o) | Instruction::CPL(o) => o,
            _ => AddressingMode::Immediate(0),
        };
        let x = self.load(o)?;
        let y = match ins {
            Instruction::INC(_) => ((x as u16 + 1) % 256) as u8,
            Instruction::DEC(_) => ((x as u16 + 255) % 256) as u8,
            _ => match o {
                AddressingMode::Bit(_) | AddressingMode::Register(Register::C) => if x == 0 {
                    1
                } else {
                    0
                },
                _ => 255 - x,
            },
        };
        self.store(o, y)?;
        Ok(next)
    }

    /// Two-operand logic: `ANL`, `ORL` and `XRL`, stored over the first operand.
    fn execute_logic(&mut self, ins: Instruction, next: u16) -> (r: Result<u16, Error>)
        requires
            old(self).valid(),
            ins is ANL || ins is ORL || ins is XRL,
        ensures
            final(self).valid(),
            final(self).memory.writable() == old(self).memory.writable(),
            final(self).regs.program_counter == old(self).regs.program_counter,
            effect_outcome(
                execute_spec(ins, old(self).regs, old(self).memory.cells(), old(self).memory.writable(), next),
                failure_state(ins, old(self).regs, old(self).memory.cells(), old(self).memory.writable(), next),
                r,
                final(self).regs,
                final(self).memory.cells(),
            ),
    {
        proof {
            reveal(execute_spec);
        }
        let (o1, o2) = match ins {
            Instruction::ANL(o1, o2) | Instruction::ORL(o1, o2) | Instruction::XRL(o1, o2) => (o1, o2),
            _ => (AddressingMode::Immediate(0), AddressingMode::Immediate(0)),
        };
        let x = self.load(o1)?;
        let y = self.load(o2)?;
        let v = match ins {
            Instruction::ANL(_, _) => x & y,
            Instruction::ORL(_, _) => x | y,
            _ => x ^ y,
        };
        self.store(o1, v)?;
        Ok(next)
    }

    /// Data movement: `MOV`, `MOVX`, `CLR`, `SETB`, `XCH` and `XCHD`.
    fn execute_move(&mut self, ins: Instruction, next: u16) -> (r: Result<u16, Error>)
        requires
            old(self).valid(),
            ins is MOV || ins is MOVX || ins is CLR || ins is SETB || ins is XCH || ins is XCHD,
        ensures
            final(self).valid(),
            final(self).memory.writable() == old(self).memory.writable(),
            final(self).regs.program_counter == old(self).regs.program_counter,
            effect_outcome(
                execute_spec(ins, old(self).regs, old(self).memory.cells(), old(self).memory.writable(), next),
                failure_state(ins, old(self).regs, old(self).memory.cells(), old(self).memory.writable(), next),
                r,
                final(self).regs,
                final(self).memory.cells(),
            ),
    {
        proof {
            reveal(execute_spec);
        }
        match ins {
            Instruction::MOV(d, s) | Instruction::MOVX(d, s) => {
                let v = self.load(s)?;
                self.store(d, v)?;
            },
            Instruction::CLR(o) => {
                self.store(o, 0)?;
            },
            Instruction::SETB(o) => {
                self.store(o, 1)?;
            },
            Instruction::XCH(o) => {
                let x = self.load(o)?;
                let a = self.regs.accumulator;
                self.store(o, a)?;
                self.regs.accumulator = x;
            },
            Instruction::XCHD(o) => {
                let x = self.load(o)?;
                let a = self.regs.accumulator;
                self.store(o, (x / 16) * 16 + a % 16)?;
                self.regs.accumulator = (a / 16) * 16 + x % 16;
            },
            _ => {},
        }
        Ok(next)
    }

    /// Unconditional jumps and the branches that test a register.
    fn execute_jump(&mut self, ins: Instruction, next: u16) -> (r: Result<u16, Error>)
        requires
            old(self).valid(),
            ins is AJMP || ins is LJMP || ins is SJMP || ins is JMP || ins is JC || ins is JNC || ins is JZ || ins is JNZ,
        ensures
            final(self).valid(),
            final(self).memory.writable() == old(self).memory.writable(),
            final(self).regs.program_counter == old(self).regs.program_counter,
            effect_outcome(
                execute_spec(ins, old(self).regs, old(self).memory.cells(), old(self).memory.writable(), next),
                failure_state(ins, old(self).regs, old(self).memory.cells(), old(self).memory.writable(), next),
                r,
                final(self).regs,
                final(self).memory.cells(),
            ),
    {
        proof {
            reveal(execute_spec);
        }
        let taken = match ins {
            Instruction::JC(_) => self.regs.carry_flag != 0,
            Instruction::JNC(_) => self.regs.carry_flag == 0,
            Instruction::JZ(_) => self.regs.accumulator == 0,
            Instruction::JNZ(_) => self.regs.accumulator != 0,
            _ => true,
        };
        match ins {
            Instruction::AJMP(a) => Ok((next & 0xF800) | a),
            Instruction::LJMP(a) => Ok(a),
            Instruction::JMP => Ok(
                ((self.regs.data_pointer as u32 + self.regs.accumulator as u32) % 0x10000) as u16,
            ),
            Instruction::SJMP(rel) | Instruction::JC(rel) | Instruction::JNC(rel) | Instruction::JZ(rel)
            | Instruction::JNZ(rel) => if taken {
                Ok(relative_target(next, rel))
            } else {
                Ok(next)
            },
            _ => Ok(next),
        }
    }

    /// The branches that test an operand: `JB`, `JNB`, `JBC`, `CJNE` and `DJNZ`.
    fn execute_test(&mut self, ins: Instruction, next: u16) -> (r: Result<u16, Error>)
        requires
            old(self).valid(),
            ins is JB || ins is JNB || ins is JBC || ins is CJNE || ins is DJNZ,
        ensures
            final(self).valid(),
            final(self).memory.writable() == old(self).memory.writable(),
            final(self).regs.program_counter == old(self).regs.program_counter,
            effect_outcome(
                execute_spec(ins, old(self).regs, old(self).memory.cells(), old(self).memory.writable(), next),
                failure_state(ins, old(self).regs, old(self).memory.cells(), old(self).memory.writable(), next),
                r,
                final(self).regs,
                final(self).memory.cells(),
            ),
    {
        proof {
            reveal(execute_spec);
        }
        match ins {
            Instruction::JB(b, rel) => {
                let v = self.load(b)?;
                Ok(if v != 0 { relative_target(next, rel) } else { next })
            },
            Instruction::JNB(b, rel) => {
                let v = self.load(b)?;
                Ok(if v == 0 { relative_target(next, rel) } else { next })
            },
            Instruction::JBC(b, rel) => {
                let v = self.load(b)?;
                if v != 0 {
                    self.store(b, 0)?;
                    Ok(relative_target(next, rel))
                } else {
                    Ok(next)
                }
            },
            Instruction::CJNE(o1, o2, rel) => {
                let x = self.load(o1)?;
                let y = self.load(o2)?;
                self.regs.carry_flag = if x < y { 1 } else { 0 };
                Ok(if x != y { relative_target(next, rel) } else { next })
            },
            Instruction::DJNZ(o, rel) => {
                let x = self.load(o)?;
                let d = ((x as u16 + 255) % 256) as u8;
                self.store(o, d)?;
                Ok(if d != 0 { relative_target(next, rel) } else { next })
            },
            _ => Ok(next),
        }
    }

    /// The stack instructions: calls, returns, `PUSH` and `POP`.
    fn execute_stack(&mut self, ins: Instruction, next: u16) -> (r: Result<u16, Error>)
        requires
            old(self).valid(),
            ins is ACALL || ins is LCALL || ins is RET || ins is RETI || ins is PUSH || ins is POP,
        ensures
            final(self).valid(),
            final(self).memory.writable() == old(self).memory.writable(),
            final(self).regs.program_counter == old(self).regs.program_counter,
            effect_outcome(
                execute_spec(ins, old(self).regs, old(self).memory.cells(), old(self).memory.writable(), next),
                failure_state(ins, old(self).regs, old(self).memory.cells(), old(self).memory.writable(), next),
                r,
                final(self).regs,
                final(self).memory.cells(),
            ),
    {
        proof {
            reveal(execute_spec);
        }
        let sp = self.regs.stack_pointer;
        match ins {
            Instruction::ACALL(_) | Instruction::LCALL(_) => {
                let target = match ins {
                    Instruction::ACALL(a) => (next & 0xF800) | a,
                    Instruction::LCALL(a) => a,
                    _ => next,
                };
                if sp >= 127 {
                    return Err(Error::StackOverflow);
                }
                self.write(Address::InternalData(sp + 1), (next % 256) as u8)?;
                self.write(Address::InternalData(sp + 2), (next / 256) as u8)?;
                self.regs.stack_pointer = sp + 2;
                Ok(target)
            },
            Instruction::PUSH(o) => {
                if sp >= 127 {
                    return Err(Error::StackOverflow);
                }
                let v = self.load(o)?;
                self.write(Address::InternalData(sp + 1), v)?;
                self.regs.stack_pointer = sp + 1;
                Ok(next)
            },
            Instruction::POP(o) => {
                let v = self.memory.read_memory(Address::InternalData(sp))?;
                self.regs.stack_pointer = ((sp as u16 + 255) % 256) as u8;
                self.store(o, v)?;
                Ok(next)
            },
            _ => {
                let hi = self.memory.read_memory(Address::InternalData(sp))?;
                let lo = self.memory.read_memory(Address::InternalData(((sp as u16 + 255) % 256) as u8))?;
                self.regs.stack_pointer = ((sp as u16 + 254) % 256) as u8;
                Ok(hi as u16 * 256 + lo as u16)
            },
        }
    }

    /// Executes `ins`, where `next` is the address of the instruction after
    /// it; returns the address of the instruction to run next.
    pub fn execute(&mut self, ins: Instruction, next: u16) -> (r: Result<u16, Error>)
        requires
            old(self).valid(),
        ensures
            final(self).valid(),
            final(self).memory.writable() == old(self).memory.writable(),
            final(self).regs.program_counter == old(self).regs.program_counter,
            effect_outcome(
                execute_spec(ins, old(self).regs, old(self).memory.cells(), old(self).memory.writable(), next),
                failure_state(ins, old(self).regs, old(self).memory.cells(), old(self).memory.writable(), next),
                r,
                final(self).regs,
                final(self).memory.cells(),
            ),
    {
        proof {
            reveal(execute_spec);
        }
        match ins {
            Instruction::ADD(o) | Instruction::ADDC(o) | Instruction::SUBB(o) | Instruction::MOVC(o) => {
                self.execute_accumulate(ins, o)?;
                Ok(next)
            },
            Instruction::MUL | Instruction::DIV | Instruction::DA | Instruction::RL | Instruction::RR
            | Instruction::RLC | Instruction::RRC | Instruction::SWAP | Instruction::LoadDptr(_)
            | Instruction::NOP | Instruction::INC(AddressingMode::Register(Register::DPTR)) => {
                self.execute_register_op(ins);
                Ok(next)
            },
            Instruction::INC(_) | Instruction::DEC(_) | Instruction::CPL(_) => self.execute_modify(ins, next),
            Instruction::ANL(_, _) | Instruction::ORL(_, _) | Instruction::XRL(_, _) => self.execute_logic(ins, next),
            Instruction::MOV(_, _) | Instruction::MOVX(_, _) | Instruction::CLR(_) | Instruction::SETB(_)
            | Instruction::XCH(_) | Instruction::XCHD(_) => self.execute_move(ins, next),
            Instruction::AJMP(_) | Instruction::LJMP(_) | Instruction::SJMP(_) | Instruction::JMP
            | Instruction::JC(_) | Instruction::JNC(_) | Instruction::JZ(_) | Instruction::JNZ(_) => self.execute_jump(ins, next),
            Instruction::JB(_, _) | Instruction::JNB(_, _) | Instruction::JBC(_, _) | Instruction::CJNE(_, _, _)
            | Instruction::DJNZ(_, _) => self.execute_test(ins, next),
            Instruction::ACALL(_) | Instruction::LCALL(_) | Instruction::RET | Instruction::RETI
            | Instruction::PUSH(_) | Instruction::POP(_) => self.execute_stack(ins, next),
            Instruction::Undefined => Err(Error::Decode),
        }
    }

    /// Fetches and decodes the instruction at the program counter, reading
    /// only the bytes it occupies; returns it with its length.
    pub fn decode_next_instruction(&mut self) -> (r: Result<(Instruction, u16), Error>)
        requires
            old(self).valid(),
        ensures
            final(self).valid(),
            final(self).regs == old(self).regs,
            final(self).memory.cells() == old(self).memory.cells(),
            final(self).memory.writable() == old(self).memory.writable(),
            r == fetch_spec(old(self).regs, old(self).memory.cells()),
    {
        let pc = self.regs.program_counter;
        let op = self.memory.read_memory(Address::Code(pc))?;
        let len = match decode(op, 0, 0) {
            Some(shape) => instruction_size(shape),
            None => {
                return Err(Error::Decode);
            },
        };
        let a1 = if len >= 2 {
            self.memory.read_memory(Address::Code(((pc as u32 + 1) % 0x10000) as u16))?
        } else {
            0
        };
        let a2 = if len >= 3 {
            self.memory.read_memory(Address::Code(((pc as u32 + 2) % 0x10000) as u16))?
        } else {
            0
        };
        match decode(op, a1, a2) {
            Some(ins) => Ok((ins, len)),
            None => Err(Error::Decode),
        }
    }

    /// Executes one instruction: fetch and decode at the program counter,
    /// execute, and move the program counter on. On an error the program
    /// counter stays where it was.
    pub fn step(&mut self) -> (r: Result<(), Error>)
        requires
            old(self).valid(),
        ensures
            final(self).valid(),
            final(self).memory.writable() == old(self).memory.writable(),
            r is Err ==> final(self).regs.program_counter == old(self).regs.program_counter,
            step_outcome(
                step_spec(old(self).regs, old(self).memory.cells(), old(self).memory.writable()),
                step_failure(old(self).regs, old(self).memory.cells(), old(self).memory.writable()),
                r,
                final(self).regs,
                final(self).memory.cells(),
            ),
    {
        let (ins, len) = self.decode_next_instruction()?;
        let next = ((self.regs.program_counter as u32 + len as u32) % 0x10000) as u16;
        let target = self.execute(ins, next)?;
        self.regs.program_counter = target;
        Ok(())
    }
}

} // verus!
