use vstd::prelude::*;

use crate::decode::{decode_spec, instruction_length};
use crate::execute::{
    Effect, add_spec, call_spec, execute_spec, fetch_spec, flag, return_spec, signed, step_spec,
};
use crate::memory::read_outcome;
use crate::semantics::{
    Registers, bank_base, bit_byte, bit_of, load_spec, register_address, registers_valid,
    store_spec, with_bit, write_spec, add16,
};
use crate::types::{Address, AddressingMode, Error, Instruction, Register, register_index, working_register};

verus! {

/// Reading back bit `k` after setting it to `set`.
proof fn lemma_bit_round_trip(x: u8, k: u8, set: bool)
    requires
        k < 8,
    ensures
        bit_of(with_bit(x, k, set), k) == flag(set),
{
    if set {
        assert(((x | (1u8 << k)) >> k) & 1 == 1) by (bit_vector)
            requires
                k < 8,
        ;
    } else {
        assert(((x & !(1u8 << k)) >> k) & 1 == 0) by (bit_vector)
            requires
                k < 8,
        ;
    }
}

/// Whether `mode` is an `@Ri` operand whose pointer is the address of `Ri`
/// itself, so that a store through it overwrites the pointer.
pub open spec fn indirect_points_at_itself(r: Registers, m: Map<Address, u8>, mode: AddressingMode) -> bool {
    match mode {
        AddressingMode::Indirect(reg) => match register_index(reg) {
            Some(n) => m.contains_key(register_address(r, n)) && Address::InternalData(
                m[register_address(r, n)],
            ) == register_address(r, n),
            None => false,
        },
        _ => false,
    }
}

/// Storing through an operand and loading it back gives the value stored.
/// A bit or the carry holds one bit, so only 0 and 1 come back; and an
/// `@Ri` whose pointer is `Ri`'s own address overwrites the pointer.
pub proof fn store_then_load(r: Registers, m: Map<Address, u8>, w: Set<Address>, mode: AddressingMode, v: u8)
    requires
        registers_valid(r),
        store_spec(r, m, w, mode, v) is Ok,
        (mode is Bit || mode == AddressingMode::Register(Register::C)) ==> v <= 1,
        !indirect_points_at_itself(r, m, mode),
    ensures
        ({
            let (r2, m2) = store_spec(r, m, w, mode, v)->Ok_0;
            load_spec(r2, m2, mode) == Ok::<u8, Error>(v)
        }),
{
    let (r2, m2) = store_spec(r, m, w, mode, v)->Ok_0;
    match mode {
        AddressingMode::Bit(b) => {
            if b < 128 {
                let octet = m[bit_byte(b)];
                lemma_bit_round_trip(octet, b % 8, v != 0);
            } else if 0xE0 <= b <= 0xE7 {
                lemma_bit_round_trip(r.accumulator, b % 8, v != 0);
            } else if 0xF0 <= b <= 0xF7 {
                lemma_bit_round_trip(r.b_register, b % 8, v != 0);
            }
        },
        _ => {},
    }
}

/// Working register `Rn` reads as the direct address `bank_base + n` and as
/// internal RAM byte `bank_base + n`.
pub proof fn register_is_direct_byte(r: Registers, m: Map<Address, u8>, n: int)
    requires
        registers_valid(r),
        0 <= n < 8,
    ensures
        load_spec(r, m, AddressingMode::Register(working_register(n))) == load_spec(
            r,
            m,
            AddressingMode::Direct((bank_base(r) + n) as u8),
        ),
        load_spec(r, m, AddressingMode::Register(working_register(n))) == read_outcome(
            m,
            Address::InternalData((bank_base(r) + n) as u8),
        ),
{
}

/// The state and next address of a successful effect.
pub open spec fn effect_state(e: Effect) -> (Registers, Map<Address, u8>, u16) {
    e->Ok_0
}

proof fn lemma_execute_lcall(r: Registers, m: Map<Address, u8>, w: Set<Address>, target: u16, next: u16)
    ensures
        execute_spec(Instruction::LCALL(target), r, m, w, next) == call_spec(r, m, w, next, target),
{
    reveal(execute_spec);
}

proof fn lemma_execute_ret(r: Registers, m: Map<Address, u8>, w: Set<Address>, next: u16)
    ensures
        execute_spec(Instruction::RET, r, m, w, next) == return_spec(r, m),
{
    reveal(execute_spec);
}

proof fn lemma_execute_push(r: Registers, m: Map<Address, u8>, w: Set<Address>, a: u8, next: u16)
    ensures
        execute_spec(Instruction::PUSH(AddressingMode::Direct(a)), r, m, w, next) == push_spec(r, m, w, a, next),
{
    reveal(execute_spec);
}

proof fn lemma_execute_pop(r: Registers, m: Map<Address, u8>, w: Set<Address>, b: u8, next: u16)
    ensures
        execute_spec(Instruction::POP(AddressingMode::Direct(b)), r, m, w, next) == pop_spec(r, m, w, b, next),
{
    reveal(execute_spec);
}

/// `PUSH` of direct address `a`.
spec fn push_spec(r: Registers, m: Map<Address, u8>, w: Set<Address>, a: u8, next: u16) -> Effect {
    if r.stack_pointer >= 127 {
        Err(Error::StackOverflow)
    } else {
        match load_spec(r, m, AddressingMode::Direct(a)) {
            Ok(v) => match write_spec(r, m, w, Address::InternalData((r.stack_pointer + 1) as u8), v) {
                Ok((r2, m2)) => Ok((Registers { stack_pointer: (r.stack_pointer + 1) as u8, ..r2 }, m2, next)),
                Err(e) => Err(e),
            },
            Err(e) => Err(e),
        }
    }
}

/// `POP` to direct address `b`.
spec fn pop_spec(r: Registers, m: Map<Address, u8>, w: Set<Address>, b: u8, next: u16) -> Effect {
    match read_outcome(m, Address::InternalData(r.stack_pointer)) {
        Ok(v) => match store_spec(
            Registers { stack_pointer: ((r.stack_pointer + 255) % 256) as u8, ..r },
            m,
            w,
            AddressingMode::Direct(b),
            v,
        ) {
            Ok((r2, m2)) => Ok((r2, m2, next)),
            Err(e) => Err(e),
        },
        Err(e) => Err(e),
    }
}

/// `PUSH a` then `POP b` moves the byte at direct address `a` to `b` and
/// leaves the stack pointer where it was (unless `b` is the stack pointer
/// itself); with `b == a` the registers are as before, and memory is as
/// before but for the pushed byte left above the top of the stack.
pub proof fn push_then_pop(
    r: Registers,
    m: Map<Address, u8>,
    w: Set<Address>,
    a: u8,
    b: u8,
    next1: u16,
    next2: u16,
)
    requires
        registers_valid(r),
        execute_spec(Instruction::PUSH(AddressingMode::Direct(a)), r, m, w, next1) is Ok,
        execute_spec(
            Instruction::POP(AddressingMode::Direct(b)),
            effect_state(execute_spec(Instruction::PUSH(AddressingMode::Direct(a)), r, m, w, next1)).0,
            effect_state(execute_spec(Instruction::PUSH(AddressingMode::Direct(a)), r, m, w, next1)).1,
            w,
            next2,
        ) is Ok,
    ensures
        ({
            let v = load_spec(r, m, AddressingMode::Direct(a))->Ok_0;
            let (r1, m1, _) = effect_state(
                execute_spec(Instruction::PUSH(AddressingMode::Direct(a)), r, m, w, next1),
            );
            let (r2, m2, pc) = effect_state(
                execute_spec(Instruction::POP(AddressingMode::Direct(b)), r1, m1, w, next2),
            );
            &&& pc == next2
            &&& b != 0x81 ==> r2.stack_pointer == r.stack_pointer
            &&& load_spec(r2, m2, AddressingMode::Direct(b)) == Ok::<u8, Error>(v)
            &&& b == a ==> r2 == r && m2 == m.insert(
                Address::InternalData((r.stack_pointer + 1) as u8),
                v,
            )
        }),
{
    lemma_execute_push(r, m, w, a, next1);
    let v = load_spec(r, m, AddressingMode::Direct(a))->Ok_0;
    let (r1, m1, _) = push_spec(r, m, w, a, next1)->Ok_0;
    lemma_execute_pop(r1, m1, w, b, next2);
    let slot = Address::InternalData((r.stack_pointer + 1) as u8);
    assert(m1 == m.insert(slot, v));
    assert(r1.stack_pointer == r.stack_pointer + 1);
    assert(m1[Address::InternalData(r1.stack_pointer)] == v);
    let rp = Registers { stack_pointer: r.stack_pointer, ..r1 };
    assert(rp == r);
    store_then_load(rp, m1, w, AddressingMode::Direct(b), v);
    if b == a {
        if a < 128 {
            assert(m1.insert(Address::InternalData(a), v) =~= m.insert(slot, v));
        }
    }
}

/// `LCALL` then `RET` comes back to the instruction after the `LCALL`, with
/// the stack pointer where it was.
pub proof fn call_then_return(r: Registers, m: Map<Address, u8>, w: Set<Address>, target: u16, next: u16, next2: u16)
    requires
        registers_valid(r),
        execute_spec(Instruction::LCALL(target), r, m, w, next) is Ok,
    ensures
        ({
            let (r1, m1, pc1) = effect_state(execute_spec(Instruction::LCALL(target), r, m, w, next));
            let e = execute_spec(Instruction::RET, r1, m1, w, next2);
            &&& pc1 == target
            &&& e is Ok
            &&& effect_state(e).2 == next
            &&& effect_state(e).0 == r
            &&& effect_state(e).1 == m1
        }),
{
    lemma_execute_lcall(r, m, w, target, next);
    let (r1, m1, pc1) = call_spec(r, m, w, next, target)->Ok_0;
    lemma_execute_ret(r1, m1, w, next2);
    let sp = r.stack_pointer;
    assert(r1.stack_pointer == sp + 2);
    assert(m1[Address::InternalData((sp + 2) as u8)] == (next / 256) as u8);
    assert(m1[Address::InternalData((sp + 1) as u8)] == (next % 256) as u8);
}

/// `ADD` and `ADDC` set the carry exactly when the unsigned sum exceeds 255,
/// the auxiliary carry exactly when the sum of the low nibbles exceeds 15,
/// and the overflow exactly when the sum of the operands read as signed
/// bytes lies outside -128..=127.
pub proof fn add_flags(r: Registers, v: u8, c: u8)
    requires
        c <= 1,
    ensures
        add_spec(r, v, c).accumulator == (r.accumulator + v + c) % 256,
        add_spec(r, v, c).carry_flag == flag(r.accumulator + v + c > 255),
        add_spec(r, v, c).auxiliary_carry_flag == flag(r.accumulator % 16 + v % 16 + c > 15),
        add_spec(r, v, c).overflow_flag == flag(
            signed(r.accumulator) + signed(v) + c < -128 || signed(r.accumulator) + signed(v) + c > 127,
        ),
{
}

/// `ADD A, op` leaves the registers as `add_spec` gives them for the value
/// of `op`, and moves on to the next instruction.
pub proof fn add_instruction(r: Registers, m: Map<Address, u8>, w: Set<Address>, o: AddressingMode, next: u16)
    requires
        load_spec(r, m, o) is Ok,
    ensures
        execute_spec(Instruction::ADD(o), r, m, w, next) == Ok::<
            (Registers, Map<Address, u8>, u16),
            Error,
        >((add_spec(r, load_spec(r, m, o)->Ok_0, 0), m, next)),
{
    reveal(execute_spec);
}

/// Whether memory `m` holds byte `b` at code address `a`.
pub open spec fn code_byte(m: Map<Address, u8>, a: int, b: u8) -> bool {
    m.contains_key(Address::Code(add16(a, 0))) && m[Address::Code(add16(a, 0))] == b
}

/// Running `LCALL a` from the program counter, then the `RET` at `a`,
/// leaves the program counter at the instruction after the `LCALL` and the
/// stack pointer where it was.
pub proof fn step_call_then_return(r: Registers, m: Map<Address, u8>, w: Set<Address>, a: u16)
    requires
        registers_valid(r),
        code_byte(m, r.program_counter as int, 0x12),
        code_byte(m, r.program_counter + 1, (a / 256) as u8),
        code_byte(m, r.program_counter + 2, (a % 256) as u8),
        code_byte(m, a as int, 0x22),
        step_spec(r, m, w) is Ok,
    ensures
        ({
            let (r1, m1) = step_spec(r, m, w)->Ok_0;
            &&& r1.program_counter == a
            &&& step_spec(r1, m1, w) is Ok
            &&& step_spec(r1, m1, w)->Ok_0.0.program_counter == add16(r.program_counter as int, 3)
            &&& step_spec(r1, m1, w)->Ok_0.0.stack_pointer == r.stack_pointer
        }),
{
    let pc = r.program_counter;
    let hi = (a / 256) as u8;
    let lo = (a % 256) as u8;
    assert(add16(pc as int, 0) == pc);
    assert(add16(a as int, 0) == a);
    assert(decode_spec(0x12, hi, lo) == Some(Instruction::LCALL(a)));
    assert(instruction_length(0x12) == 3);
    assert(fetch_spec(r, m) == Ok::<(Instruction, u16), Error>((Instruction::LCALL(a), 3u16)));
    let next = add16(pc as int, 3);
    lemma_execute_lcall(r, m, w, a, next);
    let (rc, m1, _) = call_spec(r, m, w, next, a)->Ok_0;
    let r1 = Registers { program_counter: a, ..rc };
    let sp = r.stack_pointer;
    assert(rc.stack_pointer == sp + 2);
    assert(m1[Address::Code(a)] == 0x22);
    assert(decode_spec(0x22, 0, 0) == Some(Instruction::RET));
    assert(instruction_length(0x22) == 1);
    assert(fetch_spec(r1, m1) == Ok::<(Instruction, u16), Error>((Instruction::RET, 1u16)));
    lemma_execute_ret(r1, m1, w, add16(a as int, 1));
    assert(m1[Address::InternalData((sp + 2) as u8)] == (next / 256) as u8);
    assert(m1[Address::InternalData((sp + 1) as u8)] == (next % 256) as u8);
}

/// Running `PUSH d` then `POP d2` from the program counter moves the byte at
/// direct address `d` to `d2`, advances the program counter by four and
/// leaves the stack pointer where it was (unless `d2` is the stack pointer
/// itself); with `d2 == d` every other register is as before, and memory is
/// as before but for the pushed byte left above the top of the stack.
pub proof fn step_push_then_pop(r: Registers, m: Map<Address, u8>, w: Set<Address>, d: u8, d2: u8)
    requires
        registers_valid(r),
        code_byte(m, r.program_counter as int, 0xC0),
        code_byte(m, r.program_counter + 1, d),
        code_byte(m, r.program_counter + 2, 0xD0),
        code_byte(m, r.program_counter + 3, d2),
        step_spec(r, m, w) is Ok,
        step_spec(step_spec(r, m, w)->Ok_0.0, step_spec(r, m, w)->Ok_0.1, w) is Ok,
    ensures
        ({
            let x0 = load_spec(r, m, AddressingMode::Direct(d))->Ok_0;
            let (r1, m1) = step_spec(r, m, w)->Ok_0;
            let (r2, m2) = step_spec(r1, m1, w)->Ok_0;
            &&& r2.program_counter == add16(r.program_counter as int, 4)
            &&& d2 != 0x81 ==> r2.stack_pointer == r.stack_pointer
            &&& load_spec(r2, m2, AddressingMode::Direct(d2)) == Ok::<u8, Error>(x0)
            &&& d2 == d ==> r2 == Registers { program_counter: r2.program_counter, ..r } && m2 == m.insert(
                Address::InternalData((r.stack_pointer + 1) as u8),
                x0,
            )
        }),
{
    let pc = r.program_counter;
    assert(add16(pc as int, 0) == pc);
    assert(decode_spec(0xC0, d, 0) == Some(Instruction::PUSH(AddressingMode::Direct(d))));
    assert(instruction_length(0xC0) == 2);
    assert(fetch_spec(r, m) == Ok::<(Instruction, u16), Error>((Instruction::PUSH(AddressingMode::Direct(d)), 2u16)));
    let next1 = add16(pc as int, 2);
    lemma_execute_push(r, m, w, d, next1);
    let x0 = load_spec(r, m, AddressingMode::Direct(d))->Ok_0;
    let (rp, m1, _) = push_spec(r, m, w, d, next1)->Ok_0;
    let r1 = Registers { program_counter: next1, ..rp };
    let slot = Address::InternalData((r.stack_pointer + 1) as u8);
    assert(m1 == m.insert(slot, x0));
    assert(add16(next1 as int, 0) == next1);
    assert(add16(next1 as int, 1) == add16(pc + 3, 0));
    assert(m1[Address::Code(next1)] == 0xD0);
    assert(decode_spec(0xD0, d2, 0) == Some(Instruction::POP(AddressingMode::Direct(d2))));
    assert(instruction_length(0xD0) == 2);
    assert(fetch_spec(r1, m1) == Ok::<(Instruction, u16), Error>((Instruction::POP(AddressingMode::Direct(d2)), 2u16)));
    let next2 = add16(next1 as int, 2);
    assert(next2 == add16(pc as int, 4));
    lemma_execute_pop(r1, m1, w, d2, next2);
    assert(r1.stack_pointer == r.stack_pointer + 1);
    assert(m1[Address::InternalData(r1.stack_pointer)] == x0);
    let rq = Registers { stack_pointer: r.stack_pointer, ..r1 };
    store_then_load(rq, m1, w, AddressingMode::Direct(d2), x0);
    if d2 == d {
        if d < 128 {
            assert(m1.insert(Address::InternalData(d), x0) =~= m.insert(slot, x0));
        }
    }
}

/// Running an `ADD A, op` (opcodes 0x24 to 0x2F) from the program counter
/// sets the accumulator to the wrapped sum, the carry exactly when the
/// unsigned sum exceeds 255, the auxiliary carry exactly when the low
/// nibbles sum past 15, and the overflow exactly when the signed sum lies
/// outside -128..=127; memory is untouched and the program counter moves past
/// the instruction.
pub proof fn step_add(r: Registers, m: Map<Address, u8>, w: Set<Address>)
    requires
        registers_valid(r),
        m.contains_key(Address::Code(r.program_counter)),
        0x24 <= m[Address::Code(r.program_counter)] <= 0x2F,
        step_spec(r, m, w) is Ok,
    ensures
        ({
            let (ins, len) = fetch_spec(r, m)->Ok_0;
            let a0 = r.accumulator;
            let v = load_spec(r, m, ins->ADD_0)->Ok_0;
            let (r2, m2) = step_spec(r, m, w)->Ok_0;
            &&& ins is ADD
            &&& r2.accumulator == (a0 + v) % 256
            &&& r2.carry_flag == flag(a0 + v > 255)
            &&& r2.auxiliary_carry_flag == flag(a0 % 16 + v % 16 > 15)
            &&& r2.overflow_flag == flag(signed(a0) + signed(v) < -128 || signed(a0) + signed(v) > 127)
            &&& r2.program_counter == add16(r.program_counter as int, len as int)
            &&& m2 == m
        }),
{
    let (ins, len) = fetch_spec(r, m)->Ok_0;
    assert(ins is ADD);
    let o = ins->ADD_0;
    reveal(execute_spec);
    assert(load_spec(r, m, o) is Ok);
    add_instruction(r, m, w, o, add16(r.program_counter as int, len as int));
    add_flags(r, load_spec(r, m, o)->Ok_0, 0);
}

} // verus!
