use mcs51::{Address, AddressingMode, CPU, Error, FlatMemory, Memory, Register};

fn machine(origin: u16, program: &[u8]) -> CPU<FlatMemory> {
    let mut memory = FlatMemory::new();
    for (i, byte) in program.iter().enumerate() {
        memory.set_code(origin + i as u16, *byte);
    }
    let mut cpu = CPU::new(memory);
    cpu.regs.program_counter = origin;
    cpu
}

fn internal(cpu: &CPU<FlatMemory>, a: u8) -> u8 {
    cpu.memory.get(Address::InternalData(a)).unwrap()
}

#[test]
fn new_cpu_is_zeroed() {
    let cpu = CPU::new(FlatMemory::new());
    assert_eq!(cpu.regs.bank, 0);
    assert_eq!(cpu.regs.carry_flag, 0);
    assert_eq!(cpu.regs.auxiliary_carry_flag, 0);
    assert_eq!(cpu.regs.overflow_flag, 0);
    assert_eq!(cpu.regs.accumulator, 0);
    assert_eq!(cpu.regs.b_register, 0);
    assert_eq!(cpu.regs.stack_pointer, 0);
    assert_eq!(cpu.regs.data_pointer, 0);
    assert_eq!(cpu.regs.program_counter, 0);
}

#[test]
fn ajmp_takes_page_of_next_instruction() {
    let mut cpu = machine(0x0800, &[0x01, 0x23]);
    cpu.step().unwrap();
    assert_eq!(cpu.regs.program_counter, 0x0823);
}

#[test]
fn ajmp_across_page_boundary_uses_post_fetch_page() {
    let mut cpu = machine(0x07FE, &[0x01, 0x10]);
    cpu.step().unwrap();
    assert_eq!(cpu.regs.program_counter, 0x0810);
}

#[test]
fn jz_minus_two_loops_on_itself() {
    let mut cpu = machine(0x0010, &[0x60, 0xFE]);
    cpu.step().unwrap();
    assert_eq!(cpu.regs.program_counter, 0x0010);
}

#[test]
fn jnz_falls_through_on_zero() {
    let mut cpu = machine(0x0010, &[0x70, 0xFE]);
    cpu.step().unwrap();
    assert_eq!(cpu.regs.program_counter, 0x0012);
}

#[test]
fn add_sets_overflow_and_aux_carry() {
    let mut cpu = machine(0, &[0x24, 0x01]);
    cpu.regs.accumulator = 0x7F;
    cpu.step().unwrap();
    assert_eq!(cpu.regs.accumulator, 0x80);
    assert_eq!(cpu.regs.carry_flag, 0);
    assert_eq!(cpu.regs.auxiliary_carry_flag, 1);
    assert_eq!(cpu.regs.overflow_flag, 1);
    assert_eq!(cpu.regs.program_counter, 2);
}

#[test]
fn subb_borrows_from_zero() {
    let mut cpu = machine(0, &[0x94, 0x01]);
    cpu.step().unwrap();
    assert_eq!(cpu.regs.accumulator, 0xFF);
    assert_eq!(cpu.regs.carry_flag, 1);
    assert_eq!(cpu.regs.auxiliary_carry_flag, 1);
    assert_eq!(cpu.regs.overflow_flag, 0);
    assert_eq!(cpu.regs.program_counter, 2);
}

#[test]
fn subb_signed_overflow() {
    let mut cpu = machine(0, &[0x94, 0x01]);
    cpu.regs.accumulator = 0x80;
    cpu.step().unwrap();
    assert_eq!(cpu.regs.accumulator, 0x7F);
    assert_eq!(cpu.regs.carry_flag, 0);
    assert_eq!(cpu.regs.overflow_flag, 1);
}

#[test]
fn djnz_counts_down_and_falls_through() {
    let mut cpu = machine(0x0100, &[0xDA, 0xFE]);
    cpu.memory.write_memory(Address::InternalData(2), 3).unwrap();
    cpu.step().unwrap();
    assert_eq!(internal(&cpu, 2), 2);
    assert_eq!(cpu.regs.program_counter, 0x0100);
    cpu.step().unwrap();
    assert_eq!(internal(&cpu, 2), 1);
    assert_eq!(cpu.regs.program_counter, 0x0100);
    cpu.step().unwrap();
    assert_eq!(internal(&cpu, 2), 0);
    assert_eq!(cpu.regs.program_counter, 0x0102);
}

#[test]
fn movc_reads_table_at_a_plus_dptr() {
    let mut cpu = machine(0, &[0x93]);
    cpu.memory.set_code(0x0402, 0xAB);
    cpu.regs.data_pointer = 0x0400;
    cpu.regs.accumulator = 0x02;
    cpu.step().unwrap();
    assert_eq!(cpu.regs.accumulator, 0xAB);
    assert_eq!(cpu.regs.program_counter, 1);
}

#[test]
fn movc_reads_table_at_a_plus_pc() {
    let mut cpu = machine(0x0200, &[0x83]);
    cpu.memory.set_code(0x0204, 0x5A);
    cpu.regs.accumulator = 0x03;
    cpu.step().unwrap();
    assert_eq!(cpu.regs.accumulator, 0x5A);
    assert_eq!(cpu.regs.program_counter, 0x0201);
}

#[test]
fn flags_stay_boolean_over_a_program() {
    // MOV A,#0xFF; ADD A,#0x01; ADDC A,#0xFF; SUBB A,#0x80; MOV C,bit 0xE7; CPL C
    let program = [0x74, 0xFF, 0x24, 0x01, 0x34, 0xFF, 0x94, 0x80, 0xA2, 0xE7, 0xB3];
    let mut cpu = machine(0, &program);
    for _ in 0..6 {
        cpu.step().unwrap();
        assert!(cpu.regs.bank < 4);
        assert!(cpu.regs.carry_flag <= 1);
        assert!(cpu.regs.auxiliary_carry_flag <= 1);
        assert!(cpu.regs.overflow_flag <= 1);
    }
    assert_eq!(cpu.regs.program_counter, program.len() as u16);
}

#[test]
fn store_then_load_round_trips() {
    let mut cpu = CPU::new(FlatMemory::new());
    let modes = [
        AddressingMode::Register(Register::A),
        AddressingMode::Register(Register::R5),
        AddressingMode::Direct(0x30),
        AddressingMode::Direct(0x81),
        AddressingMode::Direct(0x82),
        AddressingMode::Direct(0x83),
        AddressingMode::Direct(0xF0),
        AddressingMode::Direct(0x90),
        AddressingMode::IndirectExternal(Register::DPTR),
    ];
    for mode in modes.iter() {
        cpu.store(*mode, 0xC4).unwrap();
        assert_eq!(cpu.load(*mode), Ok(0xC4));
    }
    cpu.store(AddressingMode::Register(Register::R1), 0x40).unwrap();
    cpu.store(AddressingMode::Indirect(Register::R1), 0x77).unwrap();
    assert_eq!(cpu.load(AddressingMode::Indirect(Register::R1)), Ok(0x77));
    assert_eq!(internal(&cpu, 0x40), 0x77);
    for bit in [0x00u8, 0x3B, 0x7F, 0xE3, 0xF6, 0x90].iter() {
        for v in [1u8, 0].iter() {
            cpu.store(AddressingMode::Bit(*bit), *v).unwrap();
            assert_eq!(cpu.load(AddressingMode::Bit(*bit)), Ok(*v));
            assert_eq!(cpu.load(AddressingMode::NotBit(*bit)), Ok(1 - *v));
        }
    }
    cpu.store(AddressingMode::Register(Register::C), 1).unwrap();
    assert_eq!(cpu.load(AddressingMode::Register(Register::C)), Ok(1));
}

#[test]
fn bit_store_touches_one_bit_of_its_byte() {
    let mut cpu = CPU::new(FlatMemory::new());
    cpu.memory.write_memory(Address::InternalData(0x27), 0b1010_0000).unwrap();
    cpu.store(AddressingMode::Bit(0x3A), 5).unwrap();
    assert_eq!(internal(&cpu, 0x27), 0b1010_0100);
    cpu.store(AddressingMode::Bit(0x3F), 0).unwrap();
    assert_eq!(internal(&cpu, 0x27), 0b0010_0100);
}

#[test]
fn register_reads_as_its_bank_byte() {
    let mut cpu = CPU::new(FlatMemory::new());
    cpu.regs.bank = 2;
    cpu.memory.write_memory(Address::InternalData(16 + 3), 0x9C).unwrap();
    let by_register = cpu.load(AddressingMode::Register(Register::R3));
    let by_direct = cpu.load(AddressingMode::Direct(16 + 3));
    assert_eq!(by_register, Ok(0x9C));
    assert_eq!(by_register, by_direct);
}

#[test]
fn push_then_pop_restores_stack_pointer() {
    // PUSH 0x30; POP 0x30; PUSH 0x30; POP 0x31
    let mut cpu = machine(0, &[0xC0, 0x30, 0xD0, 0x30, 0xC0, 0x30, 0xD0, 0x31]);
    cpu.regs.stack_pointer = 0x07;
    cpu.memory.write_memory(Address::InternalData(0x30), 0x5D).unwrap();
    cpu.step().unwrap();
    assert_eq!(cpu.regs.stack_pointer, 0x08);
    assert_eq!(internal(&cpu, 0x08), 0x5D);
    cpu.step().unwrap();
    assert_eq!(cpu.regs.stack_pointer, 0x07);
    assert_eq!(internal(&cpu, 0x30), 0x5D);
    cpu.step().unwrap();
    cpu.step().unwrap();
    assert_eq!(cpu.regs.stack_pointer, 0x07);
    assert_eq!(internal(&cpu, 0x31), 0x5D);
}

#[test]
fn lcall_then_ret_returns_after_call() {
    let mut cpu = machine(0, &[0x12, 0x01, 0x00]);
    cpu.memory.set_code(0x0100, 0x22);
    cpu.regs.stack_pointer = 0x07;
    cpu.step().unwrap();
    assert_eq!(cpu.regs.program_counter, 0x0100);
    assert_eq!(cpu.regs.stack_pointer, 0x09);
    assert_eq!(internal(&cpu, 0x08), 0x03);
    assert_eq!(internal(&cpu, 0x09), 0x00);
    cpu.step().unwrap();
    assert_eq!(cpu.regs.program_counter, 3);
    assert_eq!(cpu.regs.stack_pointer, 0x07);
}

#[test]
fn acall_then_reti_returns_after_call() {
    let mut cpu = machine(0x1234, &[0x31, 0x56]);
    cpu.memory.set_code(0x1156, 0x32);
    cpu.regs.stack_pointer = 0x20;
    cpu.step().unwrap();
    assert_eq!(cpu.regs.program_counter, 0x1156);
    cpu.step().unwrap();
    assert_eq!(cpu.regs.program_counter, 0x1236);
    assert_eq!(cpu.regs.stack_pointer, 0x20);
}

#[test]
fn add_flag_cases() {
    // (A, operand, A after, carry, aux carry, overflow)
    let cases = [
        (0xFFu8, 0x01u8, 0x00u8, 1u8, 1u8, 0u8),
        (0x80, 0x80, 0x00, 1, 0, 1),
        (0x08, 0x08, 0x10, 0, 1, 0),
        (0x0F, 0x01, 0x10, 0, 1, 0),
        (0x40, 0x40, 0x80, 0, 0, 1),
        (0x12, 0x34, 0x46, 0, 0, 0),
    ];
    for (a, v, sum, c, ac, ov) in cases.iter() {
        let mut cpu = machine(0, &[0x24, *v]);
        cpu.regs.accumulator = *a;
        cpu.step().unwrap();
        assert_eq!(cpu.regs.accumulator, *sum);
        assert_eq!(cpu.regs.carry_flag, *c);
        assert_eq!(cpu.regs.auxiliary_carry_flag, *ac);
        assert_eq!(cpu.regs.overflow_flag, *ov);
    }
}

#[test]
fn addc_adds_the_carry() {
    let mut cpu = machine(0, &[0x34, 0x0E]);
    cpu.regs.accumulator = 0x01;
    cpu.regs.carry_flag = 1;
    cpu.step().unwrap();
    assert_eq!(cpu.regs.accumulator, 0x10);
    assert_eq!(cpu.regs.auxiliary_carry_flag, 1);
    assert_eq!(cpu.regs.carry_flag, 0);
}

#[test]
fn unknown_opcode_is_a_decode_error() {
    let mut cpu = machine(0x0040, &[0xA5]);
    assert_eq!(cpu.step(), Err(Error::Decode));
    assert_eq!(cpu.regs.program_counter, 0x0040);
}

#[test]
fn push_at_stack_limit_overflows() {
    let mut cpu = machine(0, &[0xC0, 0x30]);
    cpu.regs.stack_pointer = 127;
    assert_eq!(cpu.step(), Err(Error::StackOverflow));
    assert_eq!(cpu.regs.program_counter, 0);
    assert_eq!(cpu.regs.stack_pointer, 127);
}

#[test]
fn call_at_stack_limit_overflows() {
    let mut cpu = machine(0, &[0x12, 0x00, 0x40]);
    cpu.regs.stack_pointer = 200;
    assert_eq!(cpu.step(), Err(Error::StackOverflow));
    assert_eq!(cpu.regs.program_counter, 0);
}

#[test]
fn unsupported_modes_are_refused() {
    let mut cpu = CPU::new(FlatMemory::new());
    assert_eq!(cpu.store(AddressingMode::Immediate(3), 1), Err(Error::UnsupportedMode));
    assert_eq!(cpu.store(AddressingMode::NotBit(3), 1), Err(Error::UnsupportedMode));
    assert_eq!(cpu.store(AddressingMode::IndirectCode(Register::DPTR), 1), Err(Error::UnsupportedMode));
    assert_eq!(cpu.load(AddressingMode::Register(Register::PC)), Err(Error::UnsupportedMode));
    assert_eq!(cpu.load(AddressingMode::Indirect(Register::R2)), Err(Error::UnsupportedMode));
    assert_eq!(cpu.load(AddressingMode::IndirectCode(Register::R0)), Err(Error::UnsupportedMode));
}

#[test]
fn flat_memory_refuses_unbacked_and_code_writes() {
    let mut memory = FlatMemory::new();
    assert_eq!(memory.read_memory(Address::SpecialFunctionRegister(0x10)), Err(Error::BadAddress));
    assert_eq!(memory.write_memory(Address::Bit(0x10), 1), Err(Error::BadAddress));
    assert_eq!(memory.write_memory(Address::Code(0x10), 1), Err(Error::ReadOnly));
    assert_eq!(memory.write_memory(Address::ExternalData(0xFFFF), 9), Ok(()));
    assert_eq!(memory.read_memory(Address::ExternalData(0xFFFF)), Ok(9));
}

#[test]
fn served_bit_reads_the_memory_byte_unchanged() {
    let mut cpu = CPU::new(FlatMemory::new());
    cpu.memory.write_memory(Address::Bit(0x90), 2).unwrap();
    assert_eq!(cpu.load(AddressingMode::Bit(0x90)), Ok(2));
    assert_eq!(cpu.load(AddressingMode::NotBit(0x90)), Ok(0));
    cpu.memory.write_memory(Address::Bit(0x90), 0).unwrap();
    assert_eq!(cpu.load(AddressingMode::NotBit(0x90)), Ok(1));
}

#[test]
fn failed_call_leaves_stack_memory_alone() {
    let mut cpu = machine(0, &[0x12, 0x00, 0x40]);
    cpu.regs.stack_pointer = 127;
    assert_eq!(cpu.step(), Err(Error::StackOverflow));
    assert_eq!(cpu.regs.stack_pointer, 127);
    assert_eq!(internal(&cpu, 128), 0);
    assert_eq!(internal(&cpu, 129), 0);
}
