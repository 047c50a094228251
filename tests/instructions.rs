use mcs51::{
    Address, AddressingMode, CPU, FlatMemory, Instruction, Memory, Register, decode, instruction_size,
    register_from_opcode,
};

fn machine(program: &[u8]) -> CPU<FlatMemory> {
    let mut memory = FlatMemory::new();
    for (i, byte) in program.iter().enumerate() {
        memory.set_code(i as u16, *byte);
    }
    CPU::new(memory)
}

fn internal(cpu: &CPU<FlatMemory>, a: u8) -> u8 {
    cpu.memory.get(Address::InternalData(a)).unwrap()
}

#[test]
fn register_from_opcode_uses_low_three_bits() {
    assert_eq!(register_from_opcode(0x08), Register::R0);
    assert_eq!(register_from_opcode(0xEA), Register::R2);
    assert_eq!(register_from_opcode(0xFF), Register::R7);
}

#[test]
fn decode_covers_the_opcode_map() {
    assert_eq!(decode(0x00, 0, 0), Some(Instruction::NOP));
    assert_eq!(decode(0xA5, 0, 0), None);
    assert_eq!(decode(0xE1, 0x34, 0), Some(Instruction::AJMP(0x734)));
    assert_eq!(decode(0xF1, 0x34, 0), Some(Instruction::ACALL(0x734)));
    assert_eq!(decode(0x02, 0x12, 0x34), Some(Instruction::LJMP(0x1234)));
    assert_eq!(decode(0x90, 0xBE, 0xEF), Some(Instruction::LoadDptr(0xBEEF)));
    assert_eq!(
        decode(0x85, 0x30, 0x40),
        Some(Instruction::MOV(AddressingMode::Direct(0x40), AddressingMode::Direct(0x30)))
    );
    assert_eq!(
        decode(0xBE, 0x07, 0xFC),
        Some(Instruction::CJNE(AddressingMode::Register(Register::R6), AddressingMode::Immediate(0x07), -4))
    );
    assert_eq!(decode(0x5D, 0, 0), Some(Instruction::ANL(AddressingMode::Register(Register::A), AddressingMode::Register(Register::R5))));
    assert_eq!(decode(0x63, 0x90, 0x0F), Some(Instruction::XRL(AddressingMode::Direct(0x90), AddressingMode::Immediate(0x0F))));
    assert_eq!(decode(0xB0, 0x21, 0), Some(Instruction::ANL(AddressingMode::Register(Register::C), AddressingMode::NotBit(0x21))));
    assert_eq!(decode(0xD6, 0, 0), Some(Instruction::XCHD(AddressingMode::Indirect(Register::R0))));
    assert_eq!(decode(0x10, 0x20, 0x05), Some(Instruction::JBC(AddressingMode::Bit(0x20), 5)));
    assert_eq!(decode(0x73, 0, 0), Some(Instruction::JMP));
    assert_eq!(decode(0xA4, 0, 0), Some(Instruction::MUL));
    assert_eq!(decode(0x84, 0, 0), Some(Instruction::DIV));
}

#[test]
fn every_byte_but_a5_decodes() {
    for op in 0..=255u8 {
        assert_eq!(decode(op, 0, 0).is_some(), op != 0xA5);
    }
}

#[test]
fn instruction_sizes() {
    assert_eq!(instruction_size(decode(0x00, 0, 0).unwrap()), 1);
    assert_eq!(instruction_size(decode(0x24, 0, 0).unwrap()), 2);
    assert_eq!(instruction_size(decode(0x75, 0, 0).unwrap()), 3);
    assert_eq!(instruction_size(decode(0x85, 0, 0).unwrap()), 3);
    assert_eq!(instruction_size(decode(0xD8, 0, 0).unwrap()), 2);
    assert_eq!(instruction_size(decode(0xD5, 0, 0).unwrap()), 3);
    assert_eq!(instruction_size(decode(0x12, 0, 0).unwrap()), 3);
    assert_eq!(instruction_size(decode(0x11, 0, 0).unwrap()), 2);
    assert_eq!(instruction_size(decode(0xB6, 0, 0).unwrap()), 3);
}

#[test]
fn mul_and_div() {
    let mut cpu = machine(&[0xA4, 0x84, 0x84]);
    cpu.regs.accumulator = 0x50;
    cpu.regs.b_register = 0xA0;
    cpu.step().unwrap();
    assert_eq!((cpu.regs.b_register, cpu.regs.accumulator), (0x32, 0x00));
    assert_eq!(cpu.regs.overflow_flag, 1);
    assert_eq!(cpu.regs.carry_flag, 0);
    cpu.regs.accumulator = 251;
    cpu.regs.b_register = 18;
    cpu.step().unwrap();
    assert_eq!((cpu.regs.accumulator, cpu.regs.b_register), (13, 17));
    assert_eq!(cpu.regs.overflow_flag, 0);
    cpu.regs.b_register = 0;
    cpu.step().unwrap();
    assert_eq!(cpu.regs.overflow_flag, 1);
}

#[test]
fn decimal_adjust() {
    // MOV A,#0x56; ADD A,#0x67; DA A  => 0x23 with carry (56 + 67 = 123)
    let mut cpu = machine(&[0x74, 0x56, 0x24, 0x67, 0xD4]);
    for _ in 0..3 {
        cpu.step().unwrap();
    }
    assert_eq!(cpu.regs.accumulator, 0x23);
    assert_eq!(cpu.regs.carry_flag, 1);
}

#[test]
fn rotates_and_swap() {
    let mut cpu = machine(&[0x23, 0x03, 0x33, 0x13, 0xC4]);
    cpu.regs.accumulator = 0x81;
    cpu.step().unwrap();
    assert_eq!(cpu.regs.accumulator, 0x03);
    cpu.step().unwrap();
    assert_eq!(cpu.regs.accumulator, 0x81);
    cpu.step().unwrap();
    assert_eq!((cpu.regs.accumulator, cpu.regs.carry_flag), (0x02, 1));
    cpu.step().unwrap();
    assert_eq!((cpu.regs.accumulator, cpu.regs.carry_flag), (0x81, 0));
    cpu.step().unwrap();
    assert_eq!(cpu.regs.accumulator, 0x18);
}

#[test]
fn exchanges() {
    // XCH A,R1; XCHD A,@R0
    let mut cpu = machine(&[0xC9, 0xD6]);
    cpu.regs.accumulator = 0x12;
    cpu.memory.write_memory(Address::InternalData(1), 0x34).unwrap();
    cpu.step().unwrap();
    assert_eq!(cpu.regs.accumulator, 0x34);
    assert_eq!(internal(&cpu, 1), 0x12);
    cpu.memory.write_memory(Address::InternalData(0), 0x50).unwrap();
    cpu.memory.write_memory(Address::InternalData(0x50), 0xAB).unwrap();
    cpu.step().unwrap();
    assert_eq!(cpu.regs.accumulator, 0x3B);
    assert_eq!(internal(&cpu, 0x50), 0xA4);
}

#[test]
fn cjne_sets_carry_and_branches() {
    let mut cpu = machine(&[0xB4, 0x10, 0x05]);
    cpu.regs.accumulator = 0x0F;
    cpu.step().unwrap();
    assert_eq!(cpu.regs.carry_flag, 1);
    assert_eq!(cpu.regs.program_counter, 8);
    let mut cpu = machine(&[0xB4, 0x10, 0x05]);
    cpu.regs.accumulator = 0x10;
    cpu.step().unwrap();
    assert_eq!(cpu.regs.carry_flag, 0);
    assert_eq!(cpu.regs.program_counter, 3);
}

#[test]
fn jbc_clears_the_bit_it_branches_on() {
    let mut cpu = machine(&[0x10, 0x00, 0x10]);
    cpu.memory.write_memory(Address::InternalData(0x20), 0x01).unwrap();
    cpu.step().unwrap();
    assert_eq!(cpu.regs.program_counter, 0x13);
    assert_eq!(internal(&cpu, 0x20), 0x00);
}

#[test]
fn bit_logic_on_carry() {
    // SETB C; ANL C,/0x00; ORL C,0x01
    let mut cpu = machine(&[0xD3, 0xB0, 0x00, 0x72, 0x01]);
    cpu.memory.write_memory(Address::InternalData(0x20), 0b11).unwrap();
    cpu.step().unwrap();
    assert_eq!(cpu.regs.carry_flag, 1);
    cpu.step().unwrap();
    assert_eq!(cpu.regs.carry_flag, 0);
    cpu.step().unwrap();
    assert_eq!(cpu.regs.carry_flag, 1);
}

#[test]
fn byte_logic_and_complement() {
    // ORL A,#0x0F; ANL A,#0x3C; XRL A,#0xFF; CPL A; CLR A
    let mut cpu = machine(&[0x44, 0x0F, 0x54, 0x3C, 0x64, 0xFF, 0xF4, 0xE4]);
    cpu.regs.accumulator = 0xA0;
    cpu.step().unwrap();
    assert_eq!(cpu.regs.accumulator, 0xAF);
    cpu.step().unwrap();
    assert_eq!(cpu.regs.accumulator, 0x2C);
    cpu.step().unwrap();
    assert_eq!(cpu.regs.accumulator, 0xD3);
    cpu.step().unwrap();
    assert_eq!(cpu.regs.accumulator, 0x2C);
    cpu.step().unwrap();
    assert_eq!(cpu.regs.accumulator, 0x00);
}

#[test]
fn inc_and_dec_wrap() {
    // DEC A; INC 0x30; INC DPTR
    let mut cpu = machine(&[0x14, 0x05, 0x30, 0xA3]);
    cpu.memory.write_memory(Address::InternalData(0x30), 0xFF).unwrap();
    cpu.regs.data_pointer = 0x00FF;
    cpu.step().unwrap();
    assert_eq!(cpu.regs.accumulator, 0xFF);
    cpu.step().unwrap();
    assert_eq!(internal(&cpu, 0x30), 0x00);
    cpu.step().unwrap();
    assert_eq!(cpu.regs.data_pointer, 0x0100);
}

#[test]
fn movx_and_dptr() {
    // MOV DPTR,#0x1234; MOV A,#0x99; MOVX @DPTR,A; CLR A; MOVX A,@DPTR
    let mut cpu = machine(&[0x90, 0x12, 0x34, 0x74, 0x99, 0xF0, 0xE4, 0xE0]);
    for _ in 0..5 {
        cpu.step().unwrap();
    }
    assert_eq!(cpu.regs.data_pointer, 0x1234);
    assert_eq!(cpu.memory.get(Address::ExternalData(0x1234)), Some(0x99));
    assert_eq!(cpu.regs.accumulator, 0x99);
}

#[test]
fn jmp_indirect_and_sjmp_backwards() {
    let mut cpu = machine(&[0x73]);
    cpu.regs.data_pointer = 0x0100;
    cpu.regs.accumulator = 0x04;
    cpu.step().unwrap();
    assert_eq!(cpu.regs.program_counter, 0x0104);
    cpu.memory.set_code(0x0104, 0x80);
    cpu.memory.set_code(0x0105, 0x80);
    cpu.step().unwrap();
    assert_eq!(cpu.regs.program_counter, 0x0106 - 0x80);
}

#[test]
fn setb_and_clr_bit() {
    let mut cpu = machine(&[0xD2, 0x09, 0xC2, 0x09]);
    cpu.step().unwrap();
    assert_eq!(internal(&cpu, 0x21), 0x02);
    cpu.step().unwrap();
    assert_eq!(internal(&cpu, 0x21), 0x00);
}
