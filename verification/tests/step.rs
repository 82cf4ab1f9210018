use dmg_cpu::cpu::CPU;
use dmg_cpu::cpu::ExecResult;
use dmg_cpu::cpu::StepFault;
use dmg_cpu::instructions::ArithmeticTarget;
use dmg_cpu::instructions::Instruction;
use dmg_cpu::instructions::PairTarget;
use dmg_cpu::instructions::PrefixTarget;
use dmg_cpu::registers::FlagsRegister;

fn flags(zero: bool, subtract: bool, half_carry: bool, carry: bool) -> FlagsRegister {
    FlagsRegister { zero, subtract, half_carry, carry }
}

#[test]
fn step_add_register_c() {
    let mut cpu = CPU::new();
    cpu.registers.a = 0xFF;
    cpu.registers.c = 0x01;
    cpu.bus.write(0x0000, 0x81); // ADD A,C
    assert_eq!(cpu.step(), Ok(()));
    assert_eq!(cpu.registers.a, 0x00);
    assert_eq!(cpu.registers.flags, flags(true, false, true, true));
    assert_eq!(cpu.pc, 0x0001);
}

#[test]
fn step_add_immediate_advances_two_bytes() {
    let mut cpu = CPU::new();
    cpu.registers.a = 0x0F;
    cpu.bus.write(0x0000, 0xC6); // ADD A,d8
    cpu.bus.write(0x0001, 0x01);
    assert_eq!(cpu.step(), Ok(()));
    assert_eq!(cpu.registers.a, 0x10);
    assert_eq!(cpu.registers.flags, flags(false, false, true, false));
    assert_eq!(cpu.pc, 0x0002);
}

#[test]
fn step_add_memory_at_hl() {
    let mut cpu = CPU::new();
    cpu.registers.a = 0x01;
    cpu.registers.set_hl(0x1234);
    cpu.bus.write(0x1234, 0x41);
    cpu.bus.write(0x0000, 0x86); // ADD A,(HL)
    assert_eq!(cpu.step(), Ok(()));
    assert_eq!(cpu.registers.a, 0x42);
    assert_eq!(cpu.pc, 0x0001);
}

#[test]
fn step_cp_leaves_a_alone() {
    let mut cpu = CPU::new();
    cpu.registers.a = 0x05;
    cpu.registers.b = 0x03;
    cpu.bus.write(0x0000, 0xB8); // CP B
    assert_eq!(cpu.step(), Ok(()));
    assert_eq!(cpu.registers.a, 0x05);
    assert_eq!(cpu.registers.flags, flags(false, true, false, false));
}

#[test]
fn step_inc_memory_at_hl_writes_back() {
    let mut cpu = CPU::new();
    cpu.registers.set_hl(0x8000);
    cpu.registers.flags.carry = true;
    cpu.bus.write(0x8000, 0xFF);
    cpu.bus.write(0x0000, 0x34); // INC (HL)
    assert_eq!(cpu.step(), Ok(()));
    assert_eq!(cpu.bus.read_byte(0x8000), 0x00);
    assert_eq!(cpu.registers.flags, flags(true, false, true, true));
    assert_eq!(cpu.pc, 0x0001);
}

#[test]
fn step_addhl_pair() {
    let mut cpu = CPU::new();
    cpu.registers.set_hl(0x0FFF);
    cpu.registers.set_de(0x0001);
    cpu.bus.write(0x0000, 0x19); // ADD HL,DE
    assert_eq!(cpu.step(), Ok(()));
    assert_eq!(cpu.registers.get_hl(), 0x1000);
    assert_eq!(cpu.registers.flags, flags(false, false, true, false));
}

#[test]
fn step_extended_swap_register() {
    let mut cpu = CPU::new();
    cpu.registers.a = 0xAB;
    cpu.bus.write(0x0000, 0xCB);
    cpu.bus.write(0x0001, 0x37); // SWAP A
    assert_eq!(cpu.step(), Ok(()));
    assert_eq!(cpu.registers.a, 0xBA);
    assert_eq!(cpu.registers.flags, flags(false, false, false, false));
    assert_eq!(cpu.pc, 0x0002);
}

#[test]
fn step_extended_set_on_memory() {
    let mut cpu = CPU::new();
    cpu.registers.set_hl(0x4000);
    cpu.registers.flags = flags(true, true, true, false);
    cpu.bus.write(0x4000, 0x00);
    cpu.bus.write(0x0000, 0xCB);
    cpu.bus.write(0x0001, 0xFE); // SET 7,(HL)
    assert_eq!(cpu.step(), Ok(()));
    assert_eq!(cpu.bus.read_byte(0x4000), 0x80);
    // SET changes no flags
    assert_eq!(cpu.registers.flags, flags(true, true, true, false));
    assert_eq!(cpu.pc, 0x0002);
}

#[test]
fn step_extended_bit_reads_without_writing() {
    let mut cpu = CPU::new();
    cpu.registers.e = 0b0000_0100;
    cpu.registers.flags.carry = true;
    cpu.bus.write(0x0000, 0xCB);
    cpu.bus.write(0x0001, 0x53); // BIT 2,E
    assert_eq!(cpu.step(), Ok(()));
    assert_eq!(cpu.registers.e, 0b0000_0100);
    assert_eq!(cpu.registers.flags, flags(false, false, true, true));
}

#[test]
fn step_determinism() {
    let make = || {
        let mut cpu = CPU::new();
        cpu.registers.a = 0x3C;
        cpu.registers.set_bc(0x1234);
        cpu.registers.flags.carry = true;
        cpu.bus.write(0x0000, 0x89); // ADC A,C
        cpu
    };
    let mut first = make();
    let mut second = make();
    assert_eq!(first.step(), second.step());
    assert_eq!(first.registers, second.registers);
    assert_eq!(first.pc, second.pc);
    for address in [0x0000u16, 0x0001, 0x1234, 0xFFFF] {
        assert_eq!(first.bus.read_byte(address), second.bus.read_byte(address));
    }
}

#[test]
fn step_undecodable_opcode_faults_and_preserves_state() {
    let mut cpu = CPU::new();
    cpu.registers.a = 0x77;
    cpu.pc = 0x0100;
    cpu.bus.write(0x0100, 0xD3); // no base-table entry
    let before_regs = cpu.registers;
    let r = cpu.step();
    assert_eq!(r, Err(StepFault { opcode: 0xD3, address: 0x0100 }));
    assert_eq!(cpu.registers, before_regs);
    assert_eq!(cpu.pc, 0x0100);
    assert_eq!(cpu.bus.read_byte(0x0100), 0xD3);
}

#[test]
fn step_after_fault_can_continue() {
    let mut cpu = CPU::new();
    cpu.bus.write(0x0000, 0x00); // NOP slot is outside the covered classes
    assert!(cpu.step().is_err());
    cpu.bus.write(0x0000, 0x3C); // INC A
    assert_eq!(cpu.step(), Ok(()));
    assert_eq!(cpu.registers.a, 0x01);
}

#[test]
fn step_program_counter_wraps() {
    let mut cpu = CPU::new();
    cpu.pc = 0xFFFF;
    cpu.registers.a = 0x01;
    cpu.bus.write(0xFFFF, 0x87); // ADD A,A
    assert_eq!(cpu.step(), Ok(()));
    assert_eq!(cpu.registers.a, 0x02);
    assert_eq!(cpu.pc, 0x0000);
}

#[test]
fn step_prefix_fetch_wraps_for_second_byte() {
    let mut cpu = CPU::new();
    cpu.pc = 0xFFFF;
    cpu.registers.b = 0x80;
    cpu.bus.write(0xFFFF, 0xCB);
    cpu.bus.write(0x0000, 0x00); // RLC B
    assert_eq!(cpu.step(), Ok(()));
    assert_eq!(cpu.registers.b, 0x01);
    assert!(cpu.registers.flags.carry);
    assert_eq!(cpu.pc, 0x0001);
}

#[test]
fn execute_reports_next_pc_and_cycles() {
    let mut cpu = CPU::new();
    cpu.pc = 0x0200;
    cpu.registers.a = 0x01;
    let r = cpu.execute(Instruction::ADD(ArithmeticTarget::A));
    assert_eq!(r, ExecResult { next_pc: 0x0201, cycles: 4 });
    assert_eq!(cpu.pc, 0x0200, "execute itself does not commit the program counter");

    cpu.pc = 0x0300;
    let r = cpu.execute(Instruction::ADD(ArithmeticTarget::D8));
    assert_eq!(r, ExecResult { next_pc: 0x0302, cycles: 8 });

    let r = cpu.execute(Instruction::SWAP(PrefixTarget::HLI));
    assert_eq!(r.cycles, 16);
    let r = cpu.execute(Instruction::ADDHL(PairTarget::BC));
    assert_eq!(r.cycles, 8);
}

#[test]
fn program_of_several_steps() {
    // A = 0; INC A; ADD A,d8 0x0F; ADD A,d8 0x01; SWAP A (extended)
    let mut cpu = CPU::new();
    cpu.bus.write(0x0000, 0x3C); // INC A
    cpu.bus.write(0x0001, 0xC6); // ADD A,d8
    cpu.bus.write(0x0002, 0x0F);
    cpu.bus.write(0x0003, 0xC6); // ADD A,d8
    cpu.bus.write(0x0004, 0x01);
    cpu.bus.write(0x0005, 0xCB); // SWAP A
    cpu.bus.write(0x0006, 0x37);
    for _ in 0..4 {
        assert_eq!(cpu.step(), Ok(()));
    }
    assert_eq!(cpu.registers.a, 0x11);
    assert_eq!(cpu.pc, 0x0007);
    assert_eq!(cpu.registers.flags, flags(false, false, false, false));
}
