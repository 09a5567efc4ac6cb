use rv32imc::cpu::Cpu;
use rv32imc::bus::mock_bus::MockBus;
use rv32imc::bus::Bus;

#[test]
fn test_fence() {
    let mut cpu = Cpu::new(0x0);
    let mut bus = MockBus::new();

    // FENCE instruction (fm=0, pred=W, succ=R, rs1=0, rd=0)
    // opcode: 0001111, funct3: 000
    // 0000 1000 0100 00000 000 00000 0001111
    // pred: 1000 (W), succ: 0100 (R)
    // 0x0840000f
    let inst = 0x0840000f;
    cpu.flush_cache_line(cpu.pc); bus.write_inst32(0x0, inst);

    cpu.step(&mut bus);

    assert_eq!(cpu.pc, 0x4);
}

#[test]
fn test_fence_i_self_modifying() {
    let mut cpu = Cpu::new(0x0);
    let mut bus = MockBus::new();

    // 0x0: ADDI x1, x0, 10  (0x00a00093)
    // 0x4: FENCE.I          (0x0000100f)
    
    bus.write_inst32(0x0, 0x00a00093);
    bus.write_inst32(0x4, 0x0000100f);
    bus.write_inst32(0x8, 0x00108093);

    cpu.step(&mut bus); // ADDI x1, x0, 10
    assert_eq!(cpu.regs[1], 10);
    
    bus.write32(0x8, 0x06408093);

    cpu.step(&mut bus);
    cpu.step(&mut bus);

    assert_eq!(cpu.regs[1], 110);
}

#[test]
fn test_no_fence_i_self_modifying_fails() {
    let mut cpu = Cpu::new(0x0);
    let mut bus = MockBus::new();

    // 0x0: ADDI x1, x0, 10  (0x00a00093)
    // 0x4: ADDI x0, x0, 0   (0x00000013) NOP
    // 0x8: ADDI x1, x1, 1   (0x00108093)
    
    bus.write_inst32(0x0, 0x00a00093);
    bus.write_inst32(0x4, 0x00000013);
    bus.write_inst32(0x8, 0x00108093);

    cpu.step(&mut bus); // ADDI x1, x0, 10
    
    bus.write32(0x8, 0x06408093);

    cpu.step(&mut bus); // NOP
    cpu.step(&mut bus);

    assert_eq!(cpu.regs[1], 11);
}
