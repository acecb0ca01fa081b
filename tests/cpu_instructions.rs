use gameboy::cpu::CPU;
use gameboy::mmu::MMU;
use gameboy::registers::Registers;

#[test]
fn test_ld_bc_word() {
    let mut mmu = MMU::new_with_mbc3();
    mmu.write(0xA000, 0xEF);
    mmu.write(0xA001, 0xBE);

    let mut cpu = CPU::new(mmu);
    cpu.registers = Registers {
        pc: 0xA000,
        ..Registers::new()
    };

    cpu.call(0x01).unwrap();

    assert_eq!(cpu.ticks, 12);
    assert_eq!(cpu.registers.bc(), 0xBEEF);
}

#[test]
fn test_ld_b_u8() {
    let mut mmu = MMU::new_with_mbc3();
    mmu.write(0xA000, 0x69);

    let mut cpu = CPU::new(mmu);
    cpu.registers = Registers {
        pc: 0xA000,
        ..Registers::new()
    };

    cpu.call(0x06).unwrap();

    assert_eq!(cpu.ticks, 8);
    assert_eq!(cpu.registers.b, 0x69);
}

#[test]
fn test_daa() {
    let mut mmu = MMU::new_with_mbc3();
    let mut cpu = CPU::new(mmu);
    cpu.registers = Registers {
        a: 0x11,
        b: 0x19,
        ..Registers::new()
    };

    cpu.call(0x80).unwrap();
    assert_eq!(cpu.registers.a, 0x2A);
    assert_eq!(cpu.ticks, 4);
    cpu.call(0x27).unwrap();
    assert_eq!(cpu.registers.a, 0x30);

    assert_eq!(cpu.ticks, 4 + 4);
}

#[test]
fn test_daa_carry() {
    let mut mmu = MMU::new_with_mbc3();
    let mut cpu = CPU::new(mmu);
    cpu.registers = Registers {
        a: 0x01,
        b: 0x99,
        ..Registers::new()
    };

    cpu.call(0x80).unwrap();
    assert_eq!(cpu.registers.a, 0x9A);
    assert_eq!(cpu.ticks, 4);
    cpu.call(0x27).unwrap();
    assert_eq!(cpu.registers.a, 0x00);
    assert!(cpu.registers.get_carry());

    assert_eq!(cpu.ticks, 4 + 4);
}

#[test]
fn test_ld_b_c() {
    let mut mmu = MMU::new_with_mbc3();
    let mut cpu = CPU::new(mmu);
    cpu.registers = Registers {
        b: 0x42,
        c: 0x69,
        ..Registers::new()
    };

    cpu.call(0x41).unwrap();

    assert_eq!(cpu.ticks, 4);
    assert_eq!(cpu.registers.b, 0x69);
}

#[test]
fn test_ld_mem_bc_a() {
    let mut mmu = MMU::new_with_mbc3();
    mmu.write(0x0000, 0x34);
    mmu.write(0x0001, 0xA2);

    let mut cpu = CPU::new(mmu);
    cpu.registers = Registers {
        pc: 0x0000,
        a: 0x69,
        b: 0xA2,
        c: 0x34,
        ..Registers::new()
    };

    cpu.call(0x02).unwrap();

    assert_eq!(cpu.ticks, 8);
    assert_eq!(cpu.mmu.read(0xA234), 0x69);
}

#[test]
fn test_word_reg_inc() {
    let mut mmu = MMU::new_with_mbc3();
    let mut cpu = CPU::new(mmu);
    cpu.registers = Registers {
        pc: 0x0000,
        b: 0x68,
        c: 0xFF,
        ..Registers::new()
    };

    cpu.call(0x03).unwrap();

    assert_eq!(cpu.ticks, 8);
    assert_eq!(cpu.registers.bc(), 0x6900);
}

#[test]
fn test_inc_b() {
    let mut mmu = MMU::new_with_mbc3();
    let mut cpu = CPU::new(mmu);
    cpu.registers = Registers {
        pc: 0x0000,
        b: 0x68,
        ..Registers::new()
    };

    cpu.call(0x04).unwrap();

    assert_eq!(cpu.ticks, 4);
    assert_eq!(cpu.registers.b, 0x69);
    assert!(!cpu.registers.get_negative());
    assert!(!cpu.registers.get_zero());
}

#[test]
fn test_inc_b_overflowing() {
    let mut mmu = MMU::new_with_mbc3();
    let mut cpu = CPU::new(mmu);
    cpu.registers = Registers {
        pc: 0x0000,
        b: 0xFF,
        ..Registers::new()
    };

    cpu.call(0x04).unwrap();

    assert_eq!(cpu.ticks, 4);
    assert_eq!(cpu.registers.b, 0x00);
    assert!(!cpu.registers.get_negative());
    assert!(cpu.registers.get_zero());
}

#[test]
fn test_inc_b_half_carry() {
    let mut mmu = MMU::new_with_mbc3();
    let mut cpu = CPU::new(mmu);
    cpu.registers = Registers {
        pc: 0x0000,
        b: 0x0F,
        ..Registers::new()
    };

    cpu.call(0x04).unwrap();

    assert_eq!(cpu.ticks, 4);
    assert_eq!(cpu.registers.b, 0x10);
    assert!(!cpu.registers.get_negative());
    assert!(!cpu.registers.get_zero());
    assert!(cpu.registers.get_half_carry());
}

#[test]
fn test_inc_mem_hl() {
    let mut mmu = MMU::new_with_mbc3();
    mmu.write(0xA234, 0x69 - 1);
    let mut cpu = CPU::new(mmu);
    cpu.registers = Registers {
        h: 0xA2,
        l: 0x34,
        f: 0xF0,
        ..Registers::new()
    };

    cpu.call(0x34).unwrap();

    assert_eq!(cpu.ticks, 12);
    let byte = cpu.mmu.read(0xA234);
    assert_eq!(byte, 0x69);
    assert!(!cpu.registers.get_negative());
    assert!(!cpu.registers.get_zero());
}

#[test]
fn test_dec_b() {
    let mut mmu = MMU::new_with_mbc3();
    let mut cpu = CPU::new(mmu);
    cpu.registers = Registers {
        pc: 0x0000,
        b: 0x6A,
        ..Registers::new()
    };

    cpu.call(0x05).unwrap();

    assert_eq!(cpu.ticks, 4);
    assert_eq!(cpu.registers.b, 0x69);
}

#[test]
fn test_rlca() {
    let mut mmu = MMU::new_with_mbc3();
    let mut cpu = CPU::new(mmu);
    cpu.registers = Registers {
        a: 0b11000000,
        ..Registers::new()
    };

    cpu.call(0x07).unwrap();

    assert_eq!(cpu.ticks, 4);
    assert_eq!(
        cpu.registers.a, 0b10000001,
        "{:#010b} != {:#010b}",
        cpu.registers.a, 0b10000001
    );
}

#[test]
fn test_rla() {
    let mut mmu = MMU::new_with_mbc3();
    let mut cpu = CPU::new(mmu);
    cpu.registers = Registers {
        a: 0b11000000,
        f: 0,
        ..Registers::new()
    };

    cpu.call(0x17).unwrap();

    assert_eq!(cpu.ticks, 4);
    assert_eq!(
        cpu.registers.a, 0b10000000,
        "{:#010b} != {:#010b}",
        cpu.registers.a, 0b10000000
    );
    assert!(cpu.registers.get_carry());
}

#[test]
fn test_rla_with_incoming_carry() {
    let mut mmu = MMU::new_with_mbc3();
    let mut registers = Registers {
        a: 0b11000000,
        ..Registers::new()
    };

    registers.carry(true);

    let mut cpu = CPU::new(mmu);
    cpu.registers = registers;

    cpu.call(0x17).unwrap();

    assert_eq!(cpu.ticks, 4);
    assert_eq!(
        cpu.registers.a, 0b10000001,
        "{:#010b} != {:#010b}",
        cpu.registers.a, 0b10000001
    );
    assert!(cpu.registers.get_carry());
}

#[test]
fn test_rla_without_outgoing_carry() {
    let mut mmu = MMU::new_with_mbc3();
    let mut registers = Registers {
        a: 0b01000000,
        ..Registers::new()
    };

    registers.carry(true);

    let mut cpu = CPU::new(mmu);
    cpu.registers = registers;

    cpu.call(0x17).unwrap();

    assert_eq!(cpu.ticks, 4);
    assert_eq!(
        cpu.registers.a, 0b10000001,
        "{:#010b} != {:#010b}",
        cpu.registers.a, 0b10000001
    );
    assert!(!cpu.registers.get_carry());
}

#[test]
fn test_rra() {
    let mut mmu = MMU::new_with_mbc3();
    let mut cpu = CPU::new(mmu);
    cpu.registers = Registers {
        a: 0b10000001,
        ..Registers::new()
    };

    cpu.call(0x1F).unwrap();

    assert_eq!(cpu.ticks, 4);
    assert_eq!(
        cpu.registers.a, 0b01000000,
        "{:#010b} != {:#010b}",
        cpu.registers.a, 0b11000000
    );
    assert!(cpu.registers.get_carry());
}

#[test]
fn test_rrca() {
    let mut mmu = MMU::new_with_mbc3();
    let mut registers = Registers {
        a: 0b00010001,
        ..Registers::new()
    };

    let mut cpu = CPU::new(mmu);
    cpu.registers = registers;

    cpu.call(0x0F).unwrap();

    assert_eq!(cpu.ticks, 4);
    assert_eq!(
        cpu.registers.a, 0b10001000,
        "{:#010b} != {:#010b}",
        cpu.registers.a, 0b10001000
    );
    assert!(cpu.registers.get_carry());
}

#[test]
fn test_ld_u16_sp() {
    let mut mmu = MMU::new_with_mbc3();
    mmu.write(0xA000, 0x69);
    mmu.write(0xA001, 0xA0);
    let mut cpu = CPU::new(mmu);
    cpu.registers = Registers {
        pc: 0xA000,
        s: 0xBE,
        p: 0xEF,
        ..Registers::new()
    };

    cpu.call(0x08).unwrap();

    assert_eq!(cpu.ticks, 20);
    assert_eq!(cpu.mmu.read(0xA069), 0xEF);
    assert_eq!(cpu.mmu.read(0xA06A), 0xBE);
}

#[test]
fn test_add_hl_bc() {
    let mut mmu = MMU::new_with_mbc3();
    let mut cpu = CPU::new(mmu);
    cpu.registers = Registers {
        pc: 0x00,
        h: 0x11,
        l: 0x11,
        b: 0xBE,
        c: 0xEF,
        ..Registers::new()
    };

    cpu.call(0x09).unwrap();

    assert_eq!(cpu.ticks, 8);
    assert_eq!(
        cpu.registers.h, 0xD0,
        "{:#02x} != {:#02x}",
        cpu.registers.h, 0xD0
    );
    assert_eq!(cpu.registers.l, 0x00);
}

#[test]
fn test_ld_a_bc_() {
    let mut mmu = MMU::new_with_mbc3();
    mmu.write(0xA234, 0x69);

    let mut cpu = CPU::new(mmu);
    cpu.registers = Registers {
        pc: 0x00,
        a: 0,
        b: 0xA2,
        c: 0x34,
        ..Registers::new()
    };

    cpu.call(0x0A).unwrap();

    assert_eq!(cpu.ticks, 8);
    assert_eq!(
        cpu.registers.a, 0x69,
        "{:#02x} != {:#02x}",
        cpu.registers.a, 0x69
    );
}

#[test]
fn test_dec_bc() {
    let mut mmu = MMU::new_with_mbc3();
    let mut cpu = CPU::new(mmu);
    cpu.registers = Registers {
        pc: 0x00,
        a: 0,
        b: 0xA2,
        c: 0x00,
        ..Registers::new()
    };

    cpu.call(0x0B).unwrap();

    assert_eq!(cpu.ticks, 8);
    assert_eq!(
        cpu.registers.b, 0xA1,
        "{:#02x} != {:#02x}",
        cpu.registers.b, 0xA1
    );
    assert_eq!(
        cpu.registers.c, 0xFF,
        "{:#02x} != {:#02x}",
        cpu.registers.c, 0xFF
    );
}

#[test]
fn test_jr_i8() {
    let mut mmu = MMU::new_with_mbc3();
    mmu.write(0xA010, 0x05);
    let mut cpu = CPU::new(mmu);
    cpu.registers = Registers {
        pc: 0xA010,
        ..Registers::new()
    };

    cpu.call(0x18).unwrap();

    assert_eq!(cpu.ticks, 12);
    assert_eq!(
        cpu.registers.pc, 0xA016,
        "{:#04x} != {:#04x}",
        cpu.registers.pc, 0x0016
    );
}

#[test]
fn test_jr_i8_negative() {
    let mut mmu = MMU::new_with_mbc3();
    mmu.write(0xA010, i8::from(-5) as u8);
    let mut cpu = CPU::new(mmu);
    cpu.registers = Registers {
        pc: 0xA010,
        ..Registers::new()
    };

    cpu.call(0x18).unwrap();

    assert_eq!(
        cpu.registers.pc,
        0xA010 - 5 + 1,
        "{:#04x} != {:#04x}",
        cpu.registers.pc,
        0xA010 - 5 + 1
    );
}

#[test]
fn test_jr_nz_i8_zero() {
    let mut mmu = MMU::new_with_mbc3();
    mmu.write(0xA010, 0x05);
    let mut registers = Registers {
        pc: 0xA010,
        ..Registers::new()
    };
    registers.zero(true);

    let mut cpu = CPU::new(mmu);
    cpu.registers = registers;

    cpu.call(0x20).unwrap();

    assert_eq!(cpu.ticks, 8);
    assert_eq!(
        cpu.registers.pc, 0xA011,
        "{:#04x} != {:#04x}",
        cpu.registers.pc, 0xA011
    );
}

#[test]
fn test_jr_nz_i8_not_zero() {
    let mut mmu = MMU::new_with_mbc3();
    mmu.write(0xA010, 0x05);
    let mut registers = Registers {
        pc: 0xA010,
        ..Registers::new()
    };
    registers.zero(false);

    let mut cpu = CPU::new(mmu);
    cpu.registers = registers;

    cpu.call(0x20).unwrap();

    assert_eq!(cpu.ticks, 12);
    assert_eq!(
        cpu.registers.pc, 0xA016,
        "{:#04x} != {:#04x}",
        cpu.registers.pc, 0xA016
    );
}

#[test]
fn test_jr_nz_i8_not_zero_subtraction() {
    let mut mmu = MMU::new_with_mbc3();
    mmu.write(0xA010, -5i8 as u8);
    let mut registers = Registers {
        pc: 0xA010,
        ..Registers::new()
    };
    registers.zero(false);

    let mut cpu = CPU::new(mmu);
    cpu.registers = registers;

    cpu.call(0x20).unwrap();

    assert_eq!(cpu.ticks, 12);
    assert_eq!(
        cpu.registers.pc,
        0xA010 - 5 + 1,
        "{:#04x} != {:#04x}",
        cpu.registers.pc,
        0xA010 - 5 + 1
    );
}

#[test]
fn test_jr_z_i8_zero() {
    let mut mmu = MMU::new_with_mbc3();
    mmu.write(0xA010, 0x05);
    let mut registers = Registers {
        pc: 0xA010,
        ..Registers::new()
    };
    registers.zero(true);

    let mut cpu = CPU::new(mmu);
    cpu.registers = registers;

    cpu.call(0x28).unwrap();

    assert_eq!(cpu.ticks, 12);
    assert_eq!(
        cpu.registers.pc, 0xA016,
        "{:#04x} != {:#04x}",
        cpu.registers.pc, 0xA016
    );
}

#[test]
fn test_jr_z_i8_zero_subtraction() {
    let mut mmu = MMU::new_with_mbc3();
    mmu.write(0xA010, -5i8 as u8);
    let mut registers = Registers {
        pc: 0xA010,
        ..Registers::new()
    };
    registers.zero(true);

    let mut cpu = CPU::new(mmu);
    cpu.registers = registers;

    cpu.call(0x28).unwrap();

    assert_eq!(cpu.ticks, 12);
    assert_eq!(
        cpu.registers.pc,
        0xA010 - 5 + 1,
        "{:#04x} != {:#04x}",
        cpu.registers.pc,
        0xA010 - 5 + 1
    );
}

#[test]
fn test_jr_z_i8_not_zero() {
    let mut mmu = MMU::new_with_mbc3();
    mmu.write(0x0010, 0x05);
    let mut registers = Registers {
        pc: 0x0010,
        ..Registers::new()
    };
    registers.zero(false);

    let mut cpu = CPU::new(mmu);
    cpu.registers = registers;

    cpu.call(0x28).unwrap();

    assert_eq!(cpu.ticks, 8);
    assert_eq!(
        cpu.registers.pc, 0x0011,
        "{:#04x} != {:#04x}",
        cpu.registers.pc, 0x0011
    );
}

#[test]
fn test_cpl() {
    let mut mmu = MMU::new_with_mbc3();
    let mut cpu = CPU::new(mmu);
    cpu.registers = Registers {
        a: 0b10101010,
        ..Registers::new()
    };

    cpu.call(0x2F).unwrap();

    assert_eq!(cpu.ticks, 4);
    assert_eq!(cpu.registers.a, 0b01010101);
    assert!(cpu.registers.get_negative());
    assert!(cpu.registers.get_half_carry());
}

#[test]
fn test_ccf() {
    let mut mmu = MMU::new_with_mbc3();
    let mut registers = Registers::new();
    registers.carry(true);
    registers.half_carry(true);
    registers.negative(true);
    let mut cpu = CPU::new(mmu);
    cpu.registers = registers;

    cpu.call(0x3F).unwrap();

    assert_eq!(cpu.ticks, 4);
    assert_eq!(cpu.registers.get_carry(), false);
    assert!(!cpu.registers.get_negative());
    assert!(!cpu.registers.get_half_carry());
}

#[test]
fn test_scf() {
    let mut mmu = MMU::new_with_mbc3();
    let mut registers = Registers::new();
    registers.carry(false);
    registers.half_carry(true);
    registers.negative(true);
    let mut cpu = CPU::new(mmu);
    cpu.registers = registers;

    cpu.call(0x37).unwrap();

    assert_eq!(cpu.ticks, 4);
    assert!(cpu.registers.get_carry());
    assert!(!cpu.registers.get_negative());
    assert!(!cpu.registers.get_half_carry());
}

#[test]
fn test_add_a_b() {
    let mut mmu = MMU::new_with_mbc3();
    let mut cpu = CPU::new(mmu);
    cpu.registers = Registers {
        a: 0x13,
        b: 0x56,
        ..Registers::new()
    };

    cpu.call(0x80).unwrap();

    assert_eq!(cpu.ticks, 4);
    assert_eq!(cpu.registers.a, 0x69);
    assert!(!cpu.registers.get_zero())
}

#[test]
fn test_add_a_b_half_carry() {
    let mut mmu = MMU::new_with_mbc3();
    let mut cpu = CPU::new(mmu);
    cpu.registers = Registers {
        a: 0x08,
        b: 0x08,
        ..Registers::new()
    };

    cpu.call(0x80).unwrap();

    assert_eq!(cpu.ticks, 4);
    assert_eq!(cpu.registers.a, 0x10);
    assert!(!cpu.registers.get_zero());
    assert!(cpu.registers.get_half_carry());
    assert!(!cpu.registers.get_carry());
}

#[test]
fn test_add_a_b_carry() {
    let mut mmu = MMU::new_with_mbc3();
    let mut cpu = CPU::new(mmu);
    cpu.registers = Registers {
        a: 0x80,
        b: 0x80,
        ..Registers::new()
    };

    cpu.call(0x80).unwrap();

    assert_eq!(cpu.ticks, 4);
    assert_eq!(cpu.registers.a, 0x00);
    assert!(cpu.registers.get_zero());
    assert!(!cpu.registers.get_half_carry());
    assert!(cpu.registers.get_carry());
}

#[test]
fn test_add_a_hl() {
    let mut mmu = MMU::new_with_mbc3();
    mmu.write(0xA234, 0x13);

    let mut cpu = CPU::new(mmu);
    cpu.registers = Registers {
        a: 0x56,
        h: 0xA2,
        l: 0x34,
        ..Registers::new()
    };

    cpu.call(0x86).unwrap();

    assert_eq!(cpu.ticks, 8);
    assert_eq!(cpu.registers.a, 0x69);
}

#[test]
fn test_add_a_l_flags() {
    let mut mmu = MMU::new_with_mbc3();
    let mut cpu = CPU::new(mmu);
    cpu.registers = Registers {
        a: 0b10001001,
        l: 0b10001001,
        ..Registers::new()
    };

    cpu.call(0x85).unwrap();

    assert_eq!(cpu.ticks, 4);
    assert_eq!(cpu.registers.a, 0b00010010);
    assert!(cpu.registers.get_carry());
    assert!(cpu.registers.get_half_carry());
}

#[test]
fn test_add_a_l_flags_off() {
    let mut mmu = MMU::new_with_mbc3();
    let mut cpu = CPU::new(mmu);
    cpu.registers = Registers {
        a: 0b00000001,
        l: 0b00000001,
        ..Registers::new()
    };

    cpu.call(0x85).unwrap();

    assert_eq!(cpu.ticks, 4);
    assert_eq!(cpu.registers.a, 0b00000010);
    assert!(!cpu.registers.get_carry());
    assert!(!cpu.registers.get_half_carry());
}

#[test]
fn test_adc_a_b_with_carry() {
    let mut mmu = MMU::new_with_mbc3();
    let mut registers = Registers {
        a: 0b00001001,
        b: 0b10001001,
        ..Registers::new()
    };

    registers.carry(true);

    let mut cpu = CPU::new(mmu);
    cpu.registers = registers;

    cpu.call(0x88).unwrap();

    assert_eq!(cpu.ticks, 4);
    assert_eq!(
        cpu.registers.a, 0b10010011,
        "{:#010b} != {:#010b}",
        cpu.registers.a, 0b10010011
    );
    assert!(cpu.registers.get_half_carry());
    assert!(!cpu.registers.get_carry());
}

#[test]
fn test_sub_a_b() {
    let mut mmu = MMU::new_with_mbc3();
    let mut cpu = CPU::new(mmu);
    cpu.registers = Registers {
        a: 0x69,
        b: 0x33,
        ..Registers::new()
    };

    cpu.call(0x90).unwrap();

    assert_eq!(cpu.ticks, 4);
    assert_eq!(cpu.registers.a, 0x36);
}

#[test]
fn test_cp_a_b_half_carry() {
    let mut mmu = MMU::new_with_mbc3();
    let mut cpu = CPU::new(mmu);
    cpu.registers = Registers {
        a: 0b00010000,
        b: 1,
        ..Registers::new()
    };

    cpu.call(0xB8).unwrap();

    assert_eq!(cpu.ticks, 4);
    assert!(cpu.registers.get_half_carry());
    assert!(!cpu.registers.get_carry());
}

#[test]
fn test_sub_a_b_half_carry() {
    let mut mmu = MMU::new_with_mbc3();
    let mut cpu = CPU::new(mmu);
    cpu.registers = Registers {
        a: 0b00010000,
        b: 1,
        ..Registers::new()
    };

    cpu.call(0x90).unwrap();

    assert_eq!(cpu.ticks, 4);
    assert_eq!(cpu.registers.a, 15);
    assert!(cpu.registers.get_half_carry());
    assert!(!cpu.registers.get_carry());
}

#[test]
fn test_sub_a_b_carry() {
    let mut mmu = MMU::new_with_mbc3();
    let mut cpu = CPU::new(mmu);
    cpu.registers = Registers {
        a: 0b00000000,
        b: 0b00010000,
        ..Registers::new()
    };

    cpu.call(0x90).unwrap();

    assert_eq!(cpu.ticks, 4);
    assert!(!cpu.registers.get_half_carry());
    assert!(cpu.registers.get_carry());
}

#[test]
fn test_sub_a_b_both_carry() {
    let mut mmu = MMU::new_with_mbc3();
    let mut cpu = CPU::new(mmu);
    cpu.registers = Registers {
        a: 0b00000000,
        b: 0b00001000,
        ..Registers::new()
    };

    cpu.call(0x90).unwrap();

    assert_eq!(cpu.ticks, 4);
    assert!(cpu.registers.get_half_carry());
    assert!(cpu.registers.get_carry());
}

#[test]
fn test_cp_a_b_carry() {
    let mut mmu = MMU::new_with_mbc3();
    let mut cpu = CPU::new(mmu);
    cpu.registers = Registers {
        a: 0b00000000,
        b: 0b00010000,
        ..Registers::new()
    };

    cpu.call(0xB8).unwrap();

    assert_eq!(cpu.ticks, 4);
    assert!(!cpu.registers.get_half_carry());
    assert!(cpu.registers.get_carry());
}

#[test]
fn test_sbc_a_b() {
    let mut mmu = MMU::new_with_mbc3();
    let mut registers = Registers {
        a: 0x69,
        b: 0x33,
        ..Registers::new()
    };
    registers.carry(true);
    let registers = registers;

    let mut cpu = CPU::new(mmu);
    cpu.registers = registers;

    cpu.call(0x98).unwrap();

    assert_eq!(cpu.ticks, 4);
    assert_eq!(cpu.registers.a, 0x35);
}

#[test]
fn test_sbc_a_b_no_carry() {
    let mut mmu = MMU::new_with_mbc3();
    let mut registers = Registers {
        a: 0x69,
        b: 0x33,
        ..Registers::new()
    };
    registers.carry(false);
    let registers = registers;

    let mut cpu = CPU::new(mmu);
    cpu.registers = registers;

    cpu.call(0x98).unwrap();

    assert_eq!(cpu.ticks, 4);
    assert_eq!(cpu.registers.a, 0x36);
}

#[test]
fn test_and_a_b() {
    let mut mmu = MMU::new_with_mbc3();
    let mut cpu = CPU::new(mmu);
    cpu.registers = Registers {
        a: 0b10101010,
        b: 0b00001111,
        ..Registers::new()
    };

    cpu.call(0xA0).unwrap();

    assert_eq!(cpu.ticks, 4);
    assert_eq!(cpu.registers.a, 0b00001010);
    assert!(cpu.registers.get_half_carry());
    assert!(!cpu.registers.get_carry());
}

#[test]
fn test_or_a_b() {
    let mut mmu = MMU::new_with_mbc3();
    let mut cpu = CPU::new(mmu);
    cpu.registers = Registers {
        a: 0b10101010,
        b: 0b00001111,
        ..Registers::new()
    };

    cpu.call(0xB0).unwrap();

    assert_eq!(cpu.ticks, 4);
    assert_eq!(cpu.registers.a, 0b10101111);
    assert!(!cpu.registers.get_half_carry());
    assert!(!cpu.registers.get_carry());
}

#[test]
fn test_xor_a_b() {
    let mut mmu = MMU::new_with_mbc3();
    let mut cpu = CPU::new(mmu);
    cpu.registers = Registers {
        a: 0b10101010,
        b: 0b01011111,
        ..Registers::new()
    };

    cpu.call(0xA8).unwrap();

    assert_eq!(cpu.ticks, 4);
    assert_eq!(cpu.registers.a, 0b11110101);
    assert!(!cpu.registers.get_half_carry());
    assert!(!cpu.registers.get_carry());
    assert!(!cpu.registers.get_zero());
}

#[test]
fn test_xor_a_a() {
    let mut mmu = MMU::new_with_mbc3();
    let mut cpu = CPU::new(mmu);
    cpu.registers = Registers {
        a: 0b10101010,
        ..Registers::new()
    };

    cpu.call(0xAF).unwrap();

    assert_eq!(cpu.ticks, 4);
    assert_eq!(cpu.registers.a, 0);
    assert!(!cpu.registers.get_half_carry());
    assert!(!cpu.registers.get_carry());
    assert!(cpu.registers.get_zero());
}

#[test]
fn test_ret() {
    let mut mmu = MMU::new_with_mbc3();
    mmu.write(0xA000, 0xEF);
    mmu.write(0xA001, 0xBE);
    let registers = Registers {
        s: 0xA0,
        p: 0x00,
        ..Registers::new()
    };

    let mut cpu = CPU::new(mmu);
    cpu.registers = registers;

    cpu.call(0xC9).unwrap();

    assert_eq!(cpu.ticks, 16);
    assert_eq!(cpu.registers.pc, 0xBEEF);
    let sp = cpu.registers.sp();
    assert_eq!(sp, 0xA002);
}

#[test]
fn test_ret_nz() {
    let mut mmu = MMU::new_with_mbc3();
    mmu.write(0xA000, 0xEF);
    mmu.write(0xA001, 0xBE);
    let mut registers = Registers {
        s: 0xA0,
        p: 0x00,
        ..Registers::new()
    };
    registers.zero(false);
    let registers = registers;

    let mut cpu = CPU::new(mmu);
    cpu.registers = registers;

    cpu.call(0xC0).unwrap();

    assert_eq!(cpu.ticks, 20);
    assert_eq!(cpu.registers.pc, 0xBEEF);
    let sp = cpu.registers.sp();
    assert_eq!(sp, 0xA002);
}

#[test]
fn test_ret_nz_while_zero() {
    let mut mmu = MMU::new_with_mbc3();
    mmu.write(0xA000, 0xEF);
    mmu.write(0xA001, 0xBE);
    let mut registers = Registers {
        s: 0xA0,
        p: 0x00,
        pc: 0x4200,
        ..Registers::new()
    };
    registers.zero(true);
    let registers = registers;

    let mut cpu = CPU::new(mmu);
    cpu.registers = registers;

    cpu.call(0xC0).unwrap();

    assert_eq!(cpu.ticks, 8);
    assert_eq!(cpu.registers.pc, 0x4200);
    let sp = cpu.registers.sp();
    assert_eq!(sp, 0xA000);
}

#[test]
fn test_pop_bc() {
    let mut mmu = MMU::new_with_mbc3();
    mmu.write(0xA000, 0xEF);
    mmu.write(0xA001, 0xBE);
    let registers = Registers {
        s: 0xA0,
        p: 0x00,
        ..Registers::new()
    };

    let mut cpu = CPU::new(mmu);
    cpu.registers = registers;

    cpu.call(0xC1).unwrap();

    assert_eq!(cpu.ticks, 12);
    let bc = cpu.registers.bc();
    assert_eq!(bc, 0xBEEF, "{:#06x} != {:#06x}", bc, 0xBEEF);
    let sp = cpu.registers.sp();
    assert_eq!(sp, 0xA002, "{:#06x} != {:#06x}", sp, 0xA002);
}

#[test]
fn test_push_bc() {
    let mut mmu = MMU::new_with_mbc3();
    let registers = Registers {
        s: 0xA0,
        p: 0x02,
        b: 0xBE,
        c: 0xEF,
        ..Registers::new()
    };

    let mut cpu = CPU::new(mmu);
    cpu.registers = registers;

    cpu.call(0xC5).unwrap();

    assert_eq!(cpu.ticks, 16);
    let hi = cpu.mmu.read(0xA001) as u16;
    let lo = cpu.mmu.read(0xA000) as u16;
    let v = (hi << 8) | lo;
    assert_eq!(v, 0xBEEF, "{:#06x} != {:#06x}", v, 0xBEEF);
    let sp = cpu.registers.sp();
    assert_eq!(sp, 0xA000, "{:#06x} != {:#06x}", sp, 0xA000);
}

#[test]
fn test_jp_u16() {
    let mut mmu = MMU::new_with_mbc3();
    mmu.write(0xA000, 0xEF);
    mmu.write(0xA001, 0xBE);
    let registers = Registers {
        pc: 0xA000,
        ..Registers::new()
    };

    let mut cpu = CPU::new(mmu);
    cpu.registers = registers;

    cpu.call(0xC3).unwrap();

    assert_eq!(cpu.ticks, 16);
    let pc = cpu.registers.pc;
    assert_eq!(pc, 0xBEEF, "{:#06x} != {:#06x}", pc, 0xBEEF);
}

#[test]
fn test_jp_nz_u16() {
    let mut mmu = MMU::new_with_mbc3();
    mmu.write(0xA000, 0xEF);
    mmu.write(0xA001, 0xBE);
    let mut registers = Registers {
        pc: 0xA000,
        ..Registers::new()
    };

    registers.zero(false);
    let registers = registers;

    let mut cpu = CPU::new(mmu);
    cpu.registers = registers;

    cpu.call(0xC2).unwrap();

    assert_eq!(cpu.ticks, 16);
    let pc = cpu.registers.pc;
    assert_eq!(pc, 0xBEEF, "{:#06x} != {:#06x}", pc, 0xBEEF);
}

#[test]
fn test_jp_nz_u16_while_zero() {
    let mut mmu = MMU::new_with_mbc3();
    mmu.write(0xA000, 0xEF);
    mmu.write(0xA001, 0xBE);
    let mut registers = Registers {
        pc: 0xA000,
        ..Registers::new()
    };

    registers.zero(true);
    let registers = registers;

    let mut cpu = CPU::new(mmu);
    cpu.registers = registers;

    cpu.call(0xC2).unwrap();

    assert_eq!(cpu.ticks, 12);
    let pc = cpu.registers.pc;
    assert_eq!(pc, 0xA002, "{:#06x} != {:#06x}", pc, 0xA002);
}

#[test]
fn test_rst_18h() {
    let mut mmu = MMU::new_with_mbc3();
    let registers = Registers {
        pc: 0xBEEF,
        s: 0xA0,
        p: 0x02,
        ..Registers::new()
    };

    let mut cpu = CPU::new(mmu);
    cpu.registers = registers;

    cpu.call(0xDF).unwrap();

    assert_eq!(cpu.ticks, 16);

    assert_eq!(cpu.registers.pc, 0x0018);
    let sp = cpu.registers.sp();
    assert_eq!(sp, 0xA000);

    let lo = cpu.mmu.read(0xA000) as u16;
    let hi = cpu.mmu.read(0xA001) as u16;
    let v = (hi << 8) | lo;
    assert_eq!(v, 0xBEEF);
}

#[test]
fn test_call() {
    let mut mmu = MMU::new_with_mbc3();
    mmu.write(0xA000, 0xEF);
    mmu.write(0xA001, 0xBE);
    let registers = Registers {
        s: 0xB0,
        p: 0x02,
        pc: 0xA000,
        ..Registers::new()
    };

    let mut cpu = CPU::new(mmu);
    cpu.registers = registers;

    cpu.call(0xCD).unwrap();

    assert_eq!(cpu.ticks, 24);

    assert_eq!(cpu.registers.pc, 0xBEEF);
    let sp = cpu.registers.sp();
    assert_eq!(sp, 0xB000);

    let lo = cpu.mmu.read(0xB000) as u16;
    let hi = cpu.mmu.read(0xB001) as u16;
    let old_pc = (hi << 8) | lo;
    assert_eq!(old_pc, 0xA002);
}

#[test]
fn test_add_sp_i8() {
    let mut mmu = MMU::new_with_mbc3();
    mmu.write(0xA000, 0x11);

    let registers = Registers {
        s: 0xAB,
        p: 0x22,
        pc: 0xA000,
        ..Registers::new()
    };

    let mut cpu = CPU::new(mmu);
    cpu.registers = registers;

    cpu.call(0xE8).unwrap();

    let sp = cpu.registers.sp();
    assert_eq!(sp, 0xAB33);
    assert_eq!(cpu.registers.pc, 0xA001);
}

#[test]
fn test_add_sp_i8_sub() {
    let mut mmu = MMU::new_with_mbc3();
    mmu.write(0xA000, (-0x11 as i8) as u8);

    let registers = Registers {
        s: 0xAB,
        p: 0x22,
        pc: 0xA000,
        ..Registers::new()
    };

    let mut cpu = CPU::new(mmu);
    cpu.registers = registers;

    cpu.call(0xE8).unwrap();

    assert_eq!(cpu.ticks, 16);
    let sp = cpu.registers.sp();
    assert_eq!(sp, 0xAB11);
    assert_eq!(cpu.registers.pc, 0xA001);
}

#[test]
fn test_ld_hl_sp_i8() {
    let mut mmu = MMU::new_with_mbc3();
    mmu.write(0xA000, 0x11);

    let registers = Registers {
        s: 0xAB,
        p: 0x22,
        pc: 0xA000,
        ..Registers::new()
    };

    let mut cpu = CPU::new(mmu);
    cpu.registers = registers;

    cpu.call(0xF8).unwrap();

    assert_eq!(cpu.ticks, 12);
    let hl = cpu.registers.hl();
    assert_eq!(hl, 0xAB33, "{:#06x} != {:#06x}", hl, 0xAB33);
    assert_eq!(
        cpu.registers.pc, 0xA001,
        "{:#06x} != {:#06x}",
        cpu.registers.pc, 0xA001
    );
}

#[test]
fn test_ld_a_mem_u16() {
    let mut mmu = MMU::new_with_mbc3();
    mmu.write(0xA000, 0x22);
    mmu.write(0xA001, 0xA1);
    mmu.write(0xA122, 0x69);

    let registers = Registers {
        pc: 0xA000,
        ..Registers::new()
    };

    let mut cpu = CPU::new(mmu);
    cpu.registers = registers;

    cpu.call(0xFA).unwrap();

    assert_eq!(cpu.ticks, 16);
    let a = cpu.registers.a;
    assert_eq!(a, 0x69, "{:#04x} != {:#04x}", a, 0x69);
    assert_eq!(
        cpu.registers.pc, 0xA002,
        "{:#06x} != {:#06x}",
        cpu.registers.pc, 0xA002
    );
}

#[test]
fn test_ld_mem_u16_a() {
    let mut mmu = MMU::new_with_mbc3();
    mmu.write(0xA000, 0x22);
    mmu.write(0xA001, 0xA1);
    mmu.write(0xA122, 0x33);

    let registers = Registers {
        pc: 0xA000,
        a: 0x69,
        ..Registers::new()
    };

    let mut cpu = CPU::new(mmu);
    cpu.registers = registers;

    cpu.call(0xEA).unwrap();

    assert_eq!(cpu.ticks, 16);
    let dest = cpu.mmu.read(0xA122);
    assert_eq!(dest, 0x69, "{:#04x} != {:#04x}", dest, 0x69);
    assert_eq!(
        cpu.registers.pc, 0xA002,
        "{:#06x} != {:#06x}",
        cpu.registers.pc, 0xA002
    );
}

#[test]
fn test_rlc_b() {
    let mut mmu = MMU::new_with_mbc3();
    let mut cpu = CPU::new(mmu);
    cpu.registers = Registers {
        b: 0b11000000,
        ..Registers::new()
    };

    cpu.call(0xCB).unwrap();
    cpu.call(0x00).unwrap();

    assert_eq!(
        cpu.registers.b, 0b10000001,
        "{:#010b} != {:#010b}",
        cpu.registers.b, 0b10000001
    );
    assert!(cpu.registers.get_carry());
    assert!(!cpu.registers.get_half_carry());
    assert!(!cpu.registers.get_negative());
    assert!(!cpu.registers.get_zero());
}

#[test]
fn test_rlc_b_zero() {
    let mut mmu = MMU::new_with_mbc3();
    let mut cpu = CPU::new(mmu);
    cpu.registers = Registers {
        b: 0b00000000,
        ..Registers::new()
    };

    cpu.call(0xCB).unwrap();
    cpu.call(0x00).unwrap();

    assert_eq!(cpu.ticks, 8);
    assert_eq!(
        cpu.registers.b, 0,
        "{:#010b} != {:#010b}",
        cpu.registers.b, 0
    );
    assert!(cpu.registers.get_zero());
    assert!(!cpu.registers.get_carry());
    assert!(!cpu.registers.get_half_carry());
    assert!(!cpu.registers.get_negative());
}

#[test]
fn test_rlc_b_no_carry() {
    let mut mmu = MMU::new_with_mbc3();
    let mut cpu = CPU::new(mmu);
    cpu.registers = Registers {
        b: 0b00000100,
        ..Registers::new()
    };

    cpu.call(0xCB).unwrap();
    cpu.call(0x00).unwrap();

    assert_eq!(cpu.ticks, 8);
    assert_eq!(
        cpu.registers.b, 0b00001000,
        "{:#010b} != {:#010b}",
        cpu.registers.b, 0b00001000
    );
    assert!(!cpu.registers.get_carry());
    assert!(!cpu.registers.get_half_carry());
    assert!(!cpu.registers.get_negative());
    assert!(!cpu.registers.get_zero());
}

#[test]
fn test_rrc_b() {
    let mut mmu = MMU::new_with_mbc3();
    let mut cpu = CPU::new(mmu);
    cpu.registers = Registers {
        b: 0b10000001,
        ..Registers::new()
    };

    cpu.call(0xCB).unwrap();
    cpu.call(0x08).unwrap();

    assert_eq!(cpu.ticks, 8);
    assert_eq!(
        cpu.registers.b, 0b11000000,
        "{:#010b} != {:#010b}",
        cpu.registers.b, 0b11000000
    );
    assert!(cpu.registers.get_carry());
    assert!(!cpu.registers.get_half_carry());
    assert!(!cpu.registers.get_negative());
}

#[test]
fn test_rl_b() {
    let mut mmu = MMU::new_with_mbc3();
    let mut registers = Registers {
        b: 0b10000010,
        ..Registers::new()
    };

    registers.carry(true);

    let mut cpu = CPU::new(mmu);
    cpu.registers = registers;

    cpu.call(0xCB).unwrap();
    cpu.call(0x10).unwrap();

    assert_eq!(cpu.ticks, 8);
    assert_eq!(
        cpu.registers.b, 0b00000101,
        "{:#010b} != {:#010b}",
        cpu.registers.b, 0b00000101
    );
    assert!(cpu.registers.get_carry());
    assert!(!cpu.registers.get_half_carry());
    assert!(!cpu.registers.get_negative());
}

#[test]
fn test_rl_b_no_carry() {
    let mut mmu = MMU::new_with_mbc3();
    let mut registers = Registers {
        b: 0b10000010,
        ..Registers::new()
    };

    registers.carry(false);

    let mut cpu = CPU::new(mmu);
    cpu.registers = registers;

    cpu.call(0xCB).unwrap();
    cpu.call(0x10).unwrap();

    assert_eq!(cpu.ticks, 8);
    assert_eq!(
        cpu.registers.b, 0b00000100,
        "{:#010b} != {:#010b}",
        cpu.registers.b, 0b00000100
    );
    assert!(cpu.registers.get_carry());
    assert!(!cpu.registers.get_half_carry());
    assert!(!cpu.registers.get_negative());
}

#[test]
fn test_rr_b() {
    let mut mmu = MMU::new_with_mbc3();
    let mut registers = Registers {
        b: 0b10000011,
        ..Registers::new()
    };

    registers.carry(true);

    let mut cpu = CPU::new(mmu);
    cpu.registers = registers;

    cpu.call(0xCB).unwrap();
    cpu.call(0x18).unwrap();

    assert_eq!(cpu.ticks, 8);
    assert_eq!(
        cpu.registers.b, 0b11000001,
        "{:#010b} != {:#010b}",
        cpu.registers.b, 0b11000001
    );
    assert!(cpu.registers.get_carry());
    assert!(!cpu.registers.get_half_carry());
    assert!(!cpu.registers.get_negative());
}

#[test]
fn test_rr_b_no_carry() {
    let mut mmu = MMU::new_with_mbc3();

    let mut registers = Registers {
        b: 0b10000010,
        ..Registers::new()
    };

    registers.carry(false);

    let mut cpu = CPU::new(mmu);
    cpu.registers = registers;

    cpu.call(0xCB).unwrap();
    cpu.call(0x18).unwrap();

    assert_eq!(cpu.ticks, 8);
    assert_eq!(
        cpu.registers.b, 0b01000001,
        "{:#010b} != {:#010b}",
        cpu.registers.b, 0b01000001
    );
    assert!(!cpu.registers.get_carry());
    assert!(!cpu.registers.get_half_carry());
    assert!(!cpu.registers.get_negative());
}

#[test]
fn test_sla_b() {
    let mut mmu = MMU::new_with_mbc3();
    let mut registers = Registers {
        b: 0b11000001,
        ..Registers::new()
    };

    registers.carry(true);
    let mut cpu = CPU::new(mmu);
    cpu.registers = registers;

    cpu.call(0xCB).unwrap();
    cpu.call(0x20).unwrap();

    assert_eq!(cpu.ticks, 8);
    assert_eq!(
        cpu.registers.b, 0b10000010,
        "{:#010b} != {:#010b}",
        cpu.registers.b, 0b10000010
    );
    assert!(cpu.registers.get_carry());
}

#[test]
fn test_sla_b_no_carry() {
    let mut mmu = MMU::new_with_mbc3();
    let mut registers = Registers {
        b: 0b01000001,
        ..Registers::new()
    };

    registers.carry(true);
    let mut cpu = CPU::new(mmu);
    cpu.registers = registers;

    cpu.call(0xCB).unwrap();
    cpu.call(0x20).unwrap();

    assert_eq!(cpu.ticks, 8);
    assert_eq!(
        cpu.registers.b, 0b10000010,
        "{:#010b} != {:#010b}",
        cpu.registers.b, 0b10000010
    );
    assert!(!cpu.registers.get_carry());
}

#[test]
fn test_sra_b() {
    let mut mmu = MMU::new_with_mbc3();
    let mut registers = Registers {
        b: 0b11000011,
        ..Registers::new()
    };

    registers.carry(true);
    let mut cpu = CPU::new(mmu);
    cpu.registers = registers;

    cpu.call(0xCB).unwrap();
    cpu.call(0x28).unwrap();

    assert_eq!(cpu.ticks, 8);
    assert_eq!(
        cpu.registers.b, 0b11100001,
        "{:#010b} != {:#010b}",
        cpu.registers.b, 0b11100001
    );
    assert!(cpu.registers.get_carry());
}

#[test]
fn test_srl_b() {
    let mut mmu = MMU::new_with_mbc3();
    let mut registers = Registers {
        b: 0b11000011,
        ..Registers::new()
    };

    registers.carry(true);
    let mut cpu = CPU::new(mmu);
    cpu.registers = registers;

    cpu.call(0xCB).unwrap();
    cpu.call(0x38).unwrap();

    assert_eq!(cpu.ticks, 8);
    assert_eq!(
        cpu.registers.b, 0b01100001,
        "{:#010b} != {:#010b}",
        cpu.registers.b, 0b01100001
    );
    assert!(cpu.registers.get_carry());
    assert!(!cpu.registers.get_zero());
    assert!(!cpu.registers.get_negative());
}

#[test]
fn test_srl_b_no_carry() {
    let mut mmu = MMU::new_with_mbc3();
    let mut registers = Registers {
        b: 0b11000010,
        ..Registers::new()
    };

    registers.carry(true);
    let mut cpu = CPU::new(mmu);
    cpu.registers = registers;

    cpu.call(0xCB).unwrap();
    cpu.call(0x38).unwrap();

    assert_eq!(cpu.ticks, 8);
    assert_eq!(
        cpu.registers.b, 0b01100001,
        "{:#010b} != {:#010b}",
        cpu.registers.b, 0b01100001
    );
    assert!(!cpu.registers.get_carry());
    assert!(!cpu.registers.get_zero());
    assert!(!cpu.registers.get_negative());
}

#[test]
fn test_srl_b_zero() {
    let mut mmu = MMU::new_with_mbc3();
    let mut registers = Registers {
        b: 0b00000001,
        ..Registers::new()
    };

    registers.carry(true);
    let mut cpu = CPU::new(mmu);
    cpu.registers = registers;

    cpu.call(0xCB).unwrap();
    cpu.call(0x38).unwrap();

    assert_eq!(cpu.ticks, 8);
    assert_eq!(
        cpu.registers.b, 0,
        "{:#010b} != {:#010b}",
        cpu.registers.b, 0
    );
    assert!(cpu.registers.get_carry());
    assert!(cpu.registers.get_zero());
    assert!(!cpu.registers.get_negative());
}

#[test]
fn test_sra_b_no_carry() {
    let mut mmu = MMU::new_with_mbc3();
    let mut registers = Registers {
        b: 0b01000010,
        ..Registers::new()
    };

    registers.carry(true);
    let mut cpu = CPU::new(mmu);
    cpu.registers = registers;

    cpu.call(0xCB).unwrap();
    cpu.call(0x28).unwrap();

    assert_eq!(cpu.ticks, 8);
    assert_eq!(
        cpu.registers.b, 0b00100001,
        "{:#010b} != {:#010b}",
        cpu.registers.b, 0b00100001
    );
    assert!(!cpu.registers.get_carry());
}

#[test]
fn test_swap_b() {
    let mut mmu = MMU::new_with_mbc3();
    let mut cpu = CPU::new(mmu);
    cpu.registers = Registers {
        b: 0b11101000,
        ..Registers::new()
    };

    cpu.call(0xCB).unwrap();
    cpu.call(0x30).unwrap();

    assert_eq!(cpu.ticks, 8);
    assert_eq!(cpu.registers.b, 0b10001110);
    assert!(!cpu.registers.get_zero());
    assert!(!cpu.registers.get_negative());
    assert!(!cpu.registers.get_half_carry());
    assert!(!cpu.registers.get_carry());
}

#[test]
fn test_swap_b_zero() {
    let mut mmu = MMU::new_with_mbc3();
    let mut cpu = CPU::new(mmu);
    cpu.registers = Registers {
        b: 0,
        ..Registers::new()
    };

    cpu.call(0xCB).unwrap();
    cpu.call(0x30).unwrap();

    assert_eq!(cpu.ticks, 8);
    assert_eq!(cpu.registers.b, 0);
    assert!(cpu.registers.get_zero());
    assert!(!cpu.registers.get_negative());
    assert!(!cpu.registers.get_half_carry());
    assert!(!cpu.registers.get_carry());
}

#[test]
fn test_bit_0_b_hi() {
    let mut mmu = MMU::new_with_mbc3();
    let mut cpu = CPU::new(mmu);
    cpu.registers = Registers {
        b: 0b10000001,
        ..Registers::new()
    };

    cpu.call(0xCB).unwrap();
    cpu.call(0x40).unwrap();

    assert_eq!(cpu.ticks, 8);
    assert!(!cpu.registers.get_zero());
    assert!(!cpu.registers.get_negative());
    assert!(cpu.registers.get_half_carry());
}

#[test]
fn test_bit_0_b_lo() {
    let mut mmu = MMU::new_with_mbc3();
    let mut cpu = CPU::new(mmu);
    cpu.registers = Registers {
        b: 0b10000000,
        ..Registers::new()
    };

    cpu.call(0xCB).unwrap();
    cpu.call(0x40).unwrap();

    assert_eq!(cpu.ticks, 8);
    assert!(cpu.registers.get_zero());
    assert!(!cpu.registers.get_negative());
    assert!(cpu.registers.get_half_carry());
}

#[test]
fn test_bit_4_b_hi() {
    let mut mmu = MMU::new_with_mbc3();
    let mut cpu = CPU::new(mmu);
    cpu.registers = Registers {
        b: 0b00010000,
        ..Registers::new()
    };

    cpu.call(0xCB).unwrap();
    cpu.call(0x60).unwrap();

    assert_eq!(cpu.ticks, 8);
    assert!(!cpu.registers.get_zero());
    assert!(!cpu.registers.get_negative());
    assert!(cpu.registers.get_half_carry());
}

#[test]
fn test_bit_4_b_lo() {
    let mut mmu = MMU::new_with_mbc3();
    let mut cpu = CPU::new(mmu);
    cpu.registers = Registers {
        b: 0b11101111,
        ..Registers::new()
    };

    cpu.call(0xCB).unwrap();
    cpu.call(0x60).unwrap();

    assert_eq!(cpu.ticks, 8);
    assert!(cpu.registers.get_zero());
    assert!(!cpu.registers.get_negative());
    assert!(cpu.registers.get_half_carry());
}

#[test]
fn test_res_0_b() {
    let mut mmu = MMU::new_with_mbc3();
    let mut cpu = CPU::new(mmu);
    cpu.registers = Registers {
        b: 0xFF,
        ..Registers::new()
    };

    cpu.call(0xCB).unwrap();
    cpu.call(0x80).unwrap();

    assert_eq!(cpu.ticks, 8);
    assert_eq!(cpu.registers.b, 0xFE);
}

#[test]
fn test_res_4_b() {
    let mut mmu = MMU::new_with_mbc3();
    let mut cpu = CPU::new(mmu);
    cpu.registers = Registers {
        b: 0xFF,
        ..Registers::new()
    };

    cpu.call(0xCB).unwrap();
    cpu.call(0xA0).unwrap();

    assert_eq!(cpu.ticks, 8);
    assert_eq!(cpu.registers.b, 0xEF);
}

#[test]
fn test_res_4_hl() {
    let mut mmu = MMU::new_with_mbc3();
    mmu.write(0xA234, 0xFF);
    let mut cpu = CPU::new(mmu);
    cpu.registers = Registers {
        h: 0xA2,
        l: 0x34,
        ..Registers::new()
    };

    cpu.call(0xCB).unwrap();
    cpu.call(0xA6).unwrap();

    assert_eq!(cpu.ticks, 16);
    let byte = cpu.mmu.read(0xA234);
    assert_eq!(byte, 0xEF);
}

#[test]
fn test_set_0_b() {
    let mut mmu = MMU::new_with_mbc3();
    let mut cpu = CPU::new(mmu);
    cpu.registers = Registers {
        b: 0x00,
        ..Registers::new()
    };

    cpu.call(0xCB).unwrap();
    cpu.call(0xC0).unwrap();

    assert_eq!(cpu.ticks, 8);
    assert_eq!(cpu.registers.b, 0x01);
}

#[test]
fn test_set_4_b() {
    let mut mmu = MMU::new_with_mbc3();
    let mut cpu = CPU::new(mmu);
    cpu.registers = Registers {
        b: 0x00,
        ..Registers::new()
    };

    cpu.call(0xCB).unwrap();
    cpu.call(0xE0).unwrap();

    assert_eq!(cpu.ticks, 8);
    assert_eq!(cpu.registers.b, 0x10);
}

#[test]
fn test_set_4_hl() {
    let mut mmu = MMU::new_with_mbc3();
    mmu.write(0xA234, 0x00);
    let mut cpu = CPU::new(mmu);
    cpu.registers = Registers {
        h: 0xA2,
        l: 0x34,
        ..Registers::new()
    };

    cpu.call(0xCB).unwrap();
    cpu.call(0xE6).unwrap();

    assert_eq!(cpu.ticks, 16);
    let byte = cpu.mmu.read(0xA234);
    assert_eq!(byte, 0x10);
}

