use mips_datapath::mips::registers::{RegisterType, Registers, GPR_COUNT};

#[test]
fn default_registers_are_zeroed() {
    let regs = Registers::default();
    assert_eq!(regs.pc, 0);
    assert_eq!(regs.gpr.len(), GPR_COUNT);
    for i in 0..GPR_COUNT {
        assert_eq!(regs.read(i), 0);
    }
}

#[test]
fn read_after_write_by_index() {
    let mut regs = Registers::default();
    regs.write(9, 5);
    assert_eq!(regs.read(9), 5);
    regs.write(0, 42);
    assert_eq!(regs.read(0), 42);
    regs.write(31, u64::MAX);
    assert_eq!(regs.read(31), u64::MAX);
}

#[test]
fn register_type_indices() {
    assert_eq!(RegisterType::Zero.index(), 0);
    assert_eq!(RegisterType::At.index(), 1);
    assert_eq!(RegisterType::T0.index(), 8);
    assert_eq!(RegisterType::T1.index(), 9);
    assert_eq!(RegisterType::S0.index(), 16);
    assert_eq!(RegisterType::T8.index(), 24);
    assert_eq!(RegisterType::Ra.index(), 31);
}

#[test]
fn read_by_name_finds_each_register() {
    let mut regs = Registers::default();
    for i in 0..GPR_COUNT {
        regs.write(i, 100 + i as u64);
    }
    let names = [
        "zero", "at", "v0", "v1", "a0", "a1", "a2", "a3", "t0", "t1", "t2", "t3", "t4", "t5",
        "t6", "t7", "s0", "s1", "s2", "s3", "s4", "s5", "s6", "s7", "t8", "t9", "k0", "k1", "gp",
        "sp", "fp", "ra",
    ];
    for (i, name) in names.iter().enumerate() {
        assert_eq!(regs.read_by_name(name), Some(100 + i as u64));
    }
}

#[test]
fn read_by_name_reserved_pc() {
    let mut regs = Registers::default();
    assert_eq!(regs.read_by_name("pc"), Some(0));
    regs.pc = 8;
    assert_eq!(regs.read_by_name("pc"), Some(8));
}

#[test]
fn unknown_name_yields_none() {
    let regs = Registers::default();
    assert_eq!(regs.read_by_name("bogus"), None);
    assert_eq!(regs.read_by_name(""), None);
    assert_eq!(regs.read_by_name("PC"), None);
    assert_eq!(regs.read_by_name("t10"), None);
}

#[test]
fn name_lookup_distinguishes_registers() {
    let mut regs = Registers::default();
    regs.write(8, 7);
    regs.write(9, 11);
    assert_eq!(regs.read_by_name("t0"), Some(7));
    assert_eq!(regs.read_by_name("t1"), Some(11));
}

#[test]
fn write_by_name_writes_the_named_register() {
    let mut regs = Registers::default();
    assert!(regs.write_by_name("t1", 5));
    assert_eq!(regs.read(9), 5);
    assert!(regs.write_by_name("pc", 12));
    assert_eq!(regs.pc, 12);
    assert!(!regs.write_by_name("bogus", 1));
    for i in 0..GPR_COUNT {
        if i != 9 {
            assert_eq!(regs.read(i), 0);
        }
    }
}
