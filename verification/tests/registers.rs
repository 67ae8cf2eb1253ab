use i8080_emulator::i8080::error::EmulateError;
use i8080_emulator::i8080::flags::ConditionalFlags;
use i8080_emulator::i8080::register::{Reg, Register};
use i8080_emulator::i8080::{TwosComplement, I8080};

#[test]
fn register_pairs() {
    assert_eq!(Register::B.get_pair(), Some(Register::C));
    assert_eq!(Register::D.get_pair(), Some(Register::E));
    assert_eq!(Register::H.get_pair(), Some(Register::L));
    for register in [Register::A, Register::C, Register::E, Register::L, Register::M, Register::SP]
    {
        assert_eq!(register.get_pair(), None);
    }
}

#[test]
fn eight_bit_registers() {
    for register in [
        Register::A,
        Register::B,
        Register::C,
        Register::D,
        Register::E,
        Register::H,
        Register::L,
    ] {
        assert!(register.is_8bit());
    }
    assert!(!Register::M.is_8bit());
    assert!(!Register::SP.is_8bit());
}

#[test]
fn register_names() {
    assert_eq!(Register::A.name(), "A");
    assert_eq!(Register::B.name(), "B");
    assert_eq!(Register::C.name(), "C");
    assert_eq!(Register::D.name(), "D");
    assert_eq!(Register::E.name(), "E");
    assert_eq!(Register::H.name(), "H");
    assert_eq!(Register::L.name(), "L");
    assert_eq!(Register::M.name(), "M");
    assert_eq!(Register::SP.name(), "S");
}

#[test]
fn register_cell_marks_writes() {
    let mut reg: Reg<u8> = Reg::new(7);
    assert_eq!(reg.get(), 7);
    assert!(!reg.has_changed());
    reg.set(7);
    assert_eq!(reg.get(), 7);
    assert!(reg.has_changed());
    reg.set(9);
    reg.reset_changed();
    assert_eq!(reg.get(), 9);
    assert!(!reg.has_changed());
}

#[test]
fn register_cell_subtracts_like_its_value() {
    let reg: Reg<u8> = Reg::new(0x49);
    assert_eq!(reg.complement_sub(0x3a), (0x0f, false));
    assert_eq!(reg.complement_sub(0x4a), (0xff, true));
}

#[test]
fn complement_sub_of_a_byte_from_itself_is_zero_without_borrow() {
    for a in 0..=255u8 {
        assert_eq!(a.complement_sub(a), (0, false));
    }
}

#[test]
fn complement_sub_agrees_with_borrowing_subtraction() {
    for a in 0..=255u8 {
        for b in 0..=255u8 {
            assert_eq!(a.complement_sub(b), (a.wrapping_sub(b), a < b));
        }
    }
}

#[test]
fn cpu_starts_cleared_with_interrupts_enabled() {
    let cpu = I8080::new();
    for register in [
        Register::A,
        Register::B,
        Register::C,
        Register::D,
        Register::E,
        Register::H,
        Register::L,
    ] {
        assert_eq!(cpu.get_8bit_register(register), Ok(0));
        assert!(!cpu.has_changed(register));
    }
    assert_eq!(cpu.sp(), 0);
    assert_eq!(cpu.pc(), 0);
    assert_eq!(cpu.m(), 0);
    assert_eq!(cpu.flags(), ConditionalFlags { s: false, z: false, p: false, cy: false });
    assert!(cpu.interrupts_enabled());
}

#[test]
fn memory_operand_and_stack_pointer_have_no_8bit_value() {
    let cpu = I8080::new();
    assert_eq!(
        cpu.get_8bit_register(Register::M),
        Err(EmulateError::RegisterNot8Bit { register: Register::M })
    );
    assert_eq!(
        cpu.get_8bit_register(Register::SP),
        Err(EmulateError::RegisterNot8Bit { register: Register::SP })
    );
}

#[test]
fn setting_registers() {
    let mut cpu = I8080::new();
    cpu.set_8bit_register(Register::D, 0x12);
    assert_eq!(cpu.get_8bit_register(Register::D), Ok(0x12));
    assert!(cpu.has_changed(Register::D));
    assert!(!cpu.has_changed(Register::E));
    cpu.set_m(0x2bff);
    assert_eq!(cpu.m(), 0x2bff);
    assert_eq!(cpu.get_8bit_register(Register::H), Ok(0x2b));
    assert_eq!(cpu.get_8bit_register(Register::L), Ok(0xff));
    // Under the name M a byte goes to L, and H is cleared.
    cpu.set_8bit_register(Register::M, 0x34);
    assert_eq!(cpu.m(), 0x0034);
    // Under the name SP a byte becomes the whole stack pointer.
    cpu.set_sp(0x2400);
    cpu.set_8bit_register(Register::SP, 0x56);
    assert_eq!(cpu.sp(), 0x0056);
    assert!(cpu.has_changed(Register::SP));
    assert!(!cpu.has_changed(Register::M));
    cpu.set_pc(0x0100);
    assert_eq!(cpu.pc(), 0x0100);
    cpu.set_interrupts_enabled(false);
    assert!(!cpu.interrupts_enabled());
    cpu.reset_rc();
    for register in [Register::D, Register::H, Register::L, Register::SP] {
        assert!(!cpu.has_changed(register));
    }
    assert_eq!(cpu.get_8bit_register(Register::D), Ok(0x12));
    assert_eq!(cpu.sp(), 0x0056);
}

#[test]
fn flags_follow_the_result() {
    let mut flags = ConditionalFlags::new();
    assert_eq!(flags, ConditionalFlags { s: false, z: false, p: false, cy: false });
    flags.cy = true;
    flags.set_non_carry_flags(0x00);
    assert_eq!(flags, ConditionalFlags { s: false, z: true, p: true, cy: true });
    flags.set_non_carry_flags(0x80);
    assert_eq!(flags, ConditionalFlags { s: true, z: false, p: false, cy: true });
    flags.cy = false;
    flags.set_non_carry_flags(0x9a);
    assert_eq!(flags, ConditionalFlags { s: true, z: false, p: true, cy: false });
    flags.set_non_carry_flags(0x34);
    assert_eq!(flags, ConditionalFlags { s: false, z: false, p: false, cy: false });
    flags.set_non_carry_flags(0xff);
    assert_eq!(flags, ConditionalFlags { s: true, z: false, p: true, cy: false });
}

#[test]
fn parity_is_set_for_an_even_number_of_ones() {
    for value in 0..=255u8 {
        let mut flags = ConditionalFlags::new();
        flags.set_non_carry_flags(value);
        assert_eq!(flags.p, value.count_ones() % 2 == 0);
        assert_eq!(flags.s, value & 0x80 != 0);
        assert_eq!(flags.z, value == 0);
        assert!(!flags.cy);
    }
}
