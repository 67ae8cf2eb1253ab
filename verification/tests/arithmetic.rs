use i8080_emulator::i8080::register::Register;
use i8080_emulator::i8080::TwosComplement;
use i8080_emulator::mmu::Mmu;
use i8080_emulator::Emulator;
use std::u8;

#[test]
fn overflow_sub() {
    let m: u8 = 0x3e;
    let s: u8 = 0x3e;
    let t = m.complement_sub(s);
    assert_eq!(t, (0, false));

    let m: u8 = 0x00;
    let s: u8 = 0x01;
    assert_eq!(m.complement_sub(s), (u8::MAX, true));
}

#[test]
fn inr() {
    let bytecode = [
        0x04, // INR B
        0x34, // INR M
        0x3c, // INR A
    ];
    let mut system = Emulator::new(&bytecode);
    system.mmu_mut().write_byte(0x2bff, 0x15);
    system.cpu_mut().set_8bit_register(Register::A, 0x00);
    system.cpu_mut().set_8bit_register(Register::B, 0xff);
    system.cpu_mut().set_m(0x2bff);
    system.run();
    assert_eq!(system.cpu().get_8bit_register(Register::B), Ok(0x00));
    assert_eq!(system.mmu().read_byte(0x2bff), 0x16);
    assert_eq!(system.cpu().get_8bit_register(Register::A), Ok(0x01));
}

#[test]
fn dcr() {
    let bytecode = [
        0x05, // DCR B
        0x35, // DCR M
        0x3d, // DCR A
    ];
    let mut system = Emulator::new(&bytecode);
    system.mmu_mut().write_byte(0x2000, 0x15);
    system.cpu_mut().set_8bit_register(Register::A, 0x00);
    system.cpu_mut().set_8bit_register(Register::B, 0xff);
    system.cpu_mut().set_m(0x2000);
    system.run();
    assert_eq!(system.cpu().get_8bit_register(Register::B), Ok(0xfe));
    assert_eq!(system.mmu().read_byte(0x2000), 0x14);
    assert_eq!(system.cpu().get_8bit_register(Register::A), Ok(0xff));
}

#[test]
fn inx() {
    let bytecode = [
        0x03, // INX B
        0x13, // INX D
        0x23, // INX H
        0x33, // INX SP
    ];
    let mut system = Emulator::new(&bytecode);
    system.cpu_mut().set_8bit_register(Register::B, 0x20);
    system.cpu_mut().set_8bit_register(Register::C, 0x00);
    system.cpu_mut().set_8bit_register(Register::D, 0xff);
    system.cpu_mut().set_8bit_register(Register::E, 0xff);
    system.cpu_mut().set_8bit_register(Register::H, 0x24);
    system.cpu_mut().set_8bit_register(Register::L, 0xff);
    system.cpu_mut().set_sp(0x25ff);
    system.run();
    assert_eq!(system.cpu().get_8bit_register(Register::B), Ok(0x20));
    assert_eq!(system.cpu().get_8bit_register(Register::C), Ok(0x01));
    assert_eq!(system.cpu().get_8bit_register(Register::D), Ok(0x00));
    assert_eq!(system.cpu().get_8bit_register(Register::E), Ok(0x00));
    assert_eq!(system.cpu().get_8bit_register(Register::H), Ok(0x25));
    assert_eq!(system.cpu().get_8bit_register(Register::L), Ok(0x00));
    assert_eq!(system.cpu().sp(), 0x2600);
}

#[test]
fn dcx() {
    let bytecode = [
        0x0b, // DCX B
        0x1b, // DCX D
        0x2b, // DCX H
        0x3b, // DCX SP
    ];
    let mut system = Emulator::new(&bytecode);
    system.cpu_mut().set_8bit_register(Register::B, 0x20);
    system.cpu_mut().set_8bit_register(Register::C, 0x00);
    system.cpu_mut().set_8bit_register(Register::D, 0x00);
    system.cpu_mut().set_8bit_register(Register::E, 0x00);
    system.cpu_mut().set_8bit_register(Register::H, 0x00);
    system.cpu_mut().set_8bit_register(Register::L, 0x01);
    system.cpu_mut().set_sp(0x0f00);
    system.run();
    assert_eq!(system.cpu().get_8bit_register(Register::B), Ok(0x1f));
    assert_eq!(system.cpu().get_8bit_register(Register::C), Ok(0xff));
    assert_eq!(system.cpu().get_8bit_register(Register::D), Ok(0xff));
    assert_eq!(system.cpu().get_8bit_register(Register::E), Ok(0xff));
    assert_eq!(system.cpu().get_8bit_register(Register::H), Ok(0x00));
    assert_eq!(system.cpu().get_8bit_register(Register::L), Ok(0x00));
    assert_eq!(system.cpu().sp(), 0x0eff);
}

#[test]
fn add() {
    let bytecode = [
        0x80, // ADD B
        0x87, // ADD A
    ];
    let mut system = Emulator::new(&bytecode);
    system.cpu_mut().set_8bit_register(Register::A, 0x2e);
    system.cpu_mut().set_8bit_register(Register::B, 0x6c);
    system.step();
    assert_eq!(system.cpu().get_8bit_register(Register::A), Ok(0x9a));
    assert_eq!(system.cpu().flags().cy, false);
    assert_eq!(system.cpu().flags().p, true);
    assert_eq!(system.cpu().flags().z, false);
    assert_eq!(system.cpu().flags().s, true);

    system.step();
    assert_eq!(system.cpu().get_8bit_register(Register::A), Ok(0x34));
    assert_eq!(system.cpu().flags().cy, true);
    assert_eq!(system.cpu().flags().p, false);
    assert_eq!(system.cpu().flags().z, false);
    assert_eq!(system.cpu().flags().s, false);
}

#[test]
fn adi() {
    let bytecode = [
        0xc6, 0x6c, // ADI 0x6c
        0xc6, 0x9a, // ADI 0x9a
    ];
    let mut system = Emulator::new(&bytecode);
    system.cpu_mut().set_8bit_register(Register::A, 0x2e);
    system.step();
    assert_eq!(system.cpu().get_8bit_register(Register::A), Ok(0x9a));
    assert_eq!(system.cpu().flags().cy, false);
    assert_eq!(system.cpu().flags().p, true);
    assert_eq!(system.cpu().flags().z, false);
    assert_eq!(system.cpu().flags().s, true);

    system.step();
    assert_eq!(system.cpu().get_8bit_register(Register::A), Ok(0x34));
    assert_eq!(system.cpu().flags().cy, true);
    assert_eq!(system.cpu().flags().p, false);
    assert_eq!(system.cpu().flags().z, false);
    assert_eq!(system.cpu().flags().s, false);
}

#[test]
fn sub() {
    let bytecode = [
        0x90, // SUB B
        0x97, // SUB A
    ];
    let mut system = Emulator::new(&bytecode); // SUB B
    system.cpu_mut().set_8bit_register(Register::A, 0x49);
    system.cpu_mut().set_8bit_register(Register::B, 0x3a);
    system.step();
    assert_eq!(system.cpu().get_8bit_register(Register::A), Ok(0x0f));
    assert_eq!(system.cpu().flags().cy, false);
    assert_eq!(system.cpu().flags().p, true);
    assert_eq!(system.cpu().flags().z, false);
    assert_eq!(system.cpu().flags().s, false);

    let mut flags = system.cpu().flags();
    flags.cy = true; //Regression: sub(A) should clear carry bit
    system.cpu_mut().set_flags(flags);
    system.step();
    assert_eq!(system.cpu().get_8bit_register(Register::A), Ok(0x00));
    assert_eq!(system.cpu().flags().cy, false);
    assert_eq!(system.cpu().flags().p, true);
    assert_eq!(system.cpu().flags().z, true);
    assert_eq!(system.cpu().flags().s, false);
}

#[test]
fn sui() {
    let bytecode = [
        0xd6, 0x3a, // SUI 0x3a
        0xd6, 0x0f, // SUI 0x0f
    ];
    let mut system = Emulator::new(&bytecode);
    system.cpu_mut().set_8bit_register(Register::A, 0x49);
    system.step();
    assert_eq!(system.cpu().get_8bit_register(Register::A), Ok(0x0f));
    assert_eq!(system.cpu().flags().cy, false);
    assert_eq!(system.cpu().flags().p, true);
    assert_eq!(system.cpu().flags().z, false);
    assert_eq!(system.cpu().flags().s, false);

    system.step();
    assert_eq!(system.cpu().get_8bit_register(Register::A), Ok(0x00));
    assert_eq!(system.cpu().flags().cy, false);
    assert_eq!(system.cpu().flags().p, true);
    assert_eq!(system.cpu().flags().z, true);
    assert_eq!(system.cpu().flags().s, false);
}

#[test]
fn rrc() {
    let bytecode = [
        0x0f, // RRC
        0x0f, // RRC
    ];
    let mut system = Emulator::new(&bytecode);
    system.cpu_mut().set_8bit_register(Register::A, 0xf2);
    system.step();
    assert_eq!(system.cpu().get_8bit_register(Register::A), Ok(0x79));
    assert_eq!(system.cpu().flags().cy, false);
    system.cpu_mut().set_8bit_register(Register::A, 0x11);
    system.step();
    assert_eq!(system.cpu().get_8bit_register(Register::A), Ok(0x88));
    assert_eq!(system.cpu().flags().cy, true);
}
