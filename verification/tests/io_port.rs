use i8080_emulator::io_port::basic_io::{BasicIO, ShiftRegister};
use i8080_emulator::io_port::IOPort;

#[test]
fn plain_shift_register_reads_its_low_byte() {
    let mut sr = ShiftRegister { value: 0xaabb, offset: 3 };
    assert_eq!(sr.read(), 0xbb);
    sr.insert_value(0xef);
    assert_eq!(sr.value, 0xefaa);
    assert_eq!(sr.offset, 3);
    assert_eq!(sr.read(), 0xaa);
}

#[test]
fn plain_ports() {
    let mut io = BasicIO::default();
    io.input_0 = 1;
    io.input_1 = 2;
    io.input_2 = 3;
    assert_eq!(io.read_port(0), 1);
    assert_eq!(io.read_port(1), 2);
    assert_eq!(io.read_port(2), 3);
    io.write_port(4, 0x12);
    io.write_port(4, 0x34);
    assert_eq!(io.shift_register.value, 0x3412);
    io.write_port(2, 5);
    assert_eq!(io.shift_register.offset, 5);
    assert_eq!(io.read_port(3), 0x12);
}
