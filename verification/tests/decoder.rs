use i8080_emulator::i8080::register::Register;
use i8080_emulator::instruction::opcode::{Opcode, OpcodeSize};
use i8080_emulator::instruction::{Instruction, InstructionData};

#[test]
fn decodes_the_supported_operations() {
    assert_eq!(Opcode::from(0x00), Opcode::NOP);
    assert_eq!(Opcode::from(0x01), Opcode::LXI(Register::B));
    assert_eq!(Opcode::from(0x31), Opcode::LXI(Register::SP));
    assert_eq!(Opcode::from(0x0a), Opcode::LDAX(Register::B));
    assert_eq!(Opcode::from(0x1a), Opcode::LDAX(Register::D));
    assert_eq!(Opcode::from(0x3a), Opcode::LDA);
    assert_eq!(Opcode::from(0x32), Opcode::STA);
    assert_eq!(Opcode::from(0x41), Opcode::MOV(Register::B, Register::C));
    assert_eq!(Opcode::from(0x7e), Opcode::MOV(Register::A, Register::M));
    assert_eq!(Opcode::from(0x77), Opcode::MOV(Register::M, Register::A));
    assert_eq!(Opcode::from(0x36), Opcode::MVI(Register::M));
    assert_eq!(Opcode::from(0xeb), Opcode::XCHG);
    assert_eq!(Opcode::from(0xc5), Opcode::PUSH(Register::B));
    assert_eq!(Opcode::from(0xe1), Opcode::POP(Register::H));
    assert_eq!(Opcode::from(0x03), Opcode::INX(Register::B));
    assert_eq!(Opcode::from(0x3b), Opcode::DCX(Register::SP));
    assert_eq!(Opcode::from(0x04), Opcode::INR(Register::B));
    assert_eq!(Opcode::from(0x34), Opcode::INR(Register::M));
    assert_eq!(Opcode::from(0x3d), Opcode::DCR(Register::A));
    assert_eq!(Opcode::from(0x80), Opcode::ADD(Register::B));
    assert_eq!(Opcode::from(0xc6), Opcode::ADI);
    assert_eq!(Opcode::from(0x29), Opcode::DAD(Register::H));
    assert_eq!(Opcode::from(0x97), Opcode::SUB(Register::A));
    assert_eq!(Opcode::from(0xd6), Opcode::SUI);
    assert_eq!(Opcode::from(0x0f), Opcode::RRC);
    assert_eq!(Opcode::from(0xfe), Opcode::CPI);
    assert_eq!(Opcode::from(0xe6), Opcode::ANI);
    assert_eq!(Opcode::from(0xa7), Opcode::ANA(Register::A));
    assert_eq!(Opcode::from(0xaf), Opcode::XRA(Register::A));
    assert_eq!(Opcode::from(0xd3), Opcode::OUT);
    assert_eq!(Opcode::from(0xdb), Opcode::IN);
    assert_eq!(Opcode::from(0xc3), Opcode::JMP);
    assert_eq!(Opcode::from(0xca), Opcode::JZ);
    assert_eq!(Opcode::from(0xc2), Opcode::JNZ);
    assert_eq!(Opcode::from(0xd2), Opcode::JNC);
    assert_eq!(Opcode::from(0xcd), Opcode::CALL);
    assert_eq!(Opcode::from(0xc9), Opcode::RET);
    assert_eq!(Opcode::from(0xfb), Opcode::EI);
}

#[test]
fn decodes_the_operations_that_are_not_carried_out() {
    assert_eq!(Opcode::from(0x76), Opcode::HLT);
    assert_eq!(Opcode::from(0x02), Opcode::STAX(Register::B));
    assert_eq!(Opcode::from(0x12), Opcode::STAX(Register::D));
    assert_eq!(Opcode::from(0x22), Opcode::SHLD);
    assert_eq!(Opcode::from(0x2a), Opcode::LHLD);
    assert_eq!(Opcode::from(0x07), Opcode::RLC);
    assert_eq!(Opcode::from(0x17), Opcode::RAL);
    assert_eq!(Opcode::from(0x1f), Opcode::RAR);
    assert_eq!(Opcode::from(0x27), Opcode::DAA);
    assert_eq!(Opcode::from(0x2f), Opcode::CMA);
    assert_eq!(Opcode::from(0x37), Opcode::STC);
    assert_eq!(Opcode::from(0x3f), Opcode::CMC);
    assert_eq!(Opcode::from(0x88), Opcode::ADC(Register::B));
    assert_eq!(Opcode::from(0x9e), Opcode::SBB(Register::M));
    assert_eq!(Opcode::from(0xb0), Opcode::ORA(Register::B));
    assert_eq!(Opcode::from(0xbf), Opcode::CMP(Register::A));
    assert_eq!(Opcode::from(0xc0), Opcode::RNZ);
    assert_eq!(Opcode::from(0xf8), Opcode::RM);
    assert_eq!(Opcode::from(0xda), Opcode::JC);
    assert_eq!(Opcode::from(0xfa), Opcode::JM);
    assert_eq!(Opcode::from(0xc4), Opcode::CNZ);
    assert_eq!(Opcode::from(0xfc), Opcode::CM);
    assert_eq!(Opcode::from(0xce), Opcode::ACI);
    assert_eq!(Opcode::from(0xde), Opcode::SBI);
    assert_eq!(Opcode::from(0xee), Opcode::XRI);
    assert_eq!(Opcode::from(0xf6), Opcode::ORI);
    assert_eq!(Opcode::from(0xc7), Opcode::RST(0));
    assert_eq!(Opcode::from(0xff), Opcode::RST(7));
    assert_eq!(Opcode::from(0xe9), Opcode::PCHL);
    assert_eq!(Opcode::from(0xf9), Opcode::SPHL);
    assert_eq!(Opcode::from(0xe3), Opcode::XTHL);
    assert_eq!(Opcode::from(0xf3), Opcode::DI);
    assert_eq!(Opcode::from(0xf5), Opcode::PUSH(Register::SP));
    assert_eq!(Opcode::from(0xf1), Opcode::POP(Register::SP));
}

#[test]
fn bytes_without_an_operation_decode_as_unknown() {
    for byte in [0x08u8, 0x10, 0x18, 0x20, 0x28, 0x30, 0x38, 0xcb, 0xd9, 0xdd, 0xed, 0xfd] {
        assert_eq!(Opcode::from(byte), Opcode::Unknown(byte));
        assert_eq!(Opcode::from(byte).size(), OpcodeSize::Unary);
    }
}

#[test]
fn exactly_twelve_bytes_are_unknown() {
    let mut unknown = 0;
    for byte in 0..=255u8 {
        if let Opcode::Unknown(held) = Opcode::from(byte) {
            assert_eq!(held, byte);
            unknown += 1;
        }
    }
    assert_eq!(unknown, 12);
}

#[test]
fn size_classes() {
    assert_eq!(Opcode::NOP.size(), OpcodeSize::Unary);
    assert_eq!(Opcode::MOV(Register::A, Register::B).size(), OpcodeSize::Unary);
    assert_eq!(Opcode::RET.size(), OpcodeSize::Unary);
    assert_eq!(Opcode::MVI(Register::A).size(), OpcodeSize::Binary);
    assert_eq!(Opcode::ADI.size(), OpcodeSize::Binary);
    assert_eq!(Opcode::CPI.size(), OpcodeSize::Binary);
    assert_eq!(Opcode::OUT.size(), OpcodeSize::Binary);
    assert_eq!(Opcode::IN.size(), OpcodeSize::Binary);
    assert_eq!(Opcode::LXI(Register::H).size(), OpcodeSize::Trinary);
    assert_eq!(Opcode::LDA.size(), OpcodeSize::Trinary);
    assert_eq!(Opcode::STA.size(), OpcodeSize::Trinary);
    assert_eq!(Opcode::SHLD.size(), OpcodeSize::Trinary);
    assert_eq!(Opcode::JMP.size(), OpcodeSize::Trinary);
    assert_eq!(Opcode::JNC.size(), OpcodeSize::Trinary);
    assert_eq!(Opcode::CALL.size(), OpcodeSize::Trinary);
    assert_eq!(Opcode::CPE.size(), OpcodeSize::Trinary);
}

#[test]
fn constructors_check_the_size_class() {
    assert_eq!(
        Instruction::new_unary(Opcode::NOP),
        Some(Instruction { opcode: Opcode::NOP, data: InstructionData::Empty })
    );
    assert_eq!(Instruction::new_unary(Opcode::ADI), None);
    assert_eq!(Instruction::new_unary(Opcode::JMP), None);
    assert_eq!(
        Instruction::new_binary(Opcode::ADI, 0x6c),
        Some(Instruction { opcode: Opcode::ADI, data: InstructionData::Byte(0x6c) })
    );
    assert_eq!(Instruction::new_binary(Opcode::NOP, 0x6c), None);
    assert_eq!(Instruction::new_binary(Opcode::JMP, 0x6c), None);
    assert_eq!(
        Instruction::new_trinary(Opcode::JMP, 0x1234),
        Some(Instruction { opcode: Opcode::JMP, data: InstructionData::Word(0x1234) })
    );
    assert_eq!(Instruction::new_trinary(Opcode::NOP, 0x1234), None);
    assert_eq!(Instruction::new_trinary(Opcode::ADI, 0x1234), None);
}

#[test]
fn instruction_accessors_and_lengths() {
    let nop = Instruction::new_unary(Opcode::NOP).unwrap();
    let adi = Instruction::new_binary(Opcode::ADI, 0x6c).unwrap();
    let jmp = Instruction::new_trinary(Opcode::JMP, 0x1234).unwrap();
    assert_eq!(nop.len(), 1);
    assert_eq!(adi.len(), 2);
    assert_eq!(jmp.len(), 3);
    assert_eq!(adi.opcode(), Opcode::ADI);
    assert_eq!(adi.data(), InstructionData::Byte(0x6c));
    assert_eq!(jmp.data(), InstructionData::Word(0x1234));
    // The length follows the opcode, whatever operand bytes are held.
    assert_eq!(Instruction { opcode: Opcode::JMP, data: InstructionData::Empty }.len(), 3);
}

#[test]
fn every_byte_decodes_to_an_instruction_of_one_to_three_bytes() {
    for byte in 0..=255u8 {
        let opcode = Opcode::from(byte);
        let instruction = match opcode.size() {
            OpcodeSize::Unary => Instruction::new_unary(opcode),
            OpcodeSize::Binary => Instruction::new_binary(opcode, 0),
            OpcodeSize::Trinary => Instruction::new_trinary(opcode, 0),
        };
        let length = instruction.unwrap().len();
        assert!(1 <= length && length <= 3);
    }
}

#[test]
fn operand_bytes() {
    assert_eq!(InstructionData::Empty.first(), None);
    assert_eq!(InstructionData::Empty.tuple(), (None, None));
    assert_eq!(InstructionData::Byte(0x42).first(), Some(0x42));
    assert_eq!(InstructionData::Byte(0x42).tuple(), (None, Some(0x42)));
    // A word is held in memory low byte first.
    assert_eq!(InstructionData::Word(0xea14).first(), Some(0x14));
    assert_eq!(InstructionData::Word(0xea14).tuple(), (Some(0xea), Some(0x14)));
}
