use jay::bytecode::table::standard;
use jay::bytecode::Builder;
use jay::bytecode::Bytecode;
use jay::bytecode::BytecodeStream;
use jay::bytecode::Error;
use jay::bytecode::Format;
use jay::classfile::Attributes;
use jay::classfile::CodeAttribute;
use jay::io::IoError;
use jay::runtime::Frame;

/// A block of code that holds the given bytes.
fn code(bytes: &[u8]) -> CodeAttribute {
    CodeAttribute {
        max_stack: 0,
        max_locals: 0,
        code: bytes.to_vec(),
        exception_table: vec![],
        attributes: Attributes::new(vec![]),
    }
}

#[test]
fn decodes_instruction_without_operand() {
    let table = standard();
    let decoded = Bytecode::read(&table, &mut Frame::new(&code(&[0x01]))).unwrap();
    assert_eq!(decoded.mnemonic, "aconst_null");
    assert_eq!(decoded.index, None);
    assert_eq!(decoded.to_string(), "aconst_null");
}

#[test]
fn decodes_byte_operand() {
    let table = standard();
    let decoded = Bytecode::read(&table, &mut Frame::new(&code(&[0x12, 0x07]))).unwrap();
    assert_eq!(decoded.mnemonic, "ldc");
    assert_eq!(decoded.index, Some(7));
    assert_eq!(decoded.to_string(), "ldc           #7");
}

#[test]
fn decodes_wide_operand() {
    let table = standard();
    let decoded = Bytecode::read(&table, &mut Frame::new(&code(&[0xB2, 0x00, 0x10]))).unwrap();
    assert_eq!(decoded.mnemonic, "getstatic");
    assert_eq!(decoded.index, Some(16));
    assert_eq!(decoded.to_string(), "getstatic     #16");
}

#[test]
fn refuses_unknown_opcode() {
    let table = standard();
    let r = Bytecode::read(&table, &mut Frame::new(&code(&[0xFF])));
    assert!(matches!(r, Err(Error::UnknownBytecode(0xFF))));
}

#[test]
fn decodes_from_a_slice() {
    let table = standard();
    let (decoded, length) = Bytecode::decode(&table, &[0xBD, 0x01, 0x02, 0x12]).unwrap();
    assert_eq!(decoded.mnemonic, "anewarray");
    assert_eq!(decoded.index, Some(258));
    assert_eq!(length, 3);
    let (decoded, length) = Bytecode::decode(&table, &[0x19, 0xff]).unwrap();
    assert_eq!(decoded.mnemonic, "aload");
    assert_eq!(decoded.index, Some(255));
    assert_eq!(length, 2);
    assert!(matches!(Bytecode::decode(&table, &[]), Err(Error::IO(IoError::UnexpectedEof))));
    assert!(matches!(Bytecode::decode(&table, &[0xB2, 0]), Err(Error::IO(IoError::UnexpectedEof))));
    assert!(matches!(Bytecode::decode(&table, &[0x00]), Err(Error::UnknownBytecode(0))));
}

#[test]
fn every_declared_opcode_decodes_with_zero_operand() {
    let table = standard();
    let mut declared = 0;
    for opcode in 0..=255u8 {
        if let Some(descriptor) = table[opcode as usize] {
            declared += 1;
            let mut bytes = vec![opcode];
            bytes.resize(1 + descriptor.format.width(), 0);
            let (decoded, length) = Bytecode::decode(&table, &bytes).unwrap();
            assert_eq!(decoded.mnemonic, descriptor.mnemonic);
            assert_eq!(length, bytes.len());
            assert_eq!(decoded.index, if descriptor.format == Format::NoIndex { None } else { Some(0) });
            let read = Bytecode::read(&table, &mut Frame::new(&code(&bytes))).unwrap();
            assert_eq!(read.mnemonic, descriptor.mnemonic);
        } else {
            assert!(matches!(
                Bytecode::decode(&table, &[opcode, 0, 0]),
                Err(Error::UnknownBytecode(o)) if o == opcode
            ));
        }
    }
    assert_eq!(declared, 5);
}

#[test]
fn stream_ends_cleanly() {
    let table = standard();
    let block = code(&[0x01, 0x12, 0x07, 0xB2, 0x00]);
    let mut s = Frame::new(&block);
    assert_eq!(s.next(&table).unwrap().unwrap().mnemonic, "aconst_null");
    assert_eq!(s.next(&table).unwrap().unwrap().index, Some(7));
    assert!(s.next(&table).unwrap().is_none());
    let block = code(&[0x02]);
    let mut s = Frame::new(&block);
    assert!(matches!(s.next(&table), Err(Error::UnknownBytecode(2))));
}

#[test]
fn builder_declares_and_replaces() {
    let builder = Builder::new();
    assert!(builder.table.iter().all(|d| d.is_none()));
    let builder = builder.build(0xB1, "return", Format::NoIndex).build(0xB1, "ret", Format::Index);
    let d = builder.table[0xB1].unwrap();
    assert_eq!(d.mnemonic, "ret");
    assert_eq!(d.format, Format::Index);
    assert_eq!(builder.table.iter().filter(|d| d.is_some()).count(), 1);
    let (decoded, _) = Bytecode::decode(&builder.table, &[0xB1, 9]).unwrap();
    assert_eq!(decoded.to_string(), "ret           #9");
}

#[test]
fn trace_lines_are_aligned() {
    let table = standard();
    let (decoded, _) = Bytecode::decode(&table, &[0xB2, 0x00, 0x10]).unwrap();
    assert_eq!(decoded.trace_line(0), "   0: getstatic     #16");
    assert_eq!(decoded.trace_line(12345), "12345: getstatic     #16");
    let (decoded, _) = Bytecode::decode(&table, &[0x01]).unwrap();
    assert_eq!(decoded.trace_line(7), "   7: aconst_null");
    let long = Builder::new().build(1, "a_very_long_mnemonic", Format::Index);
    let (decoded, _) = Bytecode::decode(&long.table, &[1, 2]).unwrap();
    assert_eq!(decoded.to_string(), "a_very_long_mnemonic #2");
}

#[test]
fn outcome_of_a_read_decides_how_the_sequence_goes_on() {
    let one = Bytecode { mnemonic: "ldc", index: Some(7) };
    assert_eq!(Bytecode::continued(Ok(one)), Ok(Some(one)));
    assert_eq!(Bytecode::continued(Err(Error::IO(IoError::UnexpectedEof))), Ok(None));
    assert_eq!(
        Bytecode::continued(Err(Error::UnknownBytecode(0xfe))),
        Err(Error::UnknownBytecode(0xfe))
    );
}

#[test]
fn stream_hands_out_what_it_holds_and_then_ends() {
    let table = standard();
    for (bytes, mnemonic, index) in [
        (vec![0x01u8], "aconst_null", None),
        (vec![0x12, 0x07], "ldc", Some(7u16)),
        (vec![0xB2, 0x00, 0x10], "getstatic", Some(16)),
        (vec![0xBD, 0x10, 0x00], "anewarray", Some(4096)),
    ] {
        let block = code(&bytes);
        let mut s = Frame::new(&block);
        let first = s.next(&table).unwrap().unwrap();
        assert_eq!(first, Bytecode { mnemonic, index });
        assert_eq!(s.pc(), bytes.len());
        assert_eq!(s.next(&table), Ok(None));
        assert_eq!(s.next(&table), Ok(None));
        assert_eq!(s.pc(), bytes.len());
    }
}

#[test]
fn stream_that_ends_within_an_operand_ends_cleanly() {
    let table = standard();
    for bytes in [vec![], vec![0x12u8], vec![0xB2], vec![0xB2, 0x00]] {
        let block = code(&bytes);
        let mut s = Frame::new(&block);
        assert_eq!(s.next(&table), Ok(None));
        assert_eq!(s.pc(), bytes.len());
        assert_eq!(s.next(&table), Ok(None));
        let mut s = Frame::new(&block);
        assert_eq!(s.read_bytecode(&table), Err(Error::IO(IoError::UnexpectedEof)));
        assert_eq!(Bytecode::read(&table, &mut s), Err(Error::IO(IoError::UnexpectedEof)));
    }
}

#[test]
fn stream_reports_an_opcode_that_is_not_declared() {
    let table = standard();
    let block = code(&[0xFF, 0x01]);
    let mut s = Frame::new(&block);
    assert_eq!(s.next(&table), Err(Error::UnknownBytecode(0xFF)));
    assert_eq!(s.pc(), 1);
    assert_eq!(s.next(&table), Ok(Some(Bytecode { mnemonic: "aconst_null", index: None })));
    assert_eq!(s.next(&table), Ok(None));
}
