use vm::{Error, Instruction, Machine, MEMORY_SIZE};

fn machine(image: &[u8]) -> Machine {
    match Machine::new(image) {
        Ok(m) => m,
        Err(e) => panic!("construction failed: {:?}", e),
    }
}

fn run_output(image: &[u8]) -> (Machine, Result<(), Error>, Vec<u8>) {
    let mut m = machine(image);
    let mut out = Vec::new();
    let r = m.run_on(&mut out);
    (m, r, out)
}

fn output_number_of(value: u32) -> Vec<u8> {
    let mut m = machine(&[8, 1, 7]);
    m.set_reg(1, value).unwrap();
    let mut out = Vec::new();
    assert_eq!(m.run_on(&mut out), Ok(()));
    out
}

#[test]
fn new_zero_extends_image_and_clears_registers() {
    let m = machine(&[1, 2, 3]);
    assert_eq!(m.regs(), &[0u32; 16][..]);
    assert_eq!(m.memory().len(), MEMORY_SIZE);
    assert_eq!(&m.memory()[..3], &[1, 2, 3]);
    assert!(m.memory()[3..].iter().all(|&b| b == 0));
}

#[test]
fn new_accepts_full_arena() {
    let image = vec![0xAB; MEMORY_SIZE];
    let m = machine(&image);
    assert_eq!(m.memory(), &image[..]);
}

#[test]
fn new_rejects_oversized_image() {
    let image = vec![0; MEMORY_SIZE + 1];
    assert!(matches!(Machine::new(&image), Err(Error::MemoryOverflow)));
}

#[test]
fn end_to_end_subtract_and_print() {
    // load-immediate r1=5, load-immediate r2=7, subtract r3=r1-r2,
    // output-number r3 (two bytes wide), exit.
    let image = [4, 1, 5, 0, 4, 2, 7, 0, 5, 3, 1, 2, 8, 3, 7];
    let (m, r, out) = run_output(&image);
    assert_eq!(r, Ok(()));
    assert_eq!(out, b"-2".to_vec());
    assert_eq!(m.regs()[1], 5);
    assert_eq!(m.regs()[2], 7);
    assert_eq!(m.regs()[3], (-2i32) as u32);
    assert_eq!(m.regs()[0], 15);
}

#[test]
fn end_to_end_with_padded_output_number() {
    // Output-number occupies two bytes, so the two zero bytes after it are
    // fetched as an unknown opcode once "-2" has been written.
    let image = [4, 1, 5, 0, 4, 2, 7, 0, 5, 3, 1, 2, 8, 3, 0, 0, 7];
    let (m, r, out) = run_output(&image);
    assert_eq!(out, b"-2".to_vec());
    assert_eq!(r, Err(Error::UnknownInstruction));
    assert_eq!(m.regs()[0], 14);
}

#[test]
fn lone_exit_terminates_after_one_step() {
    let mut m = machine(&[7]);
    for r in 1..16 {
        m.set_reg(r, 100 + r as u32).unwrap();
    }
    let mut out = Vec::new();
    assert_eq!(m.run_on(&mut out), Ok(()));
    assert_eq!(m.regs()[0], 1);
    for r in 1..16 {
        assert_eq!(m.regs()[r], 100 + r as u32);
    }
    assert!(out.is_empty());

    let mut again = machine(&[7]);
    assert_eq!(again.step_on(&mut out), Ok(true));
    assert_eq!(again.regs()[0], 1);
}

#[test]
fn load_immediate_sign_extends() {
    let mut m = machine(&[4, 1, 0xFF, 0xFF]);
    let mut out = Vec::new();
    assert_eq!(m.step_on(&mut out), Ok(false));
    assert_eq!(m.regs()[1], 0xFFFF_FFFF);
    assert_eq!(m.regs()[0], 4);
}

#[test]
fn load_immediate_positive_is_not_extended() {
    let mut m = machine(&[4, 2, 0x34, 0x12, 4, 3, 0x00, 0x80]);
    let mut out = Vec::new();
    assert_eq!(m.step_on(&mut out), Ok(false));
    assert_eq!(m.step_on(&mut out), Ok(false));
    assert_eq!(m.regs()[2], 0x1234);
    assert_eq!(m.regs()[3], 0xFFFF_8000);
}

#[test]
fn subtract_wraps() {
    let mut m = machine(&[5, 3, 1, 2]);
    m.set_reg(1, 0).unwrap();
    m.set_reg(2, 1).unwrap();
    let mut out = Vec::new();
    assert_eq!(m.step_on(&mut out), Ok(false));
    assert_eq!(m.regs()[3], 0xFFFF_FFFF);
}

#[test]
fn subtract_exact_value() {
    let mut m = machine(&[5, 1, 1, 2]);
    m.set_reg(1, 1000).unwrap();
    m.set_reg(2, 58).unwrap();
    let mut out = Vec::new();
    assert_eq!(m.step_on(&mut out), Ok(false));
    assert_eq!(m.regs()[1], 942);
}

#[test]
fn output_number_negative() {
    assert_eq!(output_number_of((-42i32) as u32), b"-42".to_vec());
}

#[test]
fn output_number_zero() {
    assert_eq!(output_number_of(0), b"0".to_vec());
}

#[test]
fn output_number_largest() {
    assert_eq!(output_number_of(2147483647), b"2147483647".to_vec());
}

#[test]
fn output_number_smallest() {
    assert_eq!(output_number_of(0x8000_0000), b"-2147483648".to_vec());
}

#[test]
fn output_char_ascii_and_latin1() {
    let mut m = machine(&[6, 1, 6, 2, 7]);
    m.set_reg(1, 0x141).unwrap();
    m.set_reg(2, 0xE9).unwrap();
    let mut out = Vec::new();
    assert_eq!(m.run_on(&mut out), Ok(()));
    assert_eq!(out, "Aé".as_bytes().to_vec());
}

#[test]
fn destinations_only_change() {
    let mut m = machine(&[1, 4, 5, 6, 4, 7, 1, 0, 5, 8, 9, 10]);
    for r in 1..16 {
        m.set_reg(r, 10 * r as u32).unwrap();
    }
    let mut out = Vec::new();
    for _ in 0..3 {
        assert_eq!(m.step_on(&mut out), Ok(false));
    }
    for r in 1..16 {
        let expected = match r {
            4 => 50,
            7 => 1,
            8 => 90u32.wrapping_sub(100),
            _ => 10 * r as u32,
        };
        assert_eq!(m.regs()[r], expected);
    }
    assert_eq!(m.regs()[0], 12);
    assert!(out.is_empty());
}

#[test]
fn move_if_not_taken_when_condition_zero() {
    let mut m = machine(&[1, 1, 2, 3]);
    m.set_reg(1, 11).unwrap();
    m.set_reg(2, 22).unwrap();
    let mut out = Vec::new();
    assert_eq!(m.step_on(&mut out), Ok(false));
    assert_eq!(m.regs()[1], 11);
    assert_eq!(m.regs()[0], 4);
}

#[test]
fn move_if_into_ip_jumps() {
    // r1 = 8 (target), r2 = 1 (condition); move-if r0 <- r1; byte 4 would be unknown.
    let mut m = machine(&[1, 0, 1, 2, 0, 0, 0, 0, 7]);
    m.set_reg(1, 8).unwrap();
    m.set_reg(2, 1).unwrap();
    let mut out = Vec::new();
    assert_eq!(m.run_on(&mut out), Ok(()));
    assert_eq!(m.regs()[0], 9);
}

#[test]
fn store_then_load_round_trip() {
    let mut m = machine(&[2, 1, 2, 3, 3, 1, 7]);
    m.set_reg(1, 4092).unwrap();
    m.set_reg(2, 0xDEAD_BEEF).unwrap();
    let mut out = Vec::new();
    assert_eq!(m.run_on(&mut out), Ok(()));
    assert_eq!(&m.memory()[4092..], &[0xEF, 0xBE, 0xAD, 0xDE]);
    assert_eq!(m.regs()[3], 0xDEAD_BEEF);
}

#[test]
fn load_reads_little_endian_word() {
    let mut m = machine(&[3, 1, 2, 7, 0x78, 0x56, 0x34, 0x12]);
    m.set_reg(2, 4).unwrap();
    let mut out = Vec::new();
    assert_eq!(m.step_on(&mut out), Ok(false));
    assert_eq!(m.regs()[1], 0x1234_5678);
}

#[test]
fn store_address_out_of_range() {
    let mut m = machine(&[2, 1, 2]);
    m.set_reg(1, 4093).unwrap();
    m.set_reg(2, 5).unwrap();
    let mut out = Vec::new();
    assert_eq!(m.step_on(&mut out), Err(Error::MemAddressOutOfRange));
    assert_eq!(m.regs()[0], 3);
    assert!(m.memory()[4093..].iter().all(|&b| b == 0));
}

#[test]
fn load_address_out_of_range() {
    let mut m = machine(&[3, 1, 2]);
    m.set_reg(2, u32::MAX).unwrap();
    let mut out = Vec::new();
    assert_eq!(m.step_on(&mut out), Err(Error::MemAddressOutOfRange));
    assert_eq!(m.regs()[1], 0);
    assert_eq!(m.regs()[0], 3);
}

#[test]
fn register_operand_out_of_range_rejected() {
    let programs: [(&[u8], u32); 7] = [
        (&[1, 16, 1, 1], 4),
        (&[2, 1, 16], 3),
        (&[3, 16, 1], 3),
        (&[4, 16, 1, 0], 4),
        (&[5, 1, 1, 200], 4),
        (&[6, 16], 2),
        (&[8, 255], 2),
    ];
    for (image, width) in programs.iter() {
        let mut m = machine(image);
        for r in 1..16 {
            m.set_reg(r, 7).unwrap();
        }
        let mut out = Vec::new();
        assert_eq!(m.step_on(&mut out), Err(Error::MemAddressOutOfRange));
        assert_eq!(m.regs()[0], *width);
        for r in 1..16 {
            assert_eq!(m.regs()[r], 7);
        }
        assert_eq!(&m.memory()[..image.len()], *image);
        assert!(out.is_empty());
    }
}

#[test]
fn unknown_opcode_rejected() {
    for op in [0u8, 9, 255] {
        let mut m = machine(&[op]);
        let mut out = Vec::new();
        assert_eq!(m.step_on(&mut out), Err(Error::UnknownInstruction));
        assert_eq!(m.regs()[0], 0);
    }
}

#[test]
fn ip_past_memory_end_rejected() {
    let mut m = machine(&[]);
    m.set_reg(0, MEMORY_SIZE as u32).unwrap();
    let mut out = Vec::new();
    assert_eq!(m.step_on(&mut out), Err(Error::UnknownInstruction));
    assert_eq!(m.run_on(&mut out), Err(Error::UnknownInstruction));
}

#[test]
fn instruction_past_memory_end_rejected() {
    let mut image = vec![0; MEMORY_SIZE];
    image[MEMORY_SIZE - 2] = 4;
    let mut m = machine(&image);
    m.set_reg(0, (MEMORY_SIZE - 2) as u32).unwrap();
    let mut out = Vec::new();
    assert_eq!(m.step_on(&mut out), Err(Error::MemAddressOutOfRange));
    assert_eq!(m.regs()[0], (MEMORY_SIZE - 2) as u32);
}

#[test]
fn exit_in_last_byte() {
    let mut image = vec![0; MEMORY_SIZE];
    image[MEMORY_SIZE - 1] = 7;
    let mut m = machine(&image);
    m.set_reg(0, (MEMORY_SIZE - 1) as u32).unwrap();
    let mut out = Vec::new();
    assert_eq!(m.step_on(&mut out), Ok(true));
    assert_eq!(m.regs()[0], MEMORY_SIZE as u32);
}

#[test]
fn run_stops_at_first_error() {
    let (m, r, out) = run_output(&[8, 0, 6, 16, 7]);
    assert_eq!(r, Err(Error::MemAddressOutOfRange));
    assert_eq!(out, b"2".to_vec());
    assert_eq!(m.regs()[0], 4);
}

#[test]
fn set_reg_bounds() {
    let mut m = machine(&[]);
    assert_eq!(m.set_reg(15, 9), Ok(()));
    assert_eq!(m.regs()[15], 9);
    assert_eq!(m.set_reg(16, 9), Err(Error::RegIndexOutOfRange));
    assert_eq!(m.set_reg(usize::MAX, 9), Err(Error::RegIndexOutOfRange));
    assert_eq!(m.regs().len(), 16);
}

#[test]
fn decode_and_width() {
    assert_eq!(
        Instruction::decode(5, 3, 1, 2),
        Some(Instruction::Subtract { rd: 3, ra: 1, rb: 2 })
    );
    assert_eq!(Instruction::decode(9, 0, 0, 0), None);
    assert_eq!(Instruction::Exit.width(), 1);
    assert_eq!(Instruction::Store { ri: 0, rj: 0 }.width(), 3);
}
