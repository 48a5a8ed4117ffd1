use qgb::cpu::Cpu;
use qgb::dummy_mmu::DummyMmu;
use qgb::error::BootError;
use qgb::error::BootRomError;
use qgb::error::RomError;
use qgb::gb::GameBoy;
use qgb::header::CartridgeType;
use qgb::instruction::Instruction;
use qgb::instruction::SliceByteStream;
use qgb::interrupts::InterruptRegisters;
use qgb::opcode::Opcode;
use qgb::timers::Timers;
use qgb::traits::ReadWriteMemory;

/// A ROM image with a valid header: `rom_size_code` banks of 16 KiB,
/// cartridge type `cart_type`, RAM size code `ram_size_code`, checksum
/// computed so the header validates.
fn make_rom(cart_type: u8, rom_size_code: u8, ram_size_code: u8) -> Vec<u8> {
    let banks = 2usize << rom_size_code;
    let mut rom = vec![0u8; banks * 16384];
    // A recognizable byte at the start of every bank.
    for b in 0..banks {
        rom[b * 16384] = 0xB0 + b as u8;
    }
    for (i, ch) in b"QUODLIBET".iter().enumerate() {
        rom[0x134 + i] = *ch;
    }
    rom[0x147] = cart_type;
    rom[0x148] = rom_size_code;
    rom[0x149] = ram_size_code;
    let mut checksum: u8 = 0;
    for i in 0x134..0x14D {
        checksum = checksum.wrapping_sub(rom[i]).wrapping_sub(1);
    }
    rom[0x14D] = checksum;
    rom
}

fn make_boot_rom() -> Vec<u8> {
    let mut boot = vec![0u8; 256];
    for i in 0..256 {
        boot[i] = (255 - i) as u8;
    }
    boot
}

#[test]
fn load_rom_only_with_boot_overlay() {
    let rom = make_rom(0x00, 0, 0);
    let boot = make_boot_rom();
    let mut gb = GameBoy::new(&rom, &boot).expect("a plain 32 KiB image loads");
    assert!(gb.cpu.mmu.boot_mode);
    for addr in 0..0x100u16 {
        assert_eq!(gb.cpu.mmu.read(addr), boot[addr as usize]);
    }
    for addr in [0x0100u16, 0x0134, 0x2000, 0x4000, 0x7FFF] {
        assert_eq!(gb.cpu.mmu.read(addr), rom[addr as usize]);
    }
    // The snapshot sees the same facts.
    let state = gb.state();
    assert!(state.mmu.as_ref().unwrap().boot_mode);
    assert!(state.cartridge.as_ref().unwrap().checksum_passed);
    assert_eq!(state.cartridge.as_ref().unwrap().rom_banks, 2);
}

#[test]
fn boot_rom_unmapped_once() {
    let rom = make_rom(0x00, 0, 0);
    let boot = make_boot_rom();
    let mut gb = GameBoy::new(&rom, &boot).expect("loads");
    gb.cpu.mmu.write(0xFF50, 0x01);
    assert!(!gb.cpu.mmu.boot_mode);
    assert_eq!(gb.cpu.mmu.read(0x0000), rom[0]);
    // Later writes to the bank register are no-ops.
    gb.cpu.mmu.write(0xFF50, 0x00);
    assert!(!gb.cpu.mmu.boot_mode);
    gb.cpu.mmu.write(0xFF50, 0x01);
    assert!(!gb.cpu.mmu.boot_mode);
}

#[test]
fn mbc1_bank_switching() {
    // 128 KiB: eight banks behind the first controller.
    let rom = make_rom(0x01, 2, 0);
    let boot = make_boot_rom();
    let mut gb = GameBoy::new(&rom, &boot).expect("loads");
    gb.cpu.mmu.write(0x2000, 0x05);
    assert_eq!(gb.cpu.mmu.read(0x4000), rom[0x14000]);
    gb.cpu.mmu.write(0x2000, 0x00);
    assert_eq!(gb.cpu.mmu.read(0x4000), rom[0x4000]);
}

#[test]
fn register_to_register_copies() {
    let rom = [0x06, 0xAB, 0x48, 0x50, 0x70];
    let mut cpu = Cpu::new(DummyMmu::new(&rom));
    for _ in 0..5 {
        cpu.step();
    }
    assert_eq!(cpu.b, 0xAB);
    assert_eq!(cpu.c, 0xAB);
    assert_eq!(cpu.d, 0xAB);
    assert_eq!(cpu.mmu.read(0x0000), 0xAB);
}

#[test]
fn accumulator_through_high_memory() {
    let rom = make_rom(0x00, 0, 0);
    // Run the stream out of the boot overlay.
    let mut boot = vec![0u8; 256];
    let program = [0x3E, 0x01, 0xE0, 0x12, 0xAF, 0xF0, 0x12];
    boot[..program.len()].copy_from_slice(&program);
    let mut gb = GameBoy::new(&rom, &boot).expect("loads");
    gb.step();
    assert_eq!(gb.cpu.a, 0x01);
    gb.step();
    assert_eq!(gb.cpu.mmu.read(0xFF12), 0x01);
    gb.step();
    assert_eq!(gb.cpu.a, 0x00);
    assert!(gb.cpu.f.z);
    assert!(!gb.cpu.f.n && !gb.cpu.f.h && !gb.cpu.f.c);
    gb.step();
    assert_eq!(gb.cpu.a, 0x01);
}

#[test]
fn timer_overflow_reloads_and_interrupts() {
    let mut timers = Timers::new();
    let mut ints = InterruptRegisters::new();
    timers.write(0xFF07, 0x05, &mut ints);
    timers.write(0xFF05, 0xFF, &mut ints);
    timers.write(0xFF06, 0x30, &mut ints);
    timers.tick(16, &mut ints);
    assert_eq!(timers.tima, 0x30);
    assert_eq!(ints.reg_if & 0x04, 0x04);
}

#[test]
fn inc_dec_add_boundaries() {
    // INC A: 0xFF -> 0x00, Z=1, H=1, N=0, C untouched.
    let mut cpu = Cpu::new(DummyMmu::new(&[0x3C]));
    cpu.a = 0xFF;
    cpu.f.c = true;
    cpu.step();
    assert_eq!(cpu.a, 0x00);
    assert!(cpu.f.z && cpu.f.h && !cpu.f.n && cpu.f.c);

    // DEC A: 0x01 -> 0x00, Z=1, H=0, N=1.
    let mut cpu = Cpu::new(DummyMmu::new(&[0x3D]));
    cpu.a = 0x01;
    cpu.step();
    assert_eq!(cpu.a, 0x00);
    assert!(cpu.f.z && !cpu.f.h && cpu.f.n);

    // ADD A, B: A=0x0F, B=0x01 -> 0x10, Z=0, H=1, C=0.
    let mut cpu = Cpu::new(DummyMmu::new(&[0x80]));
    cpu.a = 0x0F;
    cpu.b = 0x01;
    cpu.step();
    assert_eq!(cpu.a, 0x10);
    assert!(!cpu.f.z && cpu.f.h && !cpu.f.c);

    // ADD HL, BC: HL=0x0FFF, BC=0x0001 -> 0x1000, H=1, C=0, N=0.
    let mut cpu = Cpu::new(DummyMmu::new(&[0x09]));
    cpu.h = 0x0F;
    cpu.l = 0xFF;
    cpu.b = 0x00;
    cpu.c = 0x01;
    cpu.step();
    assert_eq!(cpu.h, 0x10);
    assert_eq!(cpu.l, 0x00);
    assert!(cpu.f.h && !cpu.f.c && !cpu.f.n);
}

#[test]
fn involutions() {
    // SWAP A twice is the identity.
    let mut cpu = Cpu::new(DummyMmu::new(&[0xCB, 0x37, 0xCB, 0x37]));
    cpu.a = 0x5C;
    cpu.step();
    assert_eq!(cpu.a, 0xC5);
    cpu.step();
    assert_eq!(cpu.a, 0x5C);

    // CPL twice is the identity.
    let mut cpu = Cpu::new(DummyMmu::new(&[0x2F, 0x2F]));
    cpu.a = 0x5C;
    cpu.step();
    assert_eq!(cpu.a, 0xA3);
    cpu.step();
    assert_eq!(cpu.a, 0x5C);

    // CCF twice leaves C unchanged and clears N, H.
    let mut cpu = Cpu::new(DummyMmu::new(&[0x3F, 0x3F]));
    cpu.f.c = true;
    cpu.f.n = true;
    cpu.f.h = true;
    cpu.step();
    assert!(!cpu.f.c && !cpu.f.n && !cpu.f.h);
    cpu.step();
    assert!(cpu.f.c && !cpu.f.n && !cpu.f.h);
}

#[test]
fn push_pop_round_trips() {
    // PUSH BC; POP DE round-trips through the stack.
    let mut cpu = Cpu::new(DummyMmu::new(&[0xC5, 0xD1]));
    cpu.sp = 0xFFFE;
    cpu.b = 0x12;
    cpu.c = 0x34;
    cpu.step();
    cpu.step();
    assert_eq!(cpu.d, 0x12);
    assert_eq!(cpu.e, 0x34);
    assert_eq!(cpu.sp, 0xFFFE);

    // PUSH BC; POP AF zeroes the low four flag bits; pushing AF back and
    // popping DE shows the masked byte.
    let mut cpu = Cpu::new(DummyMmu::new(&[0xC5, 0xF1, 0xF5, 0xD1]));
    cpu.sp = 0xFFFE;
    cpu.b = 0x12;
    cpu.c = 0x3F;
    cpu.step();
    cpu.step();
    assert_eq!(cpu.a, 0x12);
    cpu.step();
    cpu.step();
    assert_eq!(cpu.d, 0x12);
    assert_eq!(cpu.e, 0x30);
    assert_eq!(cpu.sp, 0xFFFE);
}

#[test]
fn decode_is_total() {
    let undefined = [0xD3u8, 0xDB, 0xDD, 0xE3, 0xE4, 0xEB, 0xEC, 0xED, 0xF4, 0xFC, 0xFD];
    for b0 in 0..=0xFFu8 {
        let mut stream = SliceByteStream::new(vec![b0, 0x01, 0x02]);
        match Instruction::try_from(&mut stream) {
            Ok(_) => assert!(!undefined.contains(&b0)),
            Err(b) => {
                assert!(undefined.contains(&b0));
                assert_eq!(b, b0);
            }
        }
    }
    // The prefix table has no gaps.
    for b1 in 0..=0xFFu8 {
        let mut stream = SliceByteStream::new(vec![0xCB, b1]);
        assert!(Instruction::try_from(&mut stream).is_ok());
    }
}

#[test]
fn encode_then_decode_round_trips() {
    let mut recognized = 0usize;
    for b0 in 0..=0xFFu8 {
        for second in [0x00u8, 0x5Au8] {
            let mut stream = SliceByteStream::new(vec![b0, second, 0x77]);
            if let Ok(instr) = Instruction::try_from(&mut stream) {
                let mut bytes = instr.opcode.encode();
                bytes.push(0x99);
                bytes.push(0x99);
                let mut back = SliceByteStream::new(bytes);
                let again = Instruction::try_from(&mut back).expect("re-decodes");
                assert_eq!(again.opcode, instr.opcode);
                recognized += 1;
            }
        }
    }
    assert!(recognized > 400);
}

#[test]
fn load_errors() {
    let boot = make_boot_rom();

    // Undersized image.
    let tiny = vec![0u8; 100];
    match GameBoy::new(&tiny, &boot) {
        Err(BootError::RomError(RomError::Undersized { expected, found })) => {
            assert_eq!(expected, 32768);
            assert_eq!(found, 100);
        }
        other => panic!("expected an undersized image to be rejected: {:?}", other.is_ok()),
    }

    // Unrecognized cartridge type byte.
    let rom = make_rom(0x04, 0, 0);
    assert!(matches!(
        GameBoy::new(&rom, &boot),
        Err(BootError::RomError(RomError::UnrecognizedCartridgeType(0x04)))
    ));

    // Unrecognized ROM size byte: build by hand so the length check is not
    // hit first.
    let mut rom = make_rom(0x00, 0, 0);
    rom[0x148] = 0x09;
    assert!(matches!(
        GameBoy::new(&rom, &boot),
        Err(BootError::RomError(RomError::UnrecognizedRomSize(0x09)))
    ));

    // Unrecognized RAM size byte.
    let mut rom = make_rom(0x00, 0, 0);
    rom[0x149] = 0x01;
    assert!(matches!(
        GameBoy::new(&rom, &boot),
        Err(BootError::RomError(RomError::UnrecognizedRamSize(0x01)))
    ));

    // Recognized but unsupported cartridge type.
    let rom = make_rom(0x05, 0, 0);
    assert!(matches!(
        GameBoy::new(&rom, &boot),
        Err(BootError::RomError(RomError::UnsupportedCartridgeType(CartridgeType::Mbc2)))
    ));

    // Image length disagreeing with the declared bank count.
    let mut rom = make_rom(0x00, 1, 0);
    rom[0x148] = 0x00;
    // Recompute the checksum over the altered header.
    let mut checksum: u8 = 0;
    for i in 0x134..0x14D {
        checksum = checksum.wrapping_sub(rom[i]).wrapping_sub(1);
    }
    rom[0x14D] = checksum;
    assert!(matches!(
        GameBoy::new(&rom, &boot),
        Err(BootError::RomError(RomError::Size { expected: 32768, found: 65536 }))
    ));

    // An image too large for a cartridge without a controller.
    let rom = make_rom(0x00, 1, 0);
    assert!(matches!(
        GameBoy::new(&rom, &boot),
        Err(BootError::RomError(RomError::Oversized {
            cartridge_type: CartridgeType::RomOnly,
            found: 65536,
        }))
    ));

    // A boot ROM of the wrong size.
    let rom = make_rom(0x00, 0, 0);
    let short_boot = vec![0u8; 10];
    assert!(matches!(
        GameBoy::new(&rom, &short_boot),
        Err(BootError::BootRomError(BootRomError::Size { expected: 256, found: 10 }))
    ));
}

#[test]
fn step_cycle_accounting() {
    // A handful of instruction shapes: the cycles returned are positive
    // multiples of four and cover the recorded access cycles.
    let rom = [0x00, 0x06, 0x11, 0xC5, 0xD1, 0x34, 0xCB, 0x36, 0x18, 0x02, 0x00, 0x00, 0xC3,
        0x00, 0x00];
    let mut cpu = Cpu::new(DummyMmu::new(&rom));
    for _ in 0..9 {
        let cycles = cpu.step();
        assert!(cycles >= 4);
        assert_eq!(cycles % 4, 0);
        assert!(cpu.rw_cycles >= 0);
        assert_eq!(cpu.rw_cycles % 4, 0);
        assert!(cpu.rw_cycles <= cycles);
        assert_eq!(cpu.f.bits() & 0x0F, 0);
    }
}

#[test]
fn undefined_opcode_is_skipped() {
    let rom = [0xD3, 0x06, 0x55];
    let mut cpu = Cpu::new(DummyMmu::new(&rom));
    let cycles = cpu.step();
    assert_eq!(cycles, 4);
    assert_eq!(cpu.pc, 1);
    cpu.step();
    assert_eq!(cpu.b, 0x55);
}

#[test]
fn mbc1_ram_enable_and_banking() {
    // A controller with RAM: type 0x02, four RAM banks (code 3).
    let rom = make_rom(0x02, 2, 3);
    let boot = make_boot_rom();
    let mut gb = GameBoy::new(&rom, &boot).expect("loads");
    // Disabled RAM reads the conventional value and drops writes.
    assert_eq!(gb.cpu.mmu.read(0xA000), 0xFF);
    gb.cpu.mmu.write(0xA000, 0x77);
    assert_eq!(gb.cpu.mmu.read(0xA000), 0xFF);
    // Enable RAM, write, read back.
    gb.cpu.mmu.write(0x0000, 0x0A);
    gb.cpu.mmu.write(0xA000, 0x77);
    assert_eq!(gb.cpu.mmu.read(0xA000), 0x77);
    // Advanced mode with a different RAM bank sees different bytes.
    gb.cpu.mmu.write(0x6000, 0x01);
    gb.cpu.mmu.write(0x4000, 0x02);
    assert_eq!(gb.cpu.mmu.read(0xA000), 0x00);
    gb.cpu.mmu.write(0x4000, 0x00);
    assert_eq!(gb.cpu.mmu.read(0xA000), 0x77);
}

#[test]
fn ld_deref_imm_sp_stores_sp() {
    // LD (a16),SP stores the stack pointer's two bytes at the immediate
    // address and leaves SP itself unchanged.
    let rom = [0x08, 0x00, 0x10];
    let mut cpu = Cpu::new(DummyMmu::new(&rom));
    cpu.sp = 0xBEEF;
    let cycles = cpu.step();
    assert_eq!(cycles, 20);
    assert_eq!(cpu.sp, 0xBEEF);
    assert_eq!(cpu.mmu.read(0x1000), 0xEF);
    assert_eq!(cpu.mmu.read(0x1001), 0xBE);
}

#[test]
fn header_title_reads_back() {
    let rom = make_rom(0x00, 0, 0);
    let header = qgb::header::Header::parse(&rom).expect("parses");
    assert_eq!(header.title, "QUODLIBET");
}
