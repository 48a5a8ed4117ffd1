//! Passive snapshots of the emulator for external observers.
//!
//! Observers fill a snapshot by asking each component to report itself;
//! polling is a pure read and advances no cycles. The snapshot holds plain
//! values copied out of the core.

use vstd::prelude::*;

use crate::cpu::Cpu;
use crate::instruction::Instruction;
use crate::mmu::Mmu;
use crate::opcode::Opcode;
use crate::opcode::WideRegister;
use crate::text::push_char;
use crate::traits::ReadWriteMemory;

verus! {

/// How many instructions the disassembly window holds by default.
pub const DEFAULT_INSTRUCTION_BUFFER_SIZE: usize = 50;

/// One decoded instruction of the disassembly window.
pub struct InstructionInfo {
    /// The instruction's mnemonic, without operand values.
    pub mnemonic: String,
    /// The address its opcode byte starts at.
    pub address: u16,
    /// The instruction's length in bytes.
    pub length: u16,
}

/// A snapshot of the register file.
pub struct CpuState {
    pub a: u8,
    pub b: u8,
    pub c: u8,
    pub d: u8,
    pub e: u8,
    /// The byte form of the flags register.
    pub f: u8,
    pub h: u8,
    pub l: u8,
    pub z_flag: bool,
    pub n_flag: bool,
    pub h_flag: bool,
    pub c_flag: bool,
    pub af: u16,
    pub bc: u16,
    pub de: u16,
    pub hl: u16,
    pub pc: u16,
    pub sp: u16,
    /// A window of decoded instructions starting at the program counter.
    pub instructions: Vec<InstructionInfo>,
}

/// A snapshot of the memory system.
pub struct MmuState {
    /// Whether the boot overlay is still mapped.
    pub boot_mode: bool,
    /// A copy of work RAM.
    pub wram: Vec<u8>,
    /// A copy of high RAM.
    pub hram: Vec<u8>,
}

/// A snapshot of the cartridge's banking state.
pub struct CartridgeState {
    /// Number of ROM banks the header declares.
    pub rom_banks: usize,
    /// Number of RAM banks the header declares.
    pub ram_banks: usize,
    /// The header checksum.
    pub checksum: u8,
    /// Whether the header checksum matched.
    pub checksum_passed: bool,
    /// The active low ROM window.
    pub rom_bank0: usize,
    /// The active high ROM window.
    pub rom_bank1: usize,
    /// The active external RAM bank.
    pub ram_bank: usize,
    /// Whether external RAM is enabled.
    pub ram_enabled: bool,
}

/// A snapshot of the serial port.
pub struct IoState {
    /// Every byte sent over the serial port, in order.
    pub transmitted_bytes: Vec<u8>,
}

/// The first `n` bytes read as ASCII characters, in order, keeping only
/// the bytes inside the ASCII range.
pub open spec fn spec_ascii_upto(s: Seq<u8>, n: int) -> Seq<char>
    decreases n,
{
    if n <= 0 {
        Seq::empty()
    } else {
        spec_ascii_upto(s, n - 1) + (if s[n - 1] < 128 {
            seq![s[n - 1] as char]
        } else {
            Seq::empty()
        })
    }
}

/// The whole byte sequence read as ASCII characters, in order, keeping
/// only the bytes inside the ASCII range.
pub open spec fn spec_ascii(s: Seq<u8>) -> Seq<char> {
    spec_ascii_upto(s, s.len() as int)
}

impl IoState {
    /// The transmitted bytes read as ASCII text, in order; bytes outside
    /// the ASCII range are skipped.
    pub fn transmitted_bytes_ascii(&self) -> (r: String)
        ensures
            r@ == spec_ascii(self.transmitted_bytes@),
    {
        let mut msg = String::new();
        let mut i: usize = 0;
        while i < self.transmitted_bytes.len()
            invariant
                i <= self.transmitted_bytes@.len(),
                msg@ == spec_ascii_upto(self.transmitted_bytes@, i as int),
            decreases self.transmitted_bytes@.len() - i,
        {
            let byte = self.transmitted_bytes[i];
            let ghost before = msg@;
            if byte < 128 {
                push_char(&mut msg, byte as char);
            }
            proof {
                assert(msg@ =~= spec_ascii_upto(self.transmitted_bytes@, i + 1));
            }
            i = i + 1;
        }
        msg
    }
}

/// Emulation state for external observers.
pub struct State {
    /// The register file, where polled.
    pub cpu: Option<CpuState>,
    /// The memory system, where polled.
    pub mmu: Option<MmuState>,
    /// The cartridge's banking state, where polled.
    pub cartridge: Option<CartridgeState>,
    /// The serial port, where polled.
    pub io: Option<IoState>,
    /// How many instructions the disassembly window holds.
    pub instruction_buffer_size: usize,
}

impl State {
    /// An empty snapshot with the default window size.
    pub fn new() -> (r: State)
        ensures
            r.cpu is None && r.mmu is None && r.cartridge is None && r.io is None,
            r.instruction_buffer_size == DEFAULT_INSTRUCTION_BUFFER_SIZE,
    {
        State {
            cpu: None,
            mmu: None,
            cartridge: None,
            io: None,
            instruction_buffer_size: DEFAULT_INSTRUCTION_BUFFER_SIZE,
        }
    }
}

/// Filling a passive snapshot with a component's current state. A pure
/// read: the component is borrowed immutably, so polling cannot advance
/// the emulation.
pub trait PollState {
    /// What must hold of the component for it to be safely readable.
    spec fn poll_inv(&self) -> bool;

    /// What the component's part of the snapshot holds after a poll, and
    /// that the other parts are untouched.
    spec fn poll_rel(&self, pre: State, post: State) -> bool;

    /// Update `state` with this component's part of the snapshot.
    fn poll_state(&self, state: &mut State)
        requires
            self.poll_inv(),
        ensures
            self.poll_rel(*old(state), *final(state)),
    ;
}

impl Opcode {
    /// The instruction's mnemonic, without operand values.
    pub fn mnemonic(&self) -> String {
        let name: &str = match *self {
            Opcode::Nop => "NOP",
            Opcode::LdDerefImmSp(_) => "LD (a16), SP",
            Opcode::Stop => "STOP",
            Opcode::Jr(_) => "JR r8",
            Opcode::JrCond(_, _) => "JR cc, r8",
            Opcode::LdWideRegImm(_, _) => "LD rr, d16",
            Opcode::AddHLWideReg(_) => "ADD HL, rr",
            Opcode::LdDerefWideRegA(_) => "LD (rr), A",
            Opcode::LdADerefWideReg(_) => "LD A, (rr)",
            Opcode::LdHLIncA => "LD (HL+), A",
            Opcode::LdHLDecA => "LD (HL-), A",
            Opcode::LdAHLInc => "LD A, (HL+)",
            Opcode::LdAHLDec => "LD A, (HL-)",
            Opcode::IncWideReg(_) => "INC rr",
            Opcode::DecWideReg(_) => "DEC rr",
            Opcode::IncReg(_) => "INC r",
            Opcode::DecReg(_) => "DEC r",
            Opcode::LdRegImm(_, _) => "LD r, d8",
            Opcode::Rlca => "RLCA",
            Opcode::Rrca => "RRCA",
            Opcode::Rla => "RLA",
            Opcode::Rra => "RRA",
            Opcode::Daa => "DAA",
            Opcode::Cpl => "CPL",
            Opcode::Scf => "SCF",
            Opcode::Ccf => "CCF",
            Opcode::Ld(_, _) => "LD r, r",
            Opcode::Halt => "HALT",
            Opcode::Add(_) => "ADD A, r",
            Opcode::Adc(_) => "ADC A, r",
            Opcode::Sub(_) => "SUB A, r",
            Opcode::Sbc(_) => "SBC A, r",
            Opcode::And(_) => "AND A, r",
            Opcode::Xor(_) => "XOR A, r",
            Opcode::Or(_) => "OR A, r",
            Opcode::Cp(_) => "CP A, r",
            Opcode::RetCond(_) => "RET cc",
            Opcode::LdOffsetImmA(_) => "LDH (a8), A",
            Opcode::AddSpDisp(_) => "ADD SP, r8",
            Opcode::LdAOffsetImm(_) => "LDH A, (a8)",
            Opcode::LdHLSPDisp(_) => "LD HL, SP+r8",
            Opcode::PopWideReg(_) => "POP rr",
            Opcode::Ret => "RET",
            Opcode::Reti => "RETI",
            Opcode::JpHL => "JP HL",
            Opcode::LdSPHL => "LD SP, HL",
            Opcode::JPCondImm(_, _) => "JP cc, a16",
            Opcode::LdOffsetCA => "LD (C), A",
            Opcode::LdDerefImmA(_) => "LD (a16), A",
            Opcode::LdAOffsetC => "LD A, (C)",
            Opcode::LdADerefImm(_) => "LD A, (a16)",
            Opcode::JP(_) => "JP a16",
            Opcode::DI => "DI",
            Opcode::EI => "EI",
            Opcode::CallCondImm(_, _) => "CALL cc, a16",
            Opcode::PushWideReg(_) => "PUSH rr",
            Opcode::CallImm(_) => "CALL a16",
            Opcode::AddImm(_) => "ADD A, d8",
            Opcode::AdcImm(_) => "ADC A, d8",
            Opcode::SubImm(_) => "SUB A, d8",
            Opcode::SbcImm(_) => "SBC A, d8",
            Opcode::AndImm(_) => "AND A, d8",
            Opcode::XorImm(_) => "XOR A, d8",
            Opcode::OrImm(_) => "OR A, d8",
            Opcode::CpImm(_) => "CP A, d8",
            Opcode::Rst(_) => "RST",
            Opcode::Rlc(_) => "RLC r",
            Opcode::Rrc(_) => "RRC r",
            Opcode::Rl(_) => "RL r",
            Opcode::Rr(_) => "RR r",
            Opcode::Sla(_) => "SLA r",
            Opcode::Sra(_) => "SRA r",
            Opcode::Swap(_) => "SWAP r",
            Opcode::Srl(_) => "SRL r",
            Opcode::Bit(_, _) => "BIT b, r",
            Opcode::Res(_, _) => "RES b, r",
            Opcode::SetBit(_, _) => "SET b, r",
        };
        name.to_owned()
    }
}

impl PollState for Cpu<Mmu> {
    open spec fn poll_inv(&self) -> bool {
        self.mmu.inv()
    }

    open spec fn poll_rel(&self, pre: State, post: State) -> bool {
        &&& post.instruction_buffer_size == pre.instruction_buffer_size
        &&& post.cpu is Some
        &&& ({
            let c = post.cpu->Some_0;
            c.a == self.a && c.b == self.b && c.c == self.c && c.d == self.d && c.e == self.e
                && c.f == self.f.spec_bits() && c.h == self.h && c.l == self.l && c.z_flag
                == self.f.z && c.n_flag == self.f.n && c.h_flag == self.f.h && c.c_flag
                == self.f.c && c.af == self.spec_wide(WideRegister::AF) && c.bc == self.spec_wide(
                WideRegister::BC,
            ) && c.de == self.spec_wide(WideRegister::DE) && c.hl == self.spec_wide(
                WideRegister::HL,
            ) && c.pc == self.pc && c.sp == self.sp && c.instructions@.len()
                == pre.instruction_buffer_size
        })
        &&& post.mmu is Some
        &&& post.mmu->Some_0.boot_mode == self.mmu.boot_mode
        &&& post.mmu->Some_0.wram@ == self.mmu.wram@
        &&& post.mmu->Some_0.hram@ == self.mmu.hram@
        &&& post.cartridge is Some
        &&& post.cartridge->Some_0 == (CartridgeState {
            rom_banks: self.mmu.cartridge.spec_base().header.rom_banks,
            ram_banks: self.mmu.cartridge.spec_base().header.ram_banks,
            checksum: self.mmu.cartridge.spec_base().header.checksum,
            checksum_passed: self.mmu.cartridge.spec_base().header.checksum_passed,
            rom_bank0: self.mmu.cartridge.spec_base().rom_bank0,
            rom_bank1: self.mmu.cartridge.spec_base().rom_bank1,
            ram_bank: self.mmu.cartridge.spec_base().ram_bank,
            ram_enabled: self.mmu.cartridge.spec_base().ram_enabled,
        })
        &&& post.io is Some
        &&& post.io->Some_0.transmitted_bytes@ == self.mmu.io.sent_bytes@
    }

    fn poll_state(&self, state: &mut State) {
        let mut instructions: Vec<InstructionInfo> = Vec::new();
        let mut pc = self.pc;
        let mut n: usize = 0;
        let limit = state.instruction_buffer_size;
        while n < limit
            invariant
                self.mmu.inv(),
                n <= limit,
                instructions@.len() == n,
            decreases limit - n,
        {
            let mut stream = crate::cpu::MmuByteStream { pc, mmu: &self.mmu };
            match Instruction::try_from(&mut stream) {
                Ok(instr) => {
                    instructions.push(
                        InstructionInfo {
                            mnemonic: instr.opcode.mnemonic(),
                            address: pc,
                            length: instr.length,
                        },
                    );
                    pc = crate::cpu::wrap_add(pc, instr.length);
                },
                Err(_) => {
                    instructions.push(
                        InstructionInfo { mnemonic: ("DATA").to_owned(), address: pc, length: 1 },
                    );
                    pc = crate::cpu::wrap_add(pc, 1);
                },
            }
            n = n + 1;
        }
        state.cpu = Some(
            CpuState {
                a: self.a,
                b: self.b,
                c: self.c,
                d: self.d,
                e: self.e,
                f: self.f.bits(),
                h: self.h,
                l: self.l,
                z_flag: self.f.z,
                n_flag: self.f.n,
                h_flag: self.f.h,
                c_flag: self.f.c,
                af: self.wide_reg(WideRegister::AF),
                bc: self.wide_reg(WideRegister::BC),
                de: self.wide_reg(WideRegister::DE),
                hl: self.wide_reg(WideRegister::HL),
                pc: self.pc,
                sp: self.sp,
                instructions,
            },
        );
        self.mmu.poll_state(state);
    }
}

impl PollState for Mmu {
    open spec fn poll_inv(&self) -> bool {
        true
    }

    open spec fn poll_rel(&self, pre: State, post: State) -> bool {
        &&& post.cpu == pre.cpu
        &&& post.instruction_buffer_size == pre.instruction_buffer_size
        &&& post.mmu is Some
        &&& post.mmu->Some_0.boot_mode == self.boot_mode
        &&& post.mmu->Some_0.wram@ == self.wram@
        &&& post.mmu->Some_0.hram@ == self.hram@
        &&& post.cartridge is Some
        &&& post.cartridge->Some_0 == (CartridgeState {
            rom_banks: self.cartridge.spec_base().header.rom_banks,
            ram_banks: self.cartridge.spec_base().header.ram_banks,
            checksum: self.cartridge.spec_base().header.checksum,
            checksum_passed: self.cartridge.spec_base().header.checksum_passed,
            rom_bank0: self.cartridge.spec_base().rom_bank0,
            rom_bank1: self.cartridge.spec_base().rom_bank1,
            ram_bank: self.cartridge.spec_base().ram_bank,
            ram_enabled: self.cartridge.spec_base().ram_enabled,
        })
        &&& post.io is Some
        &&& post.io->Some_0.transmitted_bytes@ == self.io.sent_bytes@
    }

    fn poll_state(&self, state: &mut State) {
        let mut wram_copy: Vec<u8> = Vec::new();
        let mut i: usize = 0;
        while i < self.wram.len()
            invariant
                i <= self.wram@.len(),
                wram_copy@.len() == i,
                forall|j: int| 0 <= j < i ==> wram_copy@[j] == self.wram@[j],
            decreases self.wram@.len() - i,
        {
            wram_copy.push(self.wram[i]);
            i = i + 1;
        }
        proof {
            assert(wram_copy@ =~= self.wram@);
        }
        let mut hram_copy: Vec<u8> = Vec::new();
        let mut k: usize = 0;
        while k < self.hram.len()
            invariant
                k <= self.hram@.len(),
                hram_copy@.len() == k,
                forall|j: int| 0 <= j < k ==> hram_copy@[j] == self.hram@[j],
            decreases self.hram@.len() - k,
        {
            hram_copy.push(self.hram[k]);
            k = k + 1;
        }
        proof {
            assert(hram_copy@ =~= self.hram@);
        }
        state.mmu = Some(MmuState { boot_mode: self.boot_mode, wram: wram_copy, hram: hram_copy });
        let base = match &self.cartridge {
            crate::cartridge::Cartridge::RomOnly(c) => &c.cartridge_base,
            crate::cartridge::Cartridge::Mbc1(c) => &c.cartridge_base,
        };
        state.cartridge = Some(
            CartridgeState {
                rom_banks: base.header.rom_banks,
                ram_banks: base.header.ram_banks,
                checksum: base.header.checksum,
                checksum_passed: base.header.checksum_passed,
                rom_bank0: base.rom_bank0,
                rom_bank1: base.rom_bank1,
                ram_bank: base.ram_bank,
                ram_enabled: base.ram_enabled,
            },
        );
        self.io.poll_state(state);
    }
}

impl PollState for crate::io::IoHandler {
    open spec fn poll_inv(&self) -> bool {
        true
    }

    open spec fn poll_rel(&self, pre: State, post: State) -> bool {
        &&& post.cpu == pre.cpu
        &&& post.mmu == pre.mmu
        &&& post.cartridge == pre.cartridge
        &&& post.instruction_buffer_size == pre.instruction_buffer_size
        &&& post.io is Some
        &&& post.io->Some_0.transmitted_bytes@ == self.sent_bytes@
    }

    fn poll_state(&self, state: &mut State) {
        let mut sent: Vec<u8> = Vec::new();
        let mut i: usize = 0;
        while i < self.sent_bytes.len()
            invariant
                i <= self.sent_bytes@.len(),
                sent@.len() == i,
                forall|j: int| 0 <= j < i ==> sent@[j] == self.sent_bytes@[j],
            decreases self.sent_bytes@.len() - i,
        {
            sent.push(self.sent_bytes[i]);
            i = i + 1;
        }
        proof {
            assert(sent@ =~= self.sent_bytes@);
        }
        state.io = Some(IoState { transmitted_bytes: sent });
    }
}

} // verus!
