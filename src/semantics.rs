//! What each instruction does, stated over the processor model.
use vstd::prelude::*;

use crate::cpu::{CpuState, ExecutionFinished};
use crate::instructions::{ExecutionError, Instruction, Transform};
use crate::utils::{combine_spec, from_bcd_spec, to_bcd_spec, wrap16, wrap8};

verus! {

/// The two's-complement value of a byte.
pub open spec fn signed(v: u8) -> int {
    if v >= 0x80 {
        v as int - 0x100
    } else {
        v as int
    }
}

/// Whether bit `k` of `v` is set.
pub open spec fn bit_set(v: u8, k: u8) -> bool {
    v & (1u8 << k) != 0
}

/// Effective addresses; each is computed with the program counter on the
/// first operand byte.
impl CpuState {
    pub open spec fn zp_addr(self) -> u16 {
        self.operand(0) as u16
    }

    pub open spec fn zpx_addr(self) -> u16 {
        wrap8(self.operand(0) + self.x) as u16
    }

    pub open spec fn zpy_addr(self) -> u16 {
        wrap8(self.operand(0) + self.y) as u16
    }

    pub open spec fn abs_addr(self) -> u16 {
        combine_spec(self.operand(0), self.operand(1), 0)
    }

    pub open spec fn absx_addr(self) -> u16 {
        combine_spec(self.operand(0), self.operand(1), self.x)
    }

    pub open spec fn absy_addr(self) -> u16 {
        combine_spec(self.operand(0), self.operand(1), self.y)
    }

    /// The address held in zero page at `zp` and `zp + 1` (the second byte
    /// wraps within zero page), plus `offset`.
    pub open spec fn pointer(self, zp: u8, offset: u8) -> u16 {
        combine_spec(self.read(zp as u16), self.read(wrap8(zp + 1) as u16), offset)
    }

    pub open spec fn ind_addr(self) -> u16 {
        self.pointer(self.operand(0), 0)
    }

    pub open spec fn indx_addr(self) -> u16 {
        self.pointer(wrap8(self.operand(0) + self.x), 0)
    }

    pub open spec fn indy_addr(self) -> u16 {
        self.pointer(self.operand(0), self.y)
    }
}

/// Operations on the model.
impl CpuState {
    /// Writes an arithmetic result `result` to `A`: `V` tells whether the
    /// exact result `t` differs from the signed value of `result`, `C` is
    /// `carry`, and `N`, `Z` follow `result`.
    pub open spec fn arith(self, t: int, result: u8, carry: bool) -> CpuState {
        CpuState { a: result, v: t != signed(result), c: carry, ..self }.with_nz(result)
    }

    /// Add with carry. In binary mode `A` becomes the low byte of the sum,
    /// `C` tells whether the unsigned sum reaches 256, and `V` whether the
    /// signed sum leaves -128..=127. In decimal mode the operands count as
    /// packed decimal digits, `A` becomes the sum modulo 100 packed the same
    /// way, `C` tells whether the sum reaches 100, and `V` is computed on the
    /// decimal sum before adjustment: it is set when that sum differs from
    /// the signed value of the packed result byte.
    pub open spec fn adc(self, m: u8) -> CpuState {
        let carry_in: int = if self.c { 1 } else { 0 };
        if self.d {
            let t = from_bcd_spec(self.a) + from_bcd_spec(m) + carry_in;
            self.arith(t, to_bcd_spec((t % 100) as u8), t >= 100)
        } else {
            let t = signed(self.a) + signed(m) + carry_in;
            self.arith(t, wrap8(self.a + m + carry_in), self.a + m + carry_in >= 0x100)
        }
    }

    /// Subtract with borrow (the borrow is the inverted carry). `C` tells
    /// whether no borrow out occurred. In binary mode `V` tells whether the
    /// signed difference leaves -128..=127; in decimal mode `V` is computed on
    /// the decimal difference before adjustment: it is set when that
    /// difference differs from the signed value of the packed result byte.
    pub open spec fn sbc(self, m: u8) -> CpuState {
        let borrow: int = if self.c { 0 } else { 1 };
        if self.d {
            let t = from_bcd_spec(self.a) - from_bcd_spec(m) - borrow;
            self.arith(t, to_bcd_spec((t % 100) as u8), t >= 0)
        } else {
            let t = signed(self.a) - signed(m) - borrow;
            self.arith(t, wrap8(self.a - m - borrow), self.a >= m + borrow)
        }
    }

    pub open spec fn and(self, m: u8) -> CpuState {
        CpuState { a: self.a & m, ..self }.with_nz(self.a & m)
    }

    pub open spec fn ora(self, m: u8) -> CpuState {
        CpuState { a: self.a | m, ..self }.with_nz(self.a | m)
    }

    pub open spec fn eor(self, m: u8) -> CpuState {
        CpuState { a: self.a ^ m, ..self }.with_nz(self.a ^ m)
    }

    /// BIT on memory: `Z` from `A & m`, `N` and `V` from bits 7 and 6 of `m`.
    pub open spec fn bit(self, m: u8) -> CpuState {
        CpuState { z: self.a & m == 0, n: m & 0x80 != 0, v: m & 0x40 != 0, ..self }
    }

    /// BIT immediate: `Z` only.
    pub open spec fn bit_imm(self, m: u8) -> CpuState {
        CpuState { z: self.a & m == 0, ..self }
    }

    /// Compares `reg` with `m`: `N`, `Z` from `reg - m` modulo 256, and `C`
    /// whether `reg >= m` unsigned.
    pub open spec fn compare(self, reg: u8, m: u8) -> CpuState {
        CpuState { c: reg >= m, ..self }.with_nz(wrap8(reg - m))
    }

    pub open spec fn load_a(self, v: u8) -> CpuState {
        CpuState { a: v, ..self }.with_nz(v)
    }

    pub open spec fn load_x(self, v: u8) -> CpuState {
        CpuState { x: v, ..self }.with_nz(v)
    }

    pub open spec fn load_y(self, v: u8) -> CpuState {
        CpuState { y: v, ..self }.with_nz(v)
    }

    /// What a read-modify-write transform makes of `v`, and the flags it sets.
    pub open spec fn transform(self, t: Transform, v: u8) -> (CpuState, u8) {
        match t {
            Transform::Asl => (
                CpuState { c: v >= 0x80, ..self }.with_nz(wrap8(v * 2)),
                wrap8(v * 2),
            ),
            Transform::Lsr => (CpuState { c: v % 2 == 1, ..self }.with_nz(v / 2), v / 2),
            Transform::Rol => {
                let r = wrap8(v * 2 + if self.c { 1int } else { 0 });
                (CpuState { c: v >= 0x80, ..self }.with_nz(r), r)
            },
            Transform::Ror => {
                let r = (v / 2 + if self.c { 0x80int } else { 0 }) as u8;
                (CpuState { c: v % 2 == 1, ..self }.with_nz(r), r)
            },
            Transform::Inc => (self.with_nz(wrap8(v + 1)), wrap8(v + 1)),
            Transform::Dec => (self.with_nz(wrap8(v - 1)), wrap8(v - 1)),
            Transform::ResetBit(k) => (self, v & !(1u8 << k)),
            Transform::SetBit(k) => (self, v | (1u8 << k)),
            Transform::TestAndReset => (CpuState { z: self.a & v == 0, ..self }, v & !self.a),
            Transform::TestAndSet => (CpuState { z: self.a & v == 0, ..self }, v | self.a),
        }
    }

    /// Reads `addr`, applies `t`, writes the result back to `addr`.
    pub open spec fn rmw(self, addr: u16, t: Transform) -> CpuState {
        let (s, r) = self.transform(t, self.read(addr));
        s.write(addr, r)
    }

    /// Applies `t` to the accumulator.
    pub open spec fn rmw_a(self, t: Transform) -> CpuState {
        let (s, r) = self.transform(t, self.a);
        CpuState { a: r, ..s }
    }

    /// A relative branch: reads the signed offset and, if `taken`, adds it to
    /// the program counter that follows it.
    pub open spec fn branch(self, taken: bool) -> CpuState {
        let s = self.advance(1);
        if taken {
            s.advance(signed(self.operand(0)))
        } else {
            s
        }
    }

    /// A branch that is taken and leads back to its own opcode.
    pub open spec fn branch_loops(self, taken: bool) -> bool {
        taken && self.operand(0) == 0xFE
    }

    /// Whether the zero-page byte that a BBR/BBS names has bit `k` as `set`.
    pub open spec fn zp_bit_is(self, k: u8, set: bool) -> bool {
        bit_set(self.read(self.zp_addr()), k) == set
    }

    /// BBR/BBS: a zero-page byte, then a branch on its bit `k`.
    pub open spec fn bit_branch(self, k: u8, set: bool) -> CpuState {
        self.advance(1).branch(self.zp_bit_is(k, set))
    }

    pub open spec fn bit_branch_loops(self, k: u8, set: bool) -> bool {
        self.advance(1).branch_loops(self.zp_bit_is(k, set))
    }

    /// The target of JMP (abs,X).
    pub open spec fn absx_target(self) -> u16 {
        let p = self.absx_addr();
        combine_spec(self.read(p), self.read(wrap16(p + 1)), 0)
    }

    /// The target of JMP (abs).
    pub open spec fn ind_target(self) -> u16 {
        let lsb = self.operand(0);
        let msb = self.operand(1);
        combine_spec(self.read(combine_spec(lsb, msb, 0)), self.read(combine_spec(lsb, msb, 1)), 0)
    }

    pub open spec fn jump(self, target: u16) -> CpuState {
        CpuState { pc: target, ..self }
    }

    /// The address of the opcode before the operand bytes.
    pub open spec fn opcode_addr(self) -> u16 {
        wrap16(self.pc - 1)
    }

    /// JSR: pushes the address of its last byte, high byte first, and jumps.
    pub open spec fn jsr(self) -> CpuState {
        let s = self.advance(2);
        let ret = wrap16(s.pc - 1);
        s.push((ret / 256) as u8).push((ret % 256) as u8).jump(self.abs_addr())
    }

    /// RTS: pulls the low, then the high byte, and continues one past them.
    pub open spec fn rts(self) -> CpuState {
        let lo = self.pulled();
        let s = self.after_pull();
        let hi = s.pulled();
        s.after_pull().jump(combine_spec(lo, hi, 1))
    }

    /// BRK: skips a signature byte, pushes the return address (setting `B`
    /// between its two bytes) and the status, sets `I`, clears `D` on the
    /// 65C02 only, and jumps through the vector at `0xFFFE`.
    pub open spec fn brk(self) -> CpuState {
        let s1 = self.advance(1);
        let ret = s1.pc;
        let s2 = CpuState { b: true, ..s1.push((ret / 256) as u8) }.push((ret % 256) as u8);
        let s3 = s2.push(s2.status());
        CpuState { i: true, d: s3.d && !self.cmos, ..s3 }.jump(combine_spec(s3.read(0xFFFE), s3.read(0xFFFF), 0))
    }

    /// RTI: pulls the status, then the return address low byte first.
    pub open spec fn rti(self) -> CpuState {
        let s1 = self.after_pull().with_status(self.pulled());
        let lo = s1.pulled();
        let s2 = s1.after_pull();
        let hi = s2.pulled();
        s2.after_pull().jump(combine_spec(lo, hi, 0))
    }

    /// PHP: pushes the status with `B` set in the pushed byte only.
    pub open spec fn php(self) -> CpuState {
        self.push(CpuState { b: true, ..self }.status())
    }

    /// PLP: pulls the status, keeping `B`.
    pub open spec fn plp(self) -> CpuState {
        CpuState { b: self.b, ..self.after_pull().with_status(self.pulled()) }
    }
}

/// The state after instruction `i`, entered with the program counter just
/// past its opcode.
#[verifier::opaque]
pub open spec fn effect(s: CpuState, i: Instruction) -> CpuState {
    match i {
        Instruction::ADC_ABS => s.advance(2).adc(s.read(s.abs_addr())),
        Instruction::ADC_ABSX => s.advance(2).adc(s.read(s.absx_addr())),
        Instruction::ADC_ABSY => s.advance(2).adc(s.read(s.absy_addr())),
        Instruction::ADC_IMM => s.advance(1).adc(s.operand(0)),
        Instruction::ADC_IND => s.advance(1).adc(s.read(s.ind_addr())),
        Instruction::ADC_INDX => s.advance(1).adc(s.read(s.indx_addr())),
        Instruction::ADC_INDY => s.advance(1).adc(s.read(s.indy_addr())),
        Instruction::ADC_ZP => s.advance(1).adc(s.read(s.zp_addr())),
        Instruction::ADC_ZPX => s.advance(1).adc(s.read(s.zpx_addr())),
        Instruction::AND_ABS => s.advance(2).and(s.read(s.abs_addr())),
        Instruction::AND_ABSX => s.advance(2).and(s.read(s.absx_addr())),
        Instruction::AND_ABSY => s.advance(2).and(s.read(s.absy_addr())),
        Instruction::AND_IMM => s.advance(1).and(s.operand(0)),
        Instruction::AND_IND => s.advance(1).and(s.read(s.ind_addr())),
        Instruction::AND_INDX => s.advance(1).and(s.read(s.indx_addr())),
        Instruction::AND_INDY => s.advance(1).and(s.read(s.indy_addr())),
        Instruction::AND_ZP => s.advance(1).and(s.read(s.zp_addr())),
        Instruction::AND_ZPX => s.advance(1).and(s.read(s.zpx_addr())),
        Instruction::ASL_ABS => s.advance(2).rmw(s.abs_addr(), Transform::Asl),
        Instruction::ASL_ABSX => s.advance(2).rmw(s.absx_addr(), Transform::Asl),
        Instruction::ASL_ACC => s.rmw_a(Transform::Asl),
        Instruction::ASL_ZP => s.advance(1).rmw(s.zp_addr(), Transform::Asl),
        Instruction::ASL_ZPX => s.advance(1).rmw(s.zpx_addr(), Transform::Asl),
        Instruction::BBR0 => s.bit_branch(0, false),
        Instruction::BBR1 => s.bit_branch(1, false),
        Instruction::BBR2 => s.bit_branch(2, false),
        Instruction::BBR3 => s.bit_branch(3, false),
        Instruction::BBR4 => s.bit_branch(4, false),
        Instruction::BBR5 => s.bit_branch(5, false),
        Instruction::BBR6 => s.bit_branch(6, false),
        Instruction::BBR7 => s.bit_branch(7, false),
        Instruction::BBS0 => s.bit_branch(0, true),
        Instruction::BBS1 => s.bit_branch(1, true),
        Instruction::BBS2 => s.bit_branch(2, true),
        Instruction::BBS3 => s.bit_branch(3, true),
        Instruction::BBS4 => s.bit_branch(4, true),
        Instruction::BBS5 => s.bit_branch(5, true),
        Instruction::BBS6 => s.bit_branch(6, true),
        Instruction::BBS7 => s.bit_branch(7, true),
        Instruction::BCC => s.branch(!s.c),
        Instruction::BCS => s.branch(s.c),
        Instruction::BEQ => s.branch(s.z),
        Instruction::BIT_ABS => s.advance(2).bit(s.read(s.abs_addr())),
        Instruction::BIT_ABSX => s.advance(2).bit(s.read(s.absx_addr())),
        Instruction::BIT_IMM => s.advance(1).bit_imm(s.operand(0)),
        Instruction::BIT_ZP => s.advance(1).bit(s.read(s.zp_addr())),
        Instruction::BIT_ZPX => s.advance(1).bit(s.read(s.zpx_addr())),
        Instruction::BMI => s.branch(s.n),
        Instruction::BNE => s.branch(!s.z),
        Instruction::BPL => s.branch(!s.n),
        Instruction::BRA => s.branch(true),
        Instruction::BRK => s.brk(),
        Instruction::BVC => s.branch(!s.v),
        Instruction::BVS => s.branch(s.v),
        Instruction::CLC => CpuState { c: false, ..s },
        Instruction::CLD => CpuState { d: false, ..s },
        Instruction::CLI => CpuState { i: false, ..s },
        Instruction::CLV => CpuState { v: false, ..s },
        Instruction::CMP_ABS => s.advance(2).compare(s.a, s.read(s.abs_addr())),
        Instruction::CMP_ABSX => s.advance(2).compare(s.a, s.read(s.absx_addr())),
        Instruction::CMP_ABSY => s.advance(2).compare(s.a, s.read(s.absy_addr())),
        Instruction::CMP_IMM => s.advance(1).compare(s.a, s.operand(0)),
        Instruction::CMP_IND => s.advance(1).compare(s.a, s.read(s.ind_addr())),
        Instruction::CMP_INDX => s.advance(1).compare(s.a, s.read(s.indx_addr())),
        Instruction::CMP_INDY => s.advance(1).compare(s.a, s.read(s.indy_addr())),
        Instruction::CMP_ZP => s.advance(1).compare(s.a, s.read(s.zp_addr())),
        Instruction::CMP_ZPX => s.advance(1).compare(s.a, s.read(s.zpx_addr())),
        Instruction::CPX_ABS => s.advance(2).compare(s.x, s.read(s.abs_addr())),
        Instruction::CPX_IMM => s.advance(1).compare(s.x, s.operand(0)),
        Instruction::CPX_ZP => s.advance(1).compare(s.x, s.read(s.zp_addr())),
        Instruction::CPY_ABS => s.advance(2).compare(s.y, s.read(s.abs_addr())),
        Instruction::CPY_IMM => s.advance(1).compare(s.y, s.operand(0)),
        Instruction::CPY_ZP => s.advance(1).compare(s.y, s.read(s.zp_addr())),
        Instruction::DEC_ABS => s.advance(2).rmw(s.abs_addr(), Transform::Dec),
        Instruction::DEC_ABSX => s.advance(2).rmw(s.absx_addr(), Transform::Dec),
        Instruction::DEC_ACC => s.rmw_a(Transform::Dec),
        Instruction::DEC_ZP => s.advance(1).rmw(s.zp_addr(), Transform::Dec),
        Instruction::DEC_ZPX => s.advance(1).rmw(s.zpx_addr(), Transform::Dec),
        Instruction::DEX => s.load_x(wrap8(s.x - 1)),
        Instruction::DEY => s.load_y(wrap8(s.y - 1)),
        Instruction::EOR_ABS => s.advance(2).eor(s.read(s.abs_addr())),
        Instruction::EOR_ABSX => s.advance(2).eor(s.read(s.absx_addr())),
        Instruction::EOR_ABSY => s.advance(2).eor(s.read(s.absy_addr())),
        Instruction::EOR_IMM => s.advance(1).eor(s.operand(0)),
        Instruction::EOR_IND => s.advance(1).eor(s.read(s.ind_addr())),
        Instruction::EOR_INDX => s.advance(1).eor(s.read(s.indx_addr())),
        Instruction::EOR_INDY => s.advance(1).eor(s.read(s.indy_addr())),
        Instruction::EOR_ZP => s.advance(1).eor(s.read(s.zp_addr())),
        Instruction::EOR_ZPX => s.advance(1).eor(s.read(s.zpx_addr())),
        Instruction::INC_ABS => s.advance(2).rmw(s.abs_addr(), Transform::Inc),
        Instruction::INC_ABSX => s.advance(2).rmw(s.absx_addr(), Transform::Inc),
        Instruction::INC_ACC => s.rmw_a(Transform::Inc),
        Instruction::INC_ZP => s.advance(1).rmw(s.zp_addr(), Transform::Inc),
        Instruction::INC_ZPX => s.advance(1).rmw(s.zpx_addr(), Transform::Inc),
        Instruction::INX => s.load_x(wrap8(s.x + 1)),
        Instruction::INY => s.load_y(wrap8(s.y + 1)),
        Instruction::JMP_ABS => s.jump(s.abs_addr()),
        Instruction::JMP_ABSX => s.jump(s.absx_target()),
        Instruction::JMP_IND => s.jump(s.ind_target()),
        Instruction::JSR => s.jsr(),
        Instruction::LDA_ABS => s.advance(2).load_a(s.read(s.abs_addr())),
        Instruction::LDA_ABSX => s.advance(2).load_a(s.read(s.absx_addr())),
        Instruction::LDA_ABSY => s.advance(2).load_a(s.read(s.absy_addr())),
        Instruction::LDA_IMM => s.advance(1).load_a(s.operand(0)),
        Instruction::LDA_IND => s.advance(1).load_a(s.read(s.ind_addr())),
        Instruction::LDA_INDX => s.advance(1).load_a(s.read(s.indx_addr())),
        Instruction::LDA_INDY => s.advance(1).load_a(s.read(s.indy_addr())),
        Instruction::LDA_ZP => s.advance(1).load_a(s.read(s.zp_addr())),
        Instruction::LDA_ZPX => s.advance(1).load_a(s.read(s.zpx_addr())),
        Instruction::LDX_ABS => s.advance(2).load_x(s.read(s.abs_addr())),
        Instruction::LDX_ABSY => s.advance(2).load_x(s.read(s.absy_addr())),
        Instruction::LDX_IMM => s.advance(1).load_x(s.operand(0)),
        Instruction::LDX_ZP => s.advance(1).load_x(s.read(s.zp_addr())),
        Instruction::LDX_ZPY => s.advance(1).load_x(s.read(s.zpy_addr())),
        Instruction::LDY_ABS => s.advance(2).load_y(s.read(s.abs_addr())),
        Instruction::LDY_ABSX => s.advance(2).load_y(s.read(s.absx_addr())),
        Instruction::LDY_IMM => s.advance(1).load_y(s.operand(0)),
        Instruction::LDY_ZP => s.advance(1).load_y(s.read(s.zp_addr())),
        Instruction::LDY_ZPX => s.advance(1).load_y(s.read(s.zpx_addr())),
        Instruction::LSR_ABS => s.advance(2).rmw(s.abs_addr(), Transform::Lsr),
        Instruction::LSR_ABSX => s.advance(2).rmw(s.absx_addr(), Transform::Lsr),
        Instruction::LSR_ACC => s.rmw_a(Transform::Lsr),
        Instruction::LSR_ZP => s.advance(1).rmw(s.zp_addr(), Transform::Lsr),
        Instruction::LSR_ZPX => s.advance(1).rmw(s.zpx_addr(), Transform::Lsr),
        Instruction::ORA_ABS => s.advance(2).ora(s.read(s.abs_addr())),
        Instruction::ORA_ABSX => s.advance(2).ora(s.read(s.absx_addr())),
        Instruction::ORA_ABSY => s.advance(2).ora(s.read(s.absy_addr())),
        Instruction::ORA_IMM => s.advance(1).ora(s.operand(0)),
        Instruction::ORA_IND => s.advance(1).ora(s.read(s.ind_addr())),
        Instruction::ORA_INDX => s.advance(1).ora(s.read(s.indx_addr())),
        Instruction::ORA_INDY => s.advance(1).ora(s.read(s.indy_addr())),
        Instruction::ORA_ZP => s.advance(1).ora(s.read(s.zp_addr())),
        Instruction::ORA_ZPX => s.advance(1).ora(s.read(s.zpx_addr())),
        Instruction::PHA => s.push(s.a),
        Instruction::PHP => s.php(),
        Instruction::PHX => s.push(s.x),
        Instruction::PHY => s.push(s.y),
        Instruction::PLA => s.after_pull().load_a(s.pulled()),
        Instruction::PLP => s.plp(),
        Instruction::PLX => s.after_pull().load_x(s.pulled()),
        Instruction::PLY => s.after_pull().load_y(s.pulled()),
        Instruction::RMB0 => s.advance(1).rmw(s.zp_addr(), Transform::ResetBit(0)),
        Instruction::RMB1 => s.advance(1).rmw(s.zp_addr(), Transform::ResetBit(1)),
        Instruction::RMB2 => s.advance(1).rmw(s.zp_addr(), Transform::ResetBit(2)),
        Instruction::RMB3 => s.advance(1).rmw(s.zp_addr(), Transform::ResetBit(3)),
        Instruction::RMB4 => s.advance(1).rmw(s.zp_addr(), Transform::ResetBit(4)),
        Instruction::RMB5 => s.advance(1).rmw(s.zp_addr(), Transform::ResetBit(5)),
        Instruction::RMB6 => s.advance(1).rmw(s.zp_addr(), Transform::ResetBit(6)),
        Instruction::RMB7 => s.advance(1).rmw(s.zp_addr(), Transform::ResetBit(7)),
        Instruction::ROL_ABS => s.advance(2).rmw(s.abs_addr(), Transform::Rol),
        Instruction::ROL_ABSX => s.advance(2).rmw(s.absx_addr(), Transform::Rol),
        Instruction::ROL_ACC => s.rmw_a(Transform::Rol),
        Instruction::ROL_ZP => s.advance(1).rmw(s.zp_addr(), Transform::Rol),
        Instruction::ROL_ZPX => s.advance(1).rmw(s.zpx_addr(), Transform::Rol),
        Instruction::ROR_ABS => s.advance(2).rmw(s.abs_addr(), Transform::Ror),
        Instruction::ROR_ABSX => s.advance(2).rmw(s.absx_addr(), Transform::Ror),
        Instruction::ROR_ACC => s.rmw_a(Transform::Ror),
        Instruction::ROR_ZP => s.advance(1).rmw(s.zp_addr(), Transform::Ror),
        Instruction::ROR_ZPX => s.advance(1).rmw(s.zpx_addr(), Transform::Ror),
        Instruction::RTI => s.rti(),
        Instruction::RTS => s.rts(),
        Instruction::SBC_ABS => s.advance(2).sbc(s.read(s.abs_addr())),
        Instruction::SBC_ABSX => s.advance(2).sbc(s.read(s.absx_addr())),
        Instruction::SBC_ABSY => s.advance(2).sbc(s.read(s.absy_addr())),
        Instruction::SBC_IMM => s.advance(1).sbc(s.operand(0)),
        Instruction::SBC_IND => s.advance(1).sbc(s.read(s.ind_addr())),
        Instruction::SBC_INDX => s.advance(1).sbc(s.read(s.indx_addr())),
        Instruction::SBC_INDY => s.advance(1).sbc(s.read(s.indy_addr())),
        Instruction::SBC_ZP => s.advance(1).sbc(s.read(s.zp_addr())),
        Instruction::SBC_ZPX => s.advance(1).sbc(s.read(s.zpx_addr())),
        Instruction::SEC => CpuState { c: true, ..s },
        Instruction::SED => CpuState { d: true, ..s },
        Instruction::SEI => CpuState { i: true, ..s },
        Instruction::SMB0 => s.advance(1).rmw(s.zp_addr(), Transform::SetBit(0)),
        Instruction::SMB1 => s.advance(1).rmw(s.zp_addr(), Transform::SetBit(1)),
        Instruction::SMB2 => s.advance(1).rmw(s.zp_addr(), Transform::SetBit(2)),
        Instruction::SMB3 => s.advance(1).rmw(s.zp_addr(), Transform::SetBit(3)),
        Instruction::SMB4 => s.advance(1).rmw(s.zp_addr(), Transform::SetBit(4)),
        Instruction::SMB5 => s.advance(1).rmw(s.zp_addr(), Transform::SetBit(5)),
        Instruction::SMB6 => s.advance(1).rmw(s.zp_addr(), Transform::SetBit(6)),
        Instruction::SMB7 => s.advance(1).rmw(s.zp_addr(), Transform::SetBit(7)),
        Instruction::STA_ABS => s.advance(2).write(s.abs_addr(), s.a),
        Instruction::STA_ABSX => s.advance(2).write(s.absx_addr(), s.a),
        Instruction::STA_ABSY => s.advance(2).write(s.absy_addr(), s.a),
        Instruction::STA_IND => s.advance(1).write(s.ind_addr(), s.a),
        Instruction::STA_INDX => s.advance(1).write(s.indx_addr(), s.a),
        Instruction::STA_INDY => s.advance(1).write(s.indy_addr(), s.a),
        Instruction::STA_ZP => s.advance(1).write(s.zp_addr(), s.a),
        Instruction::STA_ZPX => s.advance(1).write(s.zpx_addr(), s.a),
        Instruction::STX_ABS => s.advance(2).write(s.abs_addr(), s.x),
        Instruction::STX_ZP => s.advance(1).write(s.zp_addr(), s.x),
        Instruction::STX_ZPY => s.advance(1).write(s.zpy_addr(), s.x),
        Instruction::STY_ABS => s.advance(2).write(s.abs_addr(), s.y),
        Instruction::STY_ZP => s.advance(1).write(s.zp_addr(), s.y),
        Instruction::STY_ZPX => s.advance(1).write(s.zpx_addr(), s.y),
        Instruction::STZ_ABS => s.advance(2).write(s.abs_addr(), 0),
        Instruction::STZ_ABSX => s.advance(2).write(s.absx_addr(), 0),
        Instruction::STZ_ZP => s.advance(1).write(s.zp_addr(), 0),
        Instruction::STZ_ZPX => s.advance(1).write(s.zpx_addr(), 0),
        Instruction::TAX => s.load_x(s.a),
        Instruction::TAY => s.load_y(s.a),
        Instruction::TRB_ABS => s.advance(2).rmw(s.abs_addr(), Transform::TestAndReset),
        Instruction::TRB_ZP => s.advance(1).rmw(s.zp_addr(), Transform::TestAndReset),
        Instruction::TSB_ABS => s.advance(2).rmw(s.abs_addr(), Transform::TestAndSet),
        Instruction::TSB_ZP => s.advance(1).rmw(s.zp_addr(), Transform::TestAndSet),
        Instruction::TSX => s.load_x(s.sp),
        Instruction::TXA => s.load_a(s.x),
        Instruction::TXS => CpuState { sp: s.x, ..s },
        Instruction::TYA => s.load_a(s.y),
        Instruction::NOP { byte_size } => s.advance(if byte_size == 0 { 0 } else { byte_size - 1 }),
    }
}

/// Whether instruction `i` leads straight back to its own opcode: a taken
/// branch with offset -2, or a `JMP abs` whose target is the jump itself.
#[verifier::opaque]
pub open spec fn fault(s: CpuState, i: Instruction) -> bool {
    match i {
        Instruction::BBR0 => s.bit_branch_loops(0, false),
        Instruction::BBR1 => s.bit_branch_loops(1, false),
        Instruction::BBR2 => s.bit_branch_loops(2, false),
        Instruction::BBR3 => s.bit_branch_loops(3, false),
        Instruction::BBR4 => s.bit_branch_loops(4, false),
        Instruction::BBR5 => s.bit_branch_loops(5, false),
        Instruction::BBR6 => s.bit_branch_loops(6, false),
        Instruction::BBR7 => s.bit_branch_loops(7, false),
        Instruction::BBS0 => s.bit_branch_loops(0, true),
        Instruction::BBS1 => s.bit_branch_loops(1, true),
        Instruction::BBS2 => s.bit_branch_loops(2, true),
        Instruction::BBS3 => s.bit_branch_loops(3, true),
        Instruction::BBS4 => s.bit_branch_loops(4, true),
        Instruction::BBS5 => s.bit_branch_loops(5, true),
        Instruction::BBS6 => s.bit_branch_loops(6, true),
        Instruction::BBS7 => s.bit_branch_loops(7, true),
        Instruction::BCC => s.branch_loops(!s.c),
        Instruction::BCS => s.branch_loops(s.c),
        Instruction::BEQ => s.branch_loops(s.z),
        Instruction::BMI => s.branch_loops(s.n),
        Instruction::BNE => s.branch_loops(!s.z),
        Instruction::BPL => s.branch_loops(!s.n),
        Instruction::BRA => s.branch_loops(true),
        Instruction::BVC => s.branch_loops(!s.v),
        Instruction::BVS => s.branch_loops(s.v),
        Instruction::JMP_ABS => s.abs_addr() == s.opcode_addr(),
        _ => false,
    }
}

/// The instruction counter after one more instruction; it stops at its
/// largest value rather than wrap.
pub open spec fn counted(count: u32) -> u32 {
    if count == u32::MAX {
        count
    } else {
        (count + 1) as u32
    }
}

/// One step from `s` when its opcode decodes to `i`: the state after and
/// what the step reports. The step carries `i` out; unless `i` loops onto
/// itself, it counts the instruction and reports whether the count has
/// reached `threshold`.
pub open spec fn step(s: CpuState, i: Instruction, threshold: u16) -> (
    CpuState,
    Result<ExecutionFinished, ExecutionError>,
) {
    let after = effect(s.advance(1), i);
    if fault(s.advance(1), i) {
        (after, Err(ExecutionError::InfiniteLoop))
    } else {
        let counted_state = CpuState { count: counted(after.count), ..after };
        (
            counted_state,
            Ok(
                if counted_state.count == threshold as u32 {
                    ExecutionFinished::YES
                } else {
                    ExecutionFinished::NO
                },
            ),
        )
    }
}

} // verus!
