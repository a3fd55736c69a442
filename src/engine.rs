//! The operations of the instruction set, one method each, every one stated
//! against the processor model.
use vstd::prelude::*;

use crate::cpu::CPU;
use crate::instructions::{Dialect, ExecutionError, Transform};
use crate::semantics::signed;
use crate::utils::{combine, combine_spec, from_bcd, to_bcd, wrap8};

verus! {

/// The two's-complement value of a byte.
fn signed_value(v: u8) -> (r: i16)
    ensures
        r == signed(v),
{
    if v >= 0x80 {
        v as i16 - 0x100
    } else {
        v as i16
    }
}

/// Addressing modes: each reads its operand bytes at the program counter.
impl CPU {
    pub(crate) fn load_immediate(&mut self) -> (r: u8)
        requires
            old(self).wf(),
        ensures
            final(self).wf(),
            r == old(self)@.operand(0),
            final(self)@ == old(self)@.advance(1),
    {
        self.fetch()
    }

    pub(crate) fn load_zeropage_impl(&self, zp_offset: u8) -> (r: u8)
        requires
            self.wf(),
        ensures
            r == self@.read(zp_offset as u16),
    {
        self.memory.get(zp_offset, 0, 0)
    }

    pub(crate) fn load_zeropage(&mut self) -> (r: u8)
        requires
            old(self).wf(),
        ensures
            final(self).wf(),
            r == old(self)@.read(old(self)@.zp_addr()),
            final(self)@ == old(self)@.advance(1),
    {
        let zp_offset = self.fetch();
        self.load_zeropage_impl(zp_offset)
    }

    fn zeropage_indexed(zp_offset: u8, index: u8) -> (r: u16)
        ensures
            r == wrap8(zp_offset + index) as u16,
    {
        zp_offset.wrapping_add(index) as u16
    }

    pub(crate) fn load_zeropage_x_impl(&self, zp_offset: u8) -> (r: u8)
        requires
            self.wf(),
        ensures
            r == self@.read(wrap8(zp_offset + self.x) as u16),
    {
        self.memory.get16(Self::zeropage_indexed(zp_offset, self.x))
    }

    pub(crate) fn load_zeropage_x(&mut self) -> (r: u8)
        requires
            old(self).wf(),
        ensures
            final(self).wf(),
            r == old(self)@.read(old(self)@.zpx_addr()),
            final(self)@ == old(self)@.advance(1),
    {
        let zp_offset = self.fetch();
        self.load_zeropage_x_impl(zp_offset)
    }

    pub(crate) fn load_zeropage_y_impl(&self, zp_offset: u8) -> (r: u8)
        requires
            self.wf(),
        ensures
            r == self@.read(wrap8(zp_offset + self.y) as u16),
    {
        self.memory.get16(Self::zeropage_indexed(zp_offset, self.y))
    }

    pub(crate) fn load_zeropage_y(&mut self) -> (r: u8)
        requires
            old(self).wf(),
        ensures
            final(self).wf(),
            r == old(self)@.read(old(self)@.zpy_addr()),
            final(self)@ == old(self)@.advance(1),
    {
        let zp_offset = self.fetch();
        self.load_zeropage_y_impl(zp_offset)
    }

    pub(crate) fn load_absolute_address_impl(&mut self, offset: u8) -> (r: u16)
        requires
            old(self).wf(),
        ensures
            final(self).wf(),
            r == combine_spec(old(self)@.operand(0), old(self)@.operand(1), offset),
            final(self)@ == old(self)@.advance(2),
    {
        let lsb = self.fetch();
        let msb = self.fetch();
        combine(lsb, msb, offset)
    }

    pub(crate) fn load_absolute_address(&mut self) -> (r: u16)
        requires
            old(self).wf(),
        ensures
            final(self).wf(),
            r == old(self)@.abs_addr(),
            final(self)@ == old(self)@.advance(2),
    {
        self.load_absolute_address_impl(0)
    }

    pub(crate) fn load_absolute_x_address(&mut self) -> (r: u16)
        requires
            old(self).wf(),
        ensures
            final(self).wf(),
            r == old(self)@.absx_addr(),
            final(self)@ == old(self)@.advance(2),
    {
        let x = self.x;
        self.load_absolute_address_impl(x)
    }

    pub(crate) fn load_absolute_y_address(&mut self) -> (r: u16)
        requires
            old(self).wf(),
        ensures
            final(self).wf(),
            r == old(self)@.absy_addr(),
            final(self)@ == old(self)@.advance(2),
    {
        let y = self.y;
        self.load_absolute_address_impl(y)
    }

    pub(crate) fn load_absolute(&mut self) -> (r: u8)
        requires
            old(self).wf(),
        ensures
            final(self).wf(),
            r == old(self)@.read(old(self)@.abs_addr()),
            final(self)@ == old(self)@.advance(2),
    {
        let address = self.load_absolute_address();
        self.memory.get16(address)
    }

    pub(crate) fn load_absolute_x(&mut self) -> (r: u8)
        requires
            old(self).wf(),
        ensures
            final(self).wf(),
            r == old(self)@.read(old(self)@.absx_addr()),
            final(self)@ == old(self)@.advance(2),
    {
        let address = self.load_absolute_x_address();
        self.memory.get16(address)
    }

    pub(crate) fn load_absolute_y(&mut self) -> (r: u8)
        requires
            old(self).wf(),
        ensures
            final(self).wf(),
            r == old(self)@.read(old(self)@.absy_addr()),
            final(self)@ == old(self)@.advance(2),
    {
        let address = self.load_absolute_y_address();
        self.memory.get16(address)
    }

    /// Reads a zero-page operand `zp`, then the address stored at
    /// `zp + lsb_offset` and the byte after it (both within zero page), plus
    /// `combine_offset`.
    pub(crate) fn load_indirect_address_impl(&mut self, lsb_offset: u8, combine_offset: u8) -> (r: u16)
        requires
            old(self).wf(),
        ensures
            final(self).wf(),
            r == old(self)@.pointer(wrap8(old(self)@.operand(0) + lsb_offset), combine_offset),
            final(self)@ == old(self)@.advance(1),
    {
        let zp_offset = self.fetch();
        let lsb_address = zp_offset.wrapping_add(lsb_offset);
        let msb_address = lsb_address.wrapping_add(1);
        let lsb = self.memory.get16(lsb_address as u16);
        let msb = self.memory.get16(msb_address as u16);
        combine(lsb, msb, combine_offset)
    }

    pub(crate) fn load_indirect_address(&mut self) -> (r: u16)
        requires
            old(self).wf(),
        ensures
            final(self).wf(),
            r == old(self)@.ind_addr(),
            final(self)@ == old(self)@.advance(1),
    {
        self.load_indirect_address_impl(0, 0)
    }

    pub(crate) fn load_indirect_x_address(&mut self) -> (r: u16)
        requires
            old(self).wf(),
        ensures
            final(self).wf(),
            r == old(self)@.indx_addr(),
            final(self)@ == old(self)@.advance(1),
    {
        let x = self.x;
        self.load_indirect_address_impl(x, 0)
    }

    pub(crate) fn load_indirect_y_address(&mut self) -> (r: u16)
        requires
            old(self).wf(),
        ensures
            final(self).wf(),
            r == old(self)@.indy_addr(),
            final(self)@ == old(self)@.advance(1),
    {
        let y = self.y;
        self.load_indirect_address_impl(0, y)
    }

    pub(crate) fn load_indirect(&mut self) -> (r: u8)
        requires
            old(self).wf(),
        ensures
            final(self).wf(),
            r == old(self)@.read(old(self)@.ind_addr()),
            final(self)@ == old(self)@.advance(1),
    {
        let address = self.load_indirect_address();
        self.memory.get16(address)
    }

    pub(crate) fn load_indirect_x(&mut self) -> (r: u8)
        requires
            old(self).wf(),
        ensures
            final(self).wf(),
            r == old(self)@.read(old(self)@.indx_addr()),
            final(self)@ == old(self)@.advance(1),
    {
        let address = self.load_indirect_x_address();
        self.memory.get16(address)
    }

    pub(crate) fn load_indirect_y(&mut self) -> (r: u8)
        requires
            old(self).wf(),
        ensures
            final(self).wf(),
            r == old(self)@.read(old(self)@.indy_addr()),
            final(self)@ == old(self)@.advance(1),
    {
        let address = self.load_indirect_y_address();
        self.memory.get16(address)
    }
}

/// Stores: each writes a byte to the address its mode gives.
impl CPU {
    pub(crate) fn store_zeropage_impl(&mut self, zp_offset: u8, value: u8)
        requires
            old(self).wf(),
        ensures
            final(self).wf(),
            final(self)@ == old(self)@.write(zp_offset as u16, value),
    {
        self.memory.set(zp_offset, 0, 0, value);
    }

    pub(crate) fn store_zeropage(&mut self, value: u8)
        requires
            old(self).wf(),
        ensures
            final(self).wf(),
            final(self)@ == old(self)@.advance(1).write(old(self)@.zp_addr(), value),
    {
        let zp_offset = self.fetch();
        self.store_zeropage_impl(zp_offset, value);
    }

    pub(crate) fn store_zeropage_x_impl(&mut self, zp_offset: u8, value: u8)
        requires
            old(self).wf(),
        ensures
            final(self).wf(),
            final(self)@ == old(self)@.write(wrap8(zp_offset + old(self).x) as u16, value),
    {
        let address = Self::zeropage_indexed(zp_offset, self.x);
        self.memory.set16(address, value);
    }

    pub(crate) fn store_zeropage_x(&mut self, value: u8)
        requires
            old(self).wf(),
        ensures
            final(self).wf(),
            final(self)@ == old(self)@.advance(1).write(old(self)@.zpx_addr(), value),
    {
        let zp_offset = self.fetch();
        self.store_zeropage_x_impl(zp_offset, value);
    }

    pub(crate) fn store_zeropage_y_impl(&mut self, zp_offset: u8, value: u8)
        requires
            old(self).wf(),
        ensures
            final(self).wf(),
            final(self)@ == old(self)@.write(wrap8(zp_offset + old(self).y) as u16, value),
    {
        let address = Self::zeropage_indexed(zp_offset, self.y);
        self.memory.set16(address, value);
    }

    pub(crate) fn store_zeropage_y(&mut self, value: u8)
        requires
            old(self).wf(),
        ensures
            final(self).wf(),
            final(self)@ == old(self)@.advance(1).write(old(self)@.zpy_addr(), value),
    {
        let zp_offset = self.fetch();
        self.store_zeropage_y_impl(zp_offset, value);
    }

    pub(crate) fn store_absolute(&mut self, value: u8)
        requires
            old(self).wf(),
        ensures
            final(self).wf(),
            final(self)@ == old(self)@.advance(2).write(old(self)@.abs_addr(), value),
    {
        let address = self.load_absolute_address();
        self.memory.set16(address, value);
    }

    pub(crate) fn store_absolute_x(&mut self, value: u8)
        requires
            old(self).wf(),
        ensures
            final(self).wf(),
            final(self)@ == old(self)@.advance(2).write(old(self)@.absx_addr(), value),
    {
        let address = self.load_absolute_x_address();
        self.memory.set16(address, value);
    }

    pub(crate) fn store_absolute_y(&mut self, value: u8)
        requires
            old(self).wf(),
        ensures
            final(self).wf(),
            final(self)@ == old(self)@.advance(2).write(old(self)@.absy_addr(), value),
    {
        let address = self.load_absolute_y_address();
        self.memory.set16(address, value);
    }

    pub(crate) fn store_indirect(&mut self, value: u8)
        requires
            old(self).wf(),
        ensures
            final(self).wf(),
            final(self)@ == old(self)@.advance(1).write(old(self)@.ind_addr(), value),
    {
        let address = self.load_indirect_address();
        self.memory.set16(address, value);
    }

    pub(crate) fn store_indirect_x(&mut self, value: u8)
        requires
            old(self).wf(),
        ensures
            final(self).wf(),
            final(self)@ == old(self)@.advance(1).write(old(self)@.indx_addr(), value),
    {
        let address = self.load_indirect_x_address();
        self.memory.set16(address, value);
    }

    pub(crate) fn store_indirect_y(&mut self, value: u8)
        requires
            old(self).wf(),
        ensures
            final(self).wf(),
            final(self)@ == old(self)@.advance(1).write(old(self)@.indy_addr(), value),
    {
        let address = self.load_indirect_y_address();
        self.memory.set16(address, value);
    }
}

/// Read-modify-write: the address is computed once, read, transformed, and
/// written back.
impl CPU {
    fn read_modify_write(&mut self, address: u16, transform: Transform)
        requires
            old(self).wf(),
            transform.wf(),
        ensures
            final(self).wf(),
            final(self)@ == old(self)@.rmw(address, transform),
    {
        let value = self.memory.get16(address);
        let result = self.apply_transform(transform, value);
        self.memory.set16(address, result);
    }

    pub(crate) fn load_store_absolute(&mut self, transform: Transform)
        requires
            old(self).wf(),
            transform.wf(),
        ensures
            final(self).wf(),
            final(self)@ == old(self)@.advance(2).rmw(old(self)@.abs_addr(), transform),
    {
        let address = self.load_absolute_address();
        self.read_modify_write(address, transform);
    }

    pub(crate) fn load_store_absolute_x(&mut self, transform: Transform)
        requires
            old(self).wf(),
            transform.wf(),
        ensures
            final(self).wf(),
            final(self)@ == old(self)@.advance(2).rmw(old(self)@.absx_addr(), transform),
    {
        let address = self.load_absolute_x_address();
        self.read_modify_write(address, transform);
    }

    pub(crate) fn load_store_zeropage(&mut self, transform: Transform)
        requires
            old(self).wf(),
            transform.wf(),
        ensures
            final(self).wf(),
            final(self)@ == old(self)@.advance(1).rmw(old(self)@.zp_addr(), transform),
    {
        let zp_offset = self.fetch();
        self.read_modify_write(zp_offset as u16, transform);
    }

    pub(crate) fn load_store_zeropage_x(&mut self, transform: Transform)
        requires
            old(self).wf(),
            transform.wf(),
        ensures
            final(self).wf(),
            final(self)@ == old(self)@.advance(1).rmw(old(self)@.zpx_addr(), transform),
    {
        let zp_offset = self.fetch();
        let address = Self::zeropage_indexed(zp_offset, self.x);
        self.read_modify_write(address, transform);
    }

    /// Applies `transform` to `value`, setting the flags it sets.
    pub(crate) fn apply_transform(&mut self, transform: Transform, value: u8) -> (r: u8)
        requires
            transform.wf(),
        ensures
            (final(self)@, r) == old(self)@.transform(transform, value),
            final(self).memory == old(self).memory,
            final(self).sp == old(self).sp,
    {
        match transform {
            Transform::Asl => self.asl(value),
            Transform::Lsr => self.lsr(value),
            Transform::Rol => self.rol(value),
            Transform::Ror => self.ror(value),
            Transform::Inc => self.inc(value),
            Transform::Dec => self.dec(value),
            Transform::ResetBit(k) => Self::reset_bit(value, k),
            Transform::SetBit(k) => Self::set_bit(value, k),
            Transform::TestAndReset => self.test_and_reset_bit(value),
            Transform::TestAndSet => self.test_and_set_bit(value),
        }
    }

    fn asl(&mut self, value: u8) -> (r: u8)
        ensures
            (final(self)@, r) == old(self)@.transform(Transform::Asl, value),
            final(self).memory == old(self).memory,
            final(self).sp == old(self).sp,
    {
        self.c = value >= 0x80;
        let new_value = ((value as u16 * 2) % 256) as u8;
        self.set_status(new_value);
        new_value
    }

    fn lsr(&mut self, value: u8) -> (r: u8)
        ensures
            (final(self)@, r) == old(self)@.transform(Transform::Lsr, value),
            final(self).memory == old(self).memory,
            final(self).sp == old(self).sp,
    {
        self.c = value % 2 == 1;
        let new_value = value / 2;
        self.set_status(new_value);
        new_value
    }

    fn rol(&mut self, value: u8) -> (r: u8)
        ensures
            (final(self)@, r) == old(self)@.transform(Transform::Rol, value),
            final(self).memory == old(self).memory,
            final(self).sp == old(self).sp,
    {
        let carry: u16 = if self.c { 1 } else { 0 };
        self.c = value >= 0x80;
        let new_value = ((value as u16 * 2 + carry) % 256) as u8;
        self.set_status(new_value);
        new_value
    }

    fn ror(&mut self, value: u8) -> (r: u8)
        ensures
            (final(self)@, r) == old(self)@.transform(Transform::Ror, value),
            final(self).memory == old(self).memory,
            final(self).sp == old(self).sp,
    {
        let carry: u8 = if self.c { 0x80 } else { 0 };
        self.c = value % 2 == 1;
        let new_value = value / 2 + carry;
        self.set_status(new_value);
        new_value
    }

    fn inc(&mut self, value: u8) -> (r: u8)
        ensures
            (final(self)@, r) == old(self)@.transform(Transform::Inc, value),
            final(self).memory == old(self).memory,
            final(self).sp == old(self).sp,
    {
        let new_value = value.wrapping_add(1);
        self.set_status(new_value);
        new_value
    }

    fn dec(&mut self, value: u8) -> (r: u8)
        ensures
            (final(self)@, r) == old(self)@.transform(Transform::Dec, value),
            final(self).memory == old(self).memory,
            final(self).sp == old(self).sp,
    {
        let new_value = value.wrapping_sub(1);
        self.set_status(new_value);
        new_value
    }

    fn reset_bit(value: u8, bit_index: u8) -> (r: u8)
        requires
            bit_index < 8,
        ensures
            r == value & !(1u8 << bit_index),
    {
        value & !(1u8 << bit_index)
    }

    fn set_bit(value: u8, bit_index: u8) -> (r: u8)
        requires
            bit_index < 8,
        ensures
            r == value | (1u8 << bit_index),
    {
        value | (1u8 << bit_index)
    }

    fn test_and_reset_bit(&mut self, value: u8) -> (r: u8)
        ensures
            (final(self)@, r) == old(self)@.transform(Transform::TestAndReset, value),
            final(self).memory == old(self).memory,
            final(self).sp == old(self).sp,
    {
        self.z = self.a & value == 0;
        value & !self.a
    }

    fn test_and_set_bit(&mut self, value: u8) -> (r: u8)
        ensures
            (final(self)@, r) == old(self)@.transform(Transform::TestAndSet, value),
            final(self).memory == old(self).memory,
            final(self).sp == old(self).sp,
    {
        self.z = self.a & value == 0;
        value | self.a
    }
}

/// Flag updates, loads and arithmetic.
impl CPU {
    /// `N` from bit 7 of `value`, `Z` from whether it is zero.
    pub(crate) fn set_status(&mut self, value: u8)
        ensures
            final(self)@ == old(self)@.with_nz(value),
            final(self).memory == old(self).memory,
            final(self).sp == old(self).sp,
    {
        self.n = value >= 0x80;
        self.z = value == 0;
    }

    pub(crate) fn set_a(&mut self, value: u8)
        ensures
            final(self)@ == old(self)@.load_a(value),
            final(self).memory == old(self).memory,
            final(self).sp == old(self).sp,
    {
        self.a = value;
        self.set_status(value);
    }

    pub(crate) fn set_x(&mut self, value: u8)
        ensures
            final(self)@ == old(self)@.load_x(value),
            final(self).memory == old(self).memory,
            final(self).sp == old(self).sp,
    {
        self.x = value;
        self.set_status(value);
    }

    pub(crate) fn set_y(&mut self, value: u8)
        ensures
            final(self)@ == old(self)@.load_y(value),
            final(self).memory == old(self).memory,
            final(self).sp == old(self).sp,
    {
        self.y = value;
        self.set_status(value);
    }

    pub(crate) fn and(&mut self, value: u8)
        ensures
            final(self)@ == old(self)@.and(value),
            final(self).memory == old(self).memory,
            final(self).sp == old(self).sp,
    {
        let result = self.a & value;
        self.set_a(result);
    }

    pub(crate) fn inclusive_or(&mut self, value: u8)
        ensures
            final(self)@ == old(self)@.ora(value),
            final(self).memory == old(self).memory,
            final(self).sp == old(self).sp,
    {
        let result = self.a | value;
        self.set_a(result);
    }

    pub(crate) fn exclusive_or(&mut self, value: u8)
        ensures
            final(self)@ == old(self)@.eor(value),
            final(self).memory == old(self).memory,
            final(self).sp == old(self).sp,
    {
        let result = self.a ^ value;
        self.set_a(result);
    }

    /// BIT: `Z` from `A & value`; with `set_nv`, `N` and `V` from bits 7 and 6
    /// of `value`.
    pub(crate) fn test_bit(&mut self, value: u8, set_nv: bool)
        ensures
            final(self)@ == if set_nv {
                old(self)@.bit(value)
            } else {
                old(self)@.bit_imm(value)
            },
            final(self).memory == old(self).memory,
            final(self).sp == old(self).sp,
    {
        self.z = self.a & value == 0;
        if set_nv {
            self.n = value & 0x80 != 0;
            self.v = value & 0x40 != 0;
        }
    }

    /// Compares `register` with `value` without changing the register.
    pub(crate) fn compare(&mut self, register: u8, value: u8)
        ensures
            final(self)@ == old(self)@.compare(register, value),
            final(self).memory == old(self).memory,
            final(self).sp == old(self).sp,
    {
        self.c = register >= value;
        self.set_status(register.wrapping_sub(value));
    }

    /// Writes an arithmetic result to `A` with its flags.
    fn add_sub(&mut self, t: i16, result: u8, carry: bool)
        ensures
            final(self)@ == old(self)@.arith(t as int, result, carry),
            final(self).memory == old(self).memory,
            final(self).sp == old(self).sp,
    {
        self.a = result;
        self.v = t != signed_value(result);
        self.c = carry;
        self.set_status(result);
    }

    pub(crate) fn add_with_carry(&mut self, summand: u8)
        ensures
            final(self)@ == old(self)@.adc(summand),
            final(self).memory == old(self).memory,
            final(self).sp == old(self).sp,
    {
        let carry: u8 = if self.c { 1 } else { 0 };
        if self.d {
            let t: u16 = from_bcd(self.a) as u16 + from_bcd(summand) as u16 + carry as u16;
            let reduced: u8 = (t % 100) as u8;
            let result = to_bcd(reduced);
            assert(t as int == (t as i16) as int);
            self.add_sub(t as i16, result, t >= 100);
        } else {
            let t: i16 = signed_value(self.a) + signed_value(summand) + carry as i16;
            let result = self.a.wrapping_add(summand).wrapping_add(carry);
            assert(result == wrap8(self.a + summand + carry));
            let carry_out = self.a as u16 + summand as u16 + carry as u16 >= 0x100;
            self.add_sub(t, result, carry_out);
        }
    }

    pub(crate) fn subtract_with_borrow(&mut self, subtrahend: u8)
        ensures
            final(self)@ == old(self)@.sbc(subtrahend),
            final(self).memory == old(self).memory,
            final(self).sp == old(self).sp,
    {
        if self.d {
            self.subtract_decimal(subtrahend);
        } else {
            self.subtract_binary(subtrahend);
        }
    }

    fn subtract_decimal(&mut self, subtrahend: u8)
        requires
            old(self).d,
        ensures
            final(self)@ == old(self)@.sbc(subtrahend),
            final(self).memory == old(self).memory,
            final(self).sp == old(self).sp,
    {
        let borrow: u8 = if self.c { 0 } else { 1 };
        let t: i16 = from_bcd(self.a) as i16 - from_bcd(subtrahend) as i16 - borrow as i16;
        let reduced: u8 = ((t + 200) % 100) as u8;
        assert(reduced as int == (t as int) % 100) by {
            assert((t as int + 200) % 100 == (t as int) % 100) by (nonlinear_arith)
                requires
                    -200 <= t,
            ;
        }
        let result = to_bcd(reduced);
        self.add_sub(t, result, t >= 0);
    }

    fn subtract_binary(&mut self, subtrahend: u8)
        requires
            !old(self).d,
        ensures
            final(self)@ == old(self)@.sbc(subtrahend),
            final(self).memory == old(self).memory,
            final(self).sp == old(self).sp,
    {
        let borrow: u8 = if self.c { 0 } else { 1 };
        let t: i16 = signed_value(self.a) - signed_value(subtrahend) - borrow as i16;
        let result = self.a.wrapping_sub(subtrahend).wrapping_sub(borrow);
        assert(result == wrap8(self.a - subtrahend - borrow));
        let carry_out = self.a as u16 >= subtrahend as u16 + borrow as u16;
        self.add_sub(t, result, carry_out);
    }
}

/// Branches, jumps, subroutines and interrupts.
impl CPU {
    /// Reads a signed offset and, if `taken`, adds it to the program counter.
    /// A taken branch onto its own opcode is reported as an infinite loop.
    pub(crate) fn branch(&mut self, taken: bool) -> (r: Result<(), ExecutionError>)
        requires
            old(self).wf(),
        ensures
            final(self).wf(),
            final(self)@ == old(self)@.branch(taken),
            match r {
                Ok(_) => !old(self)@.branch_loops(taken),
                Err(e) => old(self)@.branch_loops(taken) && e == ExecutionError::InfiniteLoop,
            },
    {
        let address_offset = self.load_immediate();
        if taken {
            self.pc = if address_offset >= 0x80 {
                self.pc.wrapping_sub(0x100 - address_offset as u16)
            } else {
                self.pc.wrapping_add(address_offset as u16)
            };
            if address_offset == 0xFE {
                return Err(ExecutionError::InfiniteLoop);
            }
        }
        Ok(())
    }

    /// BBR: branches if bit `bit_index` of a zero-page byte is clear.
    pub(crate) fn branch_if_bit_reset(&mut self, bit_index: u8) -> (r: Result<(), ExecutionError>)
        requires
            old(self).wf(),
            bit_index < 8,
        ensures
            final(self).wf(),
            final(self)@ == old(self)@.bit_branch(bit_index, false),
            match r {
                Ok(_) => !old(self)@.bit_branch_loops(bit_index, false),
                Err(e) => old(self)@.bit_branch_loops(bit_index, false) && e
                    == ExecutionError::InfiniteLoop,
            },
    {
        let value = self.load_zeropage();
        let taken = value & (1u8 << bit_index) == 0;
        self.branch(taken)
    }

    /// BBS: branches if bit `bit_index` of a zero-page byte is set.
    pub(crate) fn branch_if_bit_set(&mut self, bit_index: u8) -> (r: Result<(), ExecutionError>)
        requires
            old(self).wf(),
            bit_index < 8,
        ensures
            final(self).wf(),
            final(self)@ == old(self)@.bit_branch(bit_index, true),
            match r {
                Ok(_) => !old(self)@.bit_branch_loops(bit_index, true),
                Err(e) => old(self)@.bit_branch_loops(bit_index, true) && e
                    == ExecutionError::InfiniteLoop,
            },
    {
        let value = self.load_zeropage();
        let taken = value & (1u8 << bit_index) != 0;
        self.branch(taken)
    }

    /// JMP abs; a jump onto its own opcode is reported as an infinite loop.
    pub(crate) fn jump_absolute(&mut self) -> (r: Result<(), ExecutionError>)
        requires
            old(self).wf(),
        ensures
            final(self).wf(),
            final(self)@ == old(self)@.jump(old(self)@.abs_addr()),
            match r {
                Ok(_) => old(self)@.abs_addr() != old(self)@.opcode_addr(),
                Err(e) => old(self)@.abs_addr() == old(self)@.opcode_addr() && e
                    == ExecutionError::InfiniteLoop,
            },
    {
        let opcode_address = self.pc.wrapping_sub(1);
        let new_pc = self.load_absolute_address();
        self.pc = new_pc;
        if new_pc == opcode_address {
            return Err(ExecutionError::InfiniteLoop);
        }
        Ok(())
    }

    /// JMP (abs,X): jumps to the address stored at the absolute operand plus
    /// `X`.
    pub(crate) fn jump_absolute_x(&mut self)
        requires
            old(self).wf(),
        ensures
            final(self).wf(),
            final(self)@ == old(self)@.jump(old(self)@.absx_target()),
    {
        let lsb_address = self.load_absolute_x_address();
        let msb_address = lsb_address.wrapping_add(1);
        let lsb = self.memory.get16(lsb_address);
        let msb = self.memory.get16(msb_address);
        self.pc = combine(lsb, msb, 0);
    }

    /// JMP (abs).
    pub(crate) fn jump_indirect(&mut self)
        requires
            old(self).wf(),
        ensures
            final(self).wf(),
            final(self)@ == old(self)@.jump(old(self)@.ind_target()),
    {
        let lsb = self.fetch();
        let msb = self.fetch();
        let new_lsb = self.memory.get(lsb, msb, 0);
        let new_msb = self.memory.get(lsb, msb, 1);
        self.pc = combine(new_lsb, new_msb, 0);
    }

    pub(crate) fn jump_to_subroutine(&mut self)
        requires
            old(self).wf(),
        ensures
            final(self).wf(),
            final(self)@ == old(self)@.jsr(),
    {
        let lsb = self.fetch();
        let msb = self.fetch();
        let target_pc = self.pc.wrapping_sub(1);
        self.push((target_pc / 256) as u8);
        self.push((target_pc % 256) as u8);
        self.pc = combine(lsb, msb, 0);
    }

    pub(crate) fn return_from_subroutine(&mut self)
        requires
            old(self).wf(),
        ensures
            final(self).wf(),
            final(self)@ == old(self)@.rts(),
    {
        let lsb = self.pull();
        let msb = self.pull();
        self.pc = combine(lsb, msb, 1);
    }

    pub(crate) fn return_from_interrupt(&mut self)
        requires
            old(self).wf(),
        ensures
            final(self).wf(),
            final(self)@ == old(self)@.rti(),
    {
        let new_sr = self.pull();
        self.set_sr(new_sr);
        let lsb = self.pull();
        let msb = self.pull();
        self.pc = combine(lsb, msb, 0);
    }

    pub(crate) fn break_to_vector(&mut self)
        requires
            old(self).wf(),
        ensures
            final(self).wf(),
            final(self)@ == old(self)@.brk(),
    {
        self.fetch();
        let target_pc = self.pc;
        self.push((target_pc / 256) as u8);
        self.b = true;
        self.push((target_pc % 256) as u8);
        let sr = self.get_sr();
        self.push(sr);
        self.i = true;
        if self.dialect == Dialect::Cmos {
            self.d = false;
        }
        let lsb = self.memory.get16(0xFFFE);
        let msb = self.memory.get16(0xFFFF);
        self.pc = combine(lsb, msb, 0);
    }

    /// PHP: pushes the status with `B` set in the pushed byte only.
    pub(crate) fn push_status(&mut self)
        requires
            old(self).wf(),
        ensures
            final(self).wf(),
            final(self)@ == old(self)@.php(),
    {
        let old_b = self.b;
        self.b = true;
        let sr = self.get_sr();
        self.push(sr);
        self.b = old_b;
    }

    /// PLP: pulls the status, keeping `B`.
    pub(crate) fn pull_status(&mut self)
        requires
            old(self).wf(),
        ensures
            final(self).wf(),
            final(self)@ == old(self)@.plp(),
    {
        let old_b = self.b;
        let pulled = self.pull();
        self.set_sr(pulled);
        self.b = old_b;
    }
}

} // verus!
