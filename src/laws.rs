//! Properties of the instruction set that hold for every input, proved over
//! the processor model.
use vstd::prelude::*;

use crate::cpu::{pack_status, CpuState};
use crate::instructions::Instruction;
use crate::semantics::{effect, fault, step};
use crate::utils::{combine_spec, from_bcd_spec, to_bcd_spec, wrap16, wrap8};

verus! {

proof fn lemma_pack_of_unpacked(p: u8)
    by (bit_vector)
    ensures
        pack_status(
            p & 0x80 != 0,
            p & 0x40 != 0,
            p & 0x10 != 0,
            p & 0x08 != 0,
            p & 0x04 != 0,
            p & 0x02 != 0,
            p & 0x01 != 0,
        ) == p | 0x20,
{
}

/// Unpacking a status byte and packing the flags again gives the byte with
/// bit 5 set; unpacking that once more gives the same flags.
pub proof fn lemma_status_round_trip(s: CpuState, p: u8)
    ensures
        s.with_status(p).status() == p | 0x20,
        s.with_status(s.with_status(p).status()) == s.with_status(p),
{
    lemma_pack_of_unpacked(p);
    let q = p | 0x20;
    assert(q & 0x80 == p & 0x80 && q & 0x40 == p & 0x40 && q & 0x10 == p & 0x10 && q & 0x08
        == p & 0x08 && q & 0x04 == p & 0x04 && q & 0x02 == p & 0x02 && q & 0x01 == p & 0x01)
        by (bit_vector)
        requires
            q == p | 0x20,
    ;
}

/// After `LDA #v`, `A` is `v`, `N` is bit 7 of `v`, and `Z` tells whether
/// `v` is zero.
pub proof fn lemma_load_immediate_flags(s: CpuState, threshold: u16)
    ensures
        ({
            let v = s.operand(1);
            let t = step(s, Instruction::LDA_IMM, threshold).0;
            t.a == v && t.n == (v & 0x80 != 0) && t.z == (v == 0)
        }),
{
    reveal(effect);
    reveal(fault);
    let v = s.operand(1);
    assert((v >= 0x80) == (v & 0x80 != 0)) by (bit_vector);
}

/// In binary mode, `LDA #m; CLC; ADC #n` leaves `(m + n) mod 256` in `A`
/// and sets `C` exactly when `m + n` reaches 256.
pub proof fn lemma_binary_add(s: CpuState, threshold: u16)
    requires
        !s.d,
    ensures
        ({
            let m = s.operand(1);
            let n = s.advance(3).operand(1);
            let s1 = step(s, Instruction::LDA_IMM, threshold).0;
            let s2 = step(s1, Instruction::CLC, threshold).0;
            let s3 = step(s2, Instruction::ADC_IMM, threshold).0;
            s3.a == (m + n) % 256 && s3.c == (m + n >= 256)
        }),
{
    reveal(effect);
    reveal(fault);
}

/// In decimal mode with no carry in, `ADC #n` leaves in `A` the packed
/// decimal sum of `A` and `n`, modulo 100.
pub proof fn lemma_decimal_add(s: CpuState, threshold: u16)
    requires
        s.d,
        !s.c,
    ensures
        ({
            let n = s.operand(1);
            let t = step(s, Instruction::ADC_IMM, threshold).0;
            t.a == to_bcd_spec(((from_bcd_spec(s.a) + from_bcd_spec(n)) % 100) as u8)
        }),
{
    reveal(effect);
    reveal(fault);
}

/// The state after pushing each byte of `vs` in turn.
pub open spec fn push_all(s: CpuState, vs: Seq<u8>) -> CpuState
    decreases vs.len(),
{
    if vs.len() == 0 {
        s
    } else {
        push_all(s, vs.drop_last()).push(vs.last())
    }
}

/// The state after `k` pulls, and the bytes pulled, in order.
pub open spec fn pull_all(s: CpuState, k: nat) -> (CpuState, Seq<u8>)
    decreases k,
{
    if k == 0 {
        (s, seq![])
    } else {
        let (t, vs) = pull_all(s, (k - 1) as nat);
        (t.after_pull(), vs.push(t.pulled()))
    }
}

proof fn lemma_push_all(s: CpuState, vs: Seq<u8>)
    requires
        s.mem.len() == 0x10000,
        vs.len() <= 256,
    ensures
        push_all(s, vs).mem.len() == 0x10000,
        push_all(s, vs).sp == wrap8(s.sp - vs.len()),
        forall|k: int|
            0 <= k < vs.len() ==> push_all(s, vs).mem[0x100 + wrap8(s.sp - k)] == #[trigger] vs[k],
    decreases vs.len(),
{
    if vs.len() > 0 {
        let rest = vs.drop_last();
        lemma_push_all(s, rest);
        let t = push_all(s, rest);
        assert forall|k: int| 0 <= k < vs.len() implies push_all(s, vs).mem[0x100 + wrap8(
            s.sp - k,
        )] == #[trigger] vs[k] by {
            if k < rest.len() {
                assert(rest[k] == vs[k]);
                assert(wrap8(s.sp - k) != wrap8(s.sp - rest.len()));
            }
        }
    }
}

proof fn lemma_pull_all(s: CpuState, k: nat)
    ensures
        pull_all(s, k).0.mem == s.mem,
        pull_all(s, k).0.sp == wrap8(s.sp + k),
        pull_all(s, k).1.len() == k,
        forall|j: int|
            0 <= j < k ==> #[trigger] pull_all(s, k).1[j] == s.mem[0x100 + wrap8(s.sp + j + 1)],
    decreases k,
{
    if k > 0 {
        lemma_pull_all(s, (k - 1) as nat);
        let (t, vs) = pull_all(s, (k - 1) as nat);
        assert(wrap8(t.sp + 1) == wrap8(s.sp + k));
        assert forall|j: int| 0 <= j < k implies #[trigger] pull_all(s, k).1[j] == s.mem[0x100
            + wrap8(s.sp + j + 1)] by {
            if j < k - 1 {
                assert(pull_all(s, k).1[j] == vs[j]);
            }
        }
    }
}

proof fn lemma_wrap8_offsets(sp: u8, len: int, j: int)
    requires
        0 <= j < len <= 256,
    ensures
        wrap8(wrap8(sp - len) + j + 1) == wrap8(sp - (len - 1 - j)),
        wrap8(wrap8(sp - len) + len) == sp,
{
}

/// Pushing up to 256 bytes and pulling as many gives them back in reverse
/// order and returns the stack pointer to where it was.
pub proof fn lemma_push_pull_round_trip(s: CpuState, vs: Seq<u8>)
    requires
        s.mem.len() == 0x10000,
        vs.len() <= 256,
    ensures
        pull_all(push_all(s, vs), vs.len()).1 == vs.reverse(),
        pull_all(push_all(s, vs), vs.len()).0.sp == s.sp,
{
    lemma_push_all(s, vs);
    let t = push_all(s, vs);
    let len = vs.len();
    assert(t.sp == wrap8(s.sp - len));
    lemma_pull_all(t, len);
    let pulled = pull_all(t, len).1;
    assert(pulled.len() == len);
    assert forall|j: int| 0 <= j < len implies #[trigger] pulled[j] == vs.reverse()[j] by {
        let k = len - 1 - j;
        assert(pulled[j] == t.mem[0x100 + wrap8(t.sp + j + 1)]);
        lemma_wrap8_offsets(s.sp, len as int, j);
        assert(t.mem[0x100 + wrap8(s.sp - k)] == vs[k]);
        assert(vs.reverse()[j] == vs[k]);
    }
    assert(pulled =~= vs.reverse());
    if len > 0 {
        lemma_wrap8_offsets(s.sp, len as int, 0);
    }
}

#[verifier::rlimit(30)]
proof fn lemma_jsr_pushes(s: CpuState, threshold: u16)
    requires
        s.mem.len() == 0x10000,
    ensures
        ({
            let j = step(s, Instruction::JSR, threshold).0;
            let ret = wrap16(s.pc + 2);
            &&& j.sp == wrap8(s.sp - 2)
            &&& j.mem[0x100 + wrap8(s.sp - 1)] == (ret % 256) as u8
            &&& j.mem[0x100 + s.sp] == (ret / 256) as u8
        }),
{
    let s1 = s.advance(1);
    assert(effect(s1, Instruction::JSR) == s1.jsr() && !fault(s1, Instruction::JSR)) by {
        reveal(effect);
        reveal(fault);
    }
    let ret = wrap16(s.pc + 2);
    let s2 = s1.advance(2);
    assert(wrap16(s2.pc - 1) == ret);
    let hi_pushed = s2.push((ret / 256) as u8);
    let both_pushed = hi_pushed.push((ret % 256) as u8);
    assert(s1.jsr() == both_pushed.jump(s.advance(1).abs_addr()));
    assert(hi_pushed.sp == wrap8(s.sp - 1));
    assert(both_pushed.sp == wrap8(s.sp - 2));
    assert(wrap8(s.sp - 1) != s.sp);
    assert(both_pushed.mem[0x100 + wrap8(s.sp - 1)] == (ret % 256) as u8);
    assert(both_pushed.mem[0x100 + s.sp] == (ret / 256) as u8);
}

proof fn lemma_rts_pulls(t: CpuState, threshold: u16)
    ensures
        ({
            let r = step(t, Instruction::RTS, threshold).0;
            &&& r.pc == combine_spec(
                t.mem[0x100 + wrap8(t.sp + 1)],
                t.mem[0x100 + wrap8(t.sp + 2)],
                1,
            )
            &&& r.sp == wrap8(t.sp + 2)
        }),
{
    let t1 = t.advance(1);
    assert(effect(t1, Instruction::RTS) == t1.rts() && !fault(t1, Instruction::RTS)) by {
        reveal(effect);
        reveal(fault);
    }
    assert(wrap8(wrap8(t.sp + 1) + 1) == wrap8(t.sp + 2));
}

/// `JSR target` followed, after anything that leaves the stack pointer and
/// the two bytes JSR pushed as they were, by `RTS` continues at the
/// instruction after the three-byte JSR, with the stack pointer back where
/// it was before the call.
pub proof fn lemma_jsr_rts_round_trip(s: CpuState, t: CpuState, threshold: u16)
    requires
        s.mem.len() == 0x10000,
        t.sp == step(s, Instruction::JSR, threshold).0.sp,
        t.mem[0x100 + wrap8(t.sp + 1)] == step(s, Instruction::JSR, threshold).0.mem[0x100 + wrap8(
            t.sp + 1,
        )],
        t.mem[0x100 + wrap8(t.sp + 2)] == step(s, Instruction::JSR, threshold).0.mem[0x100 + wrap8(
            t.sp + 2,
        )],
    ensures
        step(t, Instruction::RTS, threshold).0.pc == wrap16(s.pc + 3),
        step(t, Instruction::RTS, threshold).0.sp == s.sp,
{
    lemma_jsr_pushes(s, threshold);
    lemma_rts_pulls(t, threshold);
    assert(wrap8(wrap8(s.sp - 2) + 1) == wrap8(s.sp - 1));
    assert(wrap8(wrap8(s.sp - 2) + 2) == s.sp);
    let ret = wrap16(s.pc + 2);
    assert(((ret / 256) as u8) as int * 256 + ((ret % 256) as u8) as int == ret);
}

/// `ROL A` then `ROR A`, the carry passed on between them, gives back the
/// original accumulator and the original carry.
pub proof fn lemma_rotate_round_trip(s: CpuState, threshold: u16)
    ensures
        ({
            let s1 = step(s, Instruction::ROL_ACC, threshold).0;
            let s2 = step(s1, Instruction::ROR_ACC, threshold).0;
            s2.a == s.a && s2.c == s.c
        }),
{
    reveal(effect);
    reveal(fault);
}

/// `BIT` on a memory operand `m`: `N` is bit 7 of `m`, `V` bit 6, `Z` tells
/// whether `A & m` is zero, and `A` is unchanged.
pub proof fn lemma_bit_test(s: CpuState, threshold: u16)
    ensures
        ({
            let m = s.read(s.advance(1).zp_addr());
            let t = step(s, Instruction::BIT_ZP, threshold).0;
            t.n == (m & 0x80 != 0) && t.v == (m & 0x40 != 0) && t.z == (s.a & m == 0) && t.a == s.a
        }),
        ({
            let m = s.read(s.advance(1).abs_addr());
            let t = step(s, Instruction::BIT_ABS, threshold).0;
            t.n == (m & 0x80 != 0) && t.v == (m & 0x40 != 0) && t.z == (s.a & m == 0) && t.a == s.a
        }),
{
    reveal(effect);
    reveal(fault);
}

/// `LDX #v; TXS` sets the stack pointer to `v`; `TXS` leaves every flag as
/// `LDX` set it.
pub proof fn lemma_transfer_to_stack_pointer(s: CpuState, threshold: u16)
    ensures
        ({
            let v = s.operand(1);
            let s1 = step(s, Instruction::LDX_IMM, threshold).0;
            let s2 = step(s1, Instruction::TXS, threshold).0;
            s2.sp == v && s2.n == s1.n && s2.v == s1.v && s2.b == s1.b && s2.d == s1.d && s2.i
                == s1.i && s2.z == s1.z && s2.c == s1.c
        }),
{
    reveal(effect);
    reveal(fault);
}

} // verus!
