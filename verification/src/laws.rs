//! The laws the interpreter obeys, stated over the abstract machine and
//! proved once and for all: the arithmetic and flag identities of ADC, SBC
//! and CMP, the zero-page wrap of indexed addressing, the indirect-JMP page
//! bug, and the round trips through the stack (push/pop, JSR/RTS, PHP/PLP).
use vstd::prelude::*;
use crate::state::{
    adc_overflow, adc_res, adc_sum, adc_tr, adv_tr, carry_val, cmp_tr, flag_get, flag_set,
    jmp_ind_tr, jsr_tr, mread, mwrite, php_tr, plp_tr, pop1_tr, pop_val, push_tr, rts_tr, sbc_tr,
    st_wf, stack_addr, word, CpuState, FLAG_C, FLAG_N, FLAG_V, FLAG_Z,
};
use crate::mmap::phys;

verus! {

proof fn lemma_flag_chain4(p: u8, c: bool, v: bool, z: bool, n: bool)
    by (bit_vector)
    ensures
        ({
            let q = flag_set(flag_set(flag_set(flag_set(p, FLAG_C, c), FLAG_V, v), FLAG_Z, z), FLAG_N, n);
            &&& flag_get(q, FLAG_C) == c
            &&& flag_get(q, FLAG_V) == v
            &&& flag_get(q, FLAG_Z) == z
            &&& flag_get(q, FLAG_N) == n
        }),
{
}

/// The ADC contract in one place: the accumulator becomes the nine-bit sum
/// reduced modulo 256; carry says the sum overflowed eight bits; overflow
/// is the signed-disagreement bit; zero and negative follow the result;
/// nothing else of the state moves.
pub proof fn lemma_adc_flags(s: CpuState, m: u8)
    ensures
        adc_tr(s, m).a == ((s.a + m + carry_val(s.p)) % 0x100) as u8,
        flag_get(adc_tr(s, m).p, FLAG_C) == (s.a + m + carry_val(s.p) > 0xFF),
        flag_get(adc_tr(s, m).p, FLAG_V) == ((s.a ^ adc_tr(s, m).a) & (m ^ adc_tr(s, m).a) & 0x80
            != 0),
        flag_get(adc_tr(s, m).p, FLAG_Z) == (adc_tr(s, m).a == 0),
        flag_get(adc_tr(s, m).p, FLAG_N) == (adc_tr(s, m).a & 0x80 != 0),
        adc_tr(s, m).x == s.x && adc_tr(s, m).y == s.y && adc_tr(s, m).sp == s.sp && adc_tr(
            s,
            m,
        ).pc == s.pc && adc_tr(s, m).ram == s.ram,
{
    let c = carry_val(s.p);
    let r = adc_res(s.a, m, c);
    lemma_flag_chain4(
        s.p,
        adc_sum(s.a, m, c) > 0xFF,
        adc_overflow(s.a, m, r),
        r == 0,
        r & 0x80 != 0,
    );
}

/// SBC is exactly ADC of the complemented operand, result and flags alike.
pub proof fn lemma_sbc_matches_adc_of_complement(s: CpuState, m: u8)
    ensures
        sbc_tr(s, m) == adc_tr(s, !m),
{
}

/// CMP leaves the accumulator alone; carry says the accumulator is not
/// below the operand, zero says they are equal, negative follows bit 7 of
/// the wrapped difference.
pub proof fn lemma_cmp_flags(s: CpuState, m: u8)
    ensures
        cmp_tr(s, m).a == s.a,
        flag_get(cmp_tr(s, m).p, FLAG_C) == (s.a >= m),
        flag_get(cmp_tr(s, m).p, FLAG_Z) == (s.a == m),
        flag_get(cmp_tr(s, m).p, FLAG_N) == (s.a.wrapping_sub(m) & 0x80 != 0),
        cmp_tr(s, m).x == s.x && cmp_tr(s, m).y == s.y && cmp_tr(s, m).sp == s.sp && cmp_tr(
            s,
            m,
        ).pc == s.pc && cmp_tr(s, m).ram == s.ram,
{
    lemma_cmp_chain(s.p, s.a >= m, s.a == m, s.a.wrapping_sub(m) & 0x80 != 0);
}

proof fn lemma_cmp_chain(p: u8, c: bool, z: bool, n: bool)
    by (bit_vector)
    ensures
        ({
            let q = flag_set(flag_set(flag_set(p, FLAG_C, c), FLAG_Z, z), FLAG_N, n);
            &&& flag_get(q, FLAG_C) == c
            &&& flag_get(q, FLAG_Z) == z
            &&& flag_get(q, FLAG_N) == n
        }),
{
}

/// Zero-page indexed addressing wraps within the zero page: the cell a
/// base and an index reach is their sum modulo 256, never a page-1 cell.
pub proof fn lemma_zero_page_index_wraps(b: u8, x: u8)
    ensures
        b.wrapping_add(x) == ((b + x) % 0x100) as u8,
        x.wrapping_add(b) == ((b + x) % 0x100) as u8,
{
}

/// The indirect-JMP page bug: a pointer whose low byte is 0xFF takes its
/// high byte from the start of its own page, not from the next address.
pub proof fn lemma_jmp_indirect_page_bug(s: CpuState, ptr: u16)
    requires
        ptr & 0x00FF == 0x00FF,
    ensures
        jmp_ind_tr(s, ptr).pc == word(mread(s.ram, ptr), mread(s.ram, ptr & 0xFF00)),
{
}

/// The physical cell behind a stack slot: page 1 is below the mirror
/// boundary, so the mapping is one-to-one there.
proof fn lemma_phys_stack(sp: u8)
    ensures
        phys(stack_addr(sp)) == 0x100 + sp,
{
}

proof fn lemma_word_split(w: u16)
    by (bit_vector)
    ensures
        ((w & 0xFF) as u8 as u16) | (((w >> 8) as u8 as u16) << 8) == w,
{
}

/// JSR then RTS is a net no-op on PC but for stepping past the three-byte
/// call, and a net no-op on SP and the registers; both transformers are
/// taken as the step function applies them, with PC already advanced.
pub proof fn lemma_jsr_rts(s: CpuState, target: u16)
    requires
        st_wf(s),
    ensures
        jsr_tr(adv_tr(s, 3), target).pc == target,
        rts_tr(adv_tr(jsr_tr(adv_tr(s, 3), target), 1)).pc == s.pc.wrapping_add(3),
        rts_tr(adv_tr(jsr_tr(adv_tr(s, 3), target), 1)).sp == s.sp,
        rts_tr(adv_tr(jsr_tr(adv_tr(s, 3), target), 1)).a == s.a,
        rts_tr(adv_tr(jsr_tr(adv_tr(s, 3), target), 1)).x == s.x,
        rts_tr(adv_tr(jsr_tr(adv_tr(s, 3), target), 1)).y == s.y,
        rts_tr(adv_tr(jsr_tr(adv_tr(s, 3), target), 1)).p == s.p,
{
    let ret = s.pc.wrapping_add(3).wrapping_sub(1);
    lemma_phys_stack(s.sp);
    lemma_phys_stack(s.sp.wrapping_sub(1));
    lemma_word_split(ret);
    assert(s.sp != s.sp.wrapping_sub(1));
    assert(s.sp.wrapping_sub(1).wrapping_add(1) == s.sp);
    assert(s.sp.wrapping_sub(2).wrapping_add(1) == s.sp.wrapping_sub(1));
    assert(ret.wrapping_add(1) == s.pc.wrapping_add(3));
}

/// PHP then PLP: every flag bit other than the pushed B bit and bit 5 is
/// restored, and bit 5 reads as 1 afterwards; under the status-byte
/// invariant that is the whole status byte restored. SP returns to its
/// starting value and only the one stack slot is written.
pub proof fn lemma_php_plp(s: CpuState)
    requires
        st_wf(s),
    ensures
        plp_tr(adv_tr(php_tr(adv_tr(s, 1)), 1)).p & 0xCF == s.p & 0xCF,
        plp_tr(adv_tr(php_tr(adv_tr(s, 1)), 1)).p & 0x20 == 0x20,
        plp_tr(adv_tr(php_tr(adv_tr(s, 1)), 1)).p == s.p,
        plp_tr(adv_tr(php_tr(adv_tr(s, 1)), 1)).sp == s.sp,
        plp_tr(adv_tr(php_tr(adv_tr(s, 1)), 1)).ram == mwrite(s.ram, stack_addr(s.sp), s.p | 0x30),
{
    lemma_phys_stack(s.sp);
    assert(s.sp.wrapping_sub(1).wrapping_add(1) == s.sp);
    let p = s.p;
    assert((((p | 0x30) & 0xCF) | 0x20) == p && (((p | 0x30) & 0xCF) | 0x20) & 0xCF == p & 0xCF
        && (((p | 0x30) & 0xCF) | 0x20) & 0x20 == 0x20) by (bit_vector)
        requires
            p & 0x30 == 0x20,
    ;
}

// ---- the stack round trip ----

/// Push the bytes in order: the first element is pushed first.
pub open spec fn push_seq(s: CpuState, bytes: Seq<u8>) -> CpuState
    decreases bytes.len(),
{
    if bytes.len() == 0 {
        s
    } else {
        push_tr(push_seq(s, bytes.drop_last()), bytes.last())
    }
}

/// Pop n times, collecting the bytes in pop order.
pub open spec fn pop_seq(s: CpuState, n: nat) -> (CpuState, Seq<u8>)
    decreases n,
{
    if n == 0 {
        (s, Seq::empty())
    } else {
        let rest = pop_seq(pop1_tr(s), (n - 1) as nat);
        (rest.0, seq![pop_val(s)] + rest.1)
    }
}

proof fn lemma_pop_seq(s: CpuState, n: nat)
    requires
        st_wf(s),
    ensures
        st_wf(pop_seq(s, n).0),
        pop_seq(s, n).0 == (CpuState { sp: ((s.sp + n) % 0x100) as u8, ..s }),
        pop_seq(s, n).1.len() == n,
        forall|i: int|
            0 <= i < n ==> pop_seq(s, n).1[i] == mread(
                s.ram,
                stack_addr(((s.sp + i + 1) % 0x100) as u8),
            ),
    decreases n,
{
    if n > 0 {
        lemma_pop_seq(pop1_tr(s), (n - 1) as nat);
        let t = pop1_tr(s);
        assert(t.sp == ((s.sp + 1) % 0x100) as u8);
        assert forall|i: int| 0 <= i < n implies pop_seq(s, n).1[i] == mread(
            s.ram,
            stack_addr(((s.sp + i + 1) % 0x100) as u8),
        ) by {
            if i > 0 {
                assert(pop_seq(s, n).1[i] == pop_seq(t, (n - 1) as nat).1[i - 1]);
                assert((t.sp + (i - 1) + 1) % 0x100 == (s.sp + i + 1) % 0x100);
            }
        }
        assert((t.sp + (n - 1)) % 0x100 == (s.sp + n) % 0x100);
    }
}

proof fn lemma_slot_distinct(sp: u8, k1: int, k2: int)
    requires
        0 <= k1 < 0x100,
        0 <= k2 < 0x100,
        k1 != k2,
    ensures
        ((sp - k1) % 0x100) as u8 != ((sp - k2) % 0x100) as u8,
{
    let a = sp - k1;
    let b = sp - k2;
    assert(a % 0x100 == if a >= 0 { a } else { a + 0x100 });
    assert(b % 0x100 == if b >= 0 { b } else { b + 0x100 });
}

proof fn lemma_push_seq(s: CpuState, bytes: Seq<u8>)
    requires
        st_wf(s),
        bytes.len() <= 0x100,
    ensures
        st_wf(push_seq(s, bytes)),
        push_seq(s, bytes).sp == ((s.sp - bytes.len()) % 0x100) as u8,
        push_seq(s, bytes).pc == s.pc && push_seq(s, bytes).a == s.a && push_seq(s, bytes).x
            == s.x && push_seq(s, bytes).y == s.y && push_seq(s, bytes).p == s.p,
        push_seq(s, bytes).ram.len() == s.ram.len(),
        forall|j: int|
            0 <= j < bytes.len() ==> mread(
                push_seq(s, bytes).ram,
                stack_addr(((s.sp - j) % 0x100) as u8),
            ) == bytes[j],
    decreases bytes.len(),
{
    if bytes.len() > 0 {
        let front = bytes.drop_last();
        let t = push_seq(s, front);
        lemma_push_seq(s, front);
        let len = bytes.len();
        let last_slot: u8 = ((s.sp - (len - 1)) % 0x100) as u8;
        assert(t.sp == last_slot);
        lemma_phys_stack(t.sp);
        assert forall|j: int|
            0 <= j < bytes.len() implies mread(
            push_seq(s, bytes).ram,
            stack_addr(((s.sp - j) % 0x100) as u8),
        ) == bytes[j] by {
            let slot: u8 = ((s.sp - j) % 0x100) as u8;
            lemma_phys_stack(slot);
            if j < len - 1 {
                lemma_slot_distinct(s.sp, j, len - 1);
                assert(slot != last_slot);
                assert(mread(push_seq(s, bytes).ram, stack_addr(slot)) == mread(
                    t.ram,
                    stack_addr(slot),
                ));
                assert(mread(t.ram, stack_addr(slot)) == front[j]);
            } else {
                assert(mread(push_seq(s, bytes).ram, stack_addr(last_slot)) == bytes.last());
            }
        }
    }
}

/// The stack round trip: push up to 256 bytes, pop as many, and the bytes
/// come back in reverse order while SP and every register return to their
/// starting values.
#[verifier::rlimit(60)]
pub proof fn lemma_stack_roundtrip(s: CpuState, bytes: Seq<u8>)
    requires
        st_wf(s),
        bytes.len() <= 0x100,
    ensures
        pop_seq(push_seq(s, bytes), bytes.len()).1 == bytes.reverse(),
        pop_seq(push_seq(s, bytes), bytes.len()).0.sp == s.sp,
        pop_seq(push_seq(s, bytes), bytes.len()).0.pc == s.pc,
        pop_seq(push_seq(s, bytes), bytes.len()).0.a == s.a,
        pop_seq(push_seq(s, bytes), bytes.len()).0.x == s.x,
        pop_seq(push_seq(s, bytes), bytes.len()).0.y == s.y,
        pop_seq(push_seq(s, bytes), bytes.len()).0.p == s.p,
{
    let n = bytes.len();
    let t = push_seq(s, bytes);
    lemma_push_seq(s, bytes);
    lemma_pop_seq(t, n);
    assert(t.sp == ((s.sp - n) % 0x100) as u8);
    lemma_mod_shift(s.sp - n, n as int);
    assert((t.sp + n) % 0x100 == (s.sp as int) % 0x100);
    assert(((s.sp as int) % 0x100) as u8 == s.sp);
    let popped = pop_seq(t, n).1;
    assert forall|i: int| 0 <= i < n implies popped[i] == bytes.reverse()[i] by {
        assert(popped[i] == mread(t.ram, stack_addr(((t.sp + i + 1) % 0x100) as u8)));
        lemma_mod_shift(s.sp - n, i + 1);
        assert((t.sp + i + 1) % 0x100 == (s.sp - (n - 1 - i)) % 0x100);
        assert(mread(t.ram, stack_addr(((s.sp - (n - 1 - i)) % 0x100) as u8)) == bytes[n - 1 - i]);
    }
    assert(popped =~= bytes.reverse());
}

/// Shifting a residue before or after reduction makes no difference.
proof fn lemma_mod_shift(a: int, b: int)
    requires
        0 <= b,
    ensures
        (a % 0x100 + b) % 0x100 == (a + b) % 0x100,
{
    vstd::arithmetic::div_mod::lemma_add_mod_noop(a, b, 0x100);
    vstd::arithmetic::div_mod::lemma_add_mod_noop(a % 0x100, b, 0x100);
    vstd::arithmetic::div_mod::lemma_mod_twice(a, 0x100);
}

} // verus!
