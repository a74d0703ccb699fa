use vstd::prelude::*;
use crate::bus::{Bus, next_in_page, word};
use crate::opcodes::{AddressingMode, Opcode, lookup_opcode, opcode_table};

verus! {

// Bits of the status register.
pub const CARRY: u8 = 0b0000_0001;
pub const ZERO: u8 = 0b0000_0010;
pub const INTERRUPT: u8 = 0b0000_0100;
pub const DECIMAL: u8 = 0b0000_1000;
pub const OVERFLOW: u8 = 0b0100_0000;
pub const NEGATIVE: u8 = 0b1000_0000;

/// The status byte `p` with the bits of `mask` set when `value` holds, cleared otherwise.
pub open spec fn with_flag(p: u8, mask: u8, value: bool) -> u8 {
    if value {
        p | mask
    } else {
        p & !mask
    }
}

/// The status byte `p` with Z and N set from `result`: Z when it is zero, N when its sign
/// bit is set.
pub open spec fn zn_flags(p: u8, result: u8) -> u8 {
    with_flag(with_flag(p, ZERO, result == 0), NEGATIVE, result >= 0x80)
}

/// Whether `result` has a sign bit that differs from those of both `a` and `m`: the
/// overflow rule for signed addition.
pub open spec fn signed_overflow(result: u8, a: u8, m: u8) -> bool {
    (result >= 0x80) != (a >= 0x80) && (result >= 0x80) != (m >= 0x80)
}

/// The status byte after an addition with carry whose 9-bit sum is `result`, with the
/// accumulator holding `a` before the operation and `memory` the operand.
pub open spec fn adc_flags(p: u8, a: u8, result: u16, memory: u8) -> u8 {
    let r = (result % 256) as u8;
    with_flag(
        with_flag(zn_flags(p, r), CARRY, result > 0xFF),
        OVERFLOW,
        signed_overflow(r, a, memory),
    )
}

/// The status byte after a subtraction with borrow whose signed difference is `result`,
/// with the accumulator holding `a` before the operation and `memory` the operand.
pub open spec fn sbc_flags(p: u8, a: u8, result: i16, memory: u8) -> u8 {
    let r = (result % 256) as u8;
    with_flag(
        with_flag(zn_flags(p, r), CARRY, result >= 0),
        OVERFLOW,
        signed_overflow(r, a, (255 - memory) as u8),
    )
}

/// Whether `mask` is the bit of one of the six status flags.
pub open spec fn is_flag(mask: u8) -> bool {
    mask == CARRY || mask == ZERO || mask == INTERRUPT || mask == DECIMAL || mask == OVERFLOW
        || mask == NEGATIVE
}

/// Setting a status flag sets or clears exactly its bit and keeps the others, so the flag's
/// getter then reports the value that was set.
pub proof fn lemma_flag_bits(p: u8, mask: u8, value: bool)
    requires
        is_flag(mask),
    ensures
        (with_flag(p, mask, value) & mask != 0) == value,
        with_flag(p, mask, value) & !mask == p & !mask,
{
    let f = with_flag(p, mask, value);
    assert((f & mask != 0) == value && f & !mask == p & !mask) by (bit_vector)
        requires
            f == with_flag(p, mask, value),
            mask == CARRY || mask == ZERO || mask == INTERRUPT || mask == DECIMAL || mask == OVERFLOW
                || mask == NEGATIVE,
    ;
}

/// Setting two different status flags gives the same status byte in either order.
pub proof fn lemma_flag_setters_commute(p: u8, m1: u8, v1: bool, m2: u8, v2: bool)
    requires
        is_flag(m1),
        is_flag(m2),
        m1 != m2,
    ensures
        with_flag(with_flag(p, m1, v1), m2, v2) == with_flag(with_flag(p, m2, v2), m1, v1),
{
    let a = with_flag(with_flag(p, m1, v1), m2, v2);
    let b = with_flag(with_flag(p, m2, v2), m1, v1);
    assert(a == b) by (bit_vector)
        requires
            a == with_flag(with_flag(p, m1, v1), m2, v2),
            b == with_flag(with_flag(p, m2, v2), m1, v1),
            m1 == CARRY || m1 == ZERO || m1 == INTERRUPT || m1 == DECIMAL || m1 == OVERFLOW
                || m1 == NEGATIVE,
            m2 == CARRY || m2 == ZERO || m2 == INTERRUPT || m2 == DECIMAL || m2 == OVERFLOW
                || m2 == NEGATIVE,
            m1 != m2,
    ;
}

/// 1 when `b` holds, 0 otherwise.
pub open spec fn bit_value(b: bool) -> u8 {
    if b {
        1
    } else {
        0
    }
}

/// The status byte whose six flags are `c`, `z`, `i`, `d`, `v`, `n` and whose bits 4 and 5
/// are clear.
pub open spec fn status_of(c: bool, z: bool, i: bool, d: bool, v: bool, n: bool) -> u8 {
    (bit_value(c) + bit_value(z) * 2 + bit_value(i) * 4 + bit_value(d) * 8 + bit_value(v) * 0x40
        + bit_value(n) * 0x80) as u8
}

/// The value that flag `mask` is given when the six flags are set to `c`, `z`, `i`, `d`,
/// `v`, `n`.
pub open spec fn flag_value(mask: u8, c: bool, z: bool, i: bool, d: bool, v: bool, n: bool) -> bool {
    if mask == CARRY {
        c
    } else if mask == ZERO {
        z
    } else if mask == INTERRUPT {
        i
    } else if mask == DECIMAL {
        d
    } else if mask == OVERFLOW {
        v
    } else {
        n
    }
}

/// The status byte after the flag setters are called on `p` in the order `order` (a sequence
/// of flag masks), each flag being given its value among `c`, `z`, `i`, `d`, `v`, `n`.
pub open spec fn set_flags_in_order(
    p: u8,
    order: Seq<u8>,
    c: bool,
    z: bool,
    i: bool,
    d: bool,
    v: bool,
    n: bool,
) -> u8
    decreases order.len(),
{
    if order.len() == 0 {
        p
    } else {
        with_flag(
            set_flags_in_order(p, order.drop_last(), c, z, i, d, v, n),
            order.last(),
            flag_value(order.last(), c, z, i, d, v, n),
        )
    }
}

/// Whether `order` lists each of the six flag masks exactly once.
pub open spec fn is_flag_order(order: Seq<u8>) -> bool {
    &&& forall|k: int| 0 <= k < order.len() ==> is_flag(#[trigger] order[k])
    &&& forall|k: int, l: int| 0 <= k < l < order.len() ==> order[k] != order[l]
    &&& forall|m: u8| is_flag(m) ==> order.contains(m)
}

proof fn lemma_with_flag_bit(x: u8, mask: u8, value: bool, m: u8)
    requires
        is_flag(mask),
        is_flag(m),
    ensures
        with_flag(x, mask, value) & m == if m == mask {
            if value {
                m
            } else {
                0
            }
        } else {
            x & m
        },
        with_flag(x, mask, value) & 0x30 == x & 0x30,
{
    let f = with_flag(x, mask, value);
    assert(f & m == (if m == mask {
        if value {
            m
        } else {
            0
        }
    } else {
        x & m
    }) && f & 0x30 == x & 0x30) by (bit_vector)
        requires
            f == with_flag(x, mask, value),
            mask == 1 || mask == 2 || mask == 4 || mask == 8 || mask == 0x40 || mask == 0x80,
            m == 1 || m == 2 || m == 4 || m == 8 || m == 0x40 || m == 0x80,
    ;
}

proof fn lemma_set_flags_bits(
    p: u8,
    order: Seq<u8>,
    c: bool,
    z: bool,
    i: bool,
    d: bool,
    v: bool,
    n: bool,
    m: u8,
)
    requires
        forall|k: int| 0 <= k < order.len() ==> is_flag(#[trigger] order[k]),
        is_flag(m),
    ensures
        set_flags_in_order(p, order, c, z, i, d, v, n) & m == if order.contains(m) {
            if flag_value(m, c, z, i, d, v, n) {
                m
            } else {
                0
            }
        } else {
            p & m
        },
        set_flags_in_order(p, order, c, z, i, d, v, n) & 0x30 == p & 0x30,
    decreases order.len(),
{
    if order.len() > 0 {
        let rest = order.drop_last();
        lemma_set_flags_bits(p, rest, c, z, i, d, v, n, m);
        let x = set_flags_in_order(p, rest, c, z, i, d, v, n);
        lemma_with_flag_bit(x, order.last(), flag_value(order.last(), c, z, i, d, v, n), m);
        assert(order.contains(m) == (rest.contains(m) || order.last() == m)) by {
            if order.contains(m) {
                let k = choose|k: int| 0 <= k < order.len() && order[k] == m;
                if k < order.len() - 1 {
                    assert(rest[k] == m);
                }
            }
            if rest.contains(m) {
                let k = choose|k: int| 0 <= k < rest.len() && rest[k] == m;
                assert(order[k] == m);
            }
            if order.last() == m {
                assert(order[order.len() - 1] == m);
            }
        }
    }
}

/// Calling the six flag setters on a cleared status register, in any order, gives the byte
/// with exactly the bits of the flags that were set.
pub proof fn lemma_status_any_order(
    order: Seq<u8>,
    c: bool,
    z: bool,
    i: bool,
    d: bool,
    v: bool,
    n: bool,
)
    requires
        is_flag_order(order),
    ensures
        set_flags_in_order(0, order, c, z, i, d, v, n) == status_of(c, z, i, d, v, n),
{
    let x = set_flags_in_order(0, order, c, z, i, d, v, n);
    assert(is_flag(CARRY) && is_flag(ZERO) && is_flag(INTERRUPT) && is_flag(DECIMAL) && is_flag(
        OVERFLOW,
    ) && is_flag(NEGATIVE));
    assert(order.contains(CARRY) && order.contains(ZERO) && order.contains(INTERRUPT)
        && order.contains(DECIMAL) && order.contains(OVERFLOW) && order.contains(NEGATIVE));
    lemma_set_flags_bits(0, order, c, z, i, d, v, n, CARRY);
    lemma_set_flags_bits(0, order, c, z, i, d, v, n, ZERO);
    lemma_set_flags_bits(0, order, c, z, i, d, v, n, INTERRUPT);
    lemma_set_flags_bits(0, order, c, z, i, d, v, n, DECIMAL);
    lemma_set_flags_bits(0, order, c, z, i, d, v, n, OVERFLOW);
    lemma_set_flags_bits(0, order, c, z, i, d, v, n, NEGATIVE);
    let bc = bit_value(c);
    let bz = bit_value(z);
    let bi = bit_value(i);
    let bd = bit_value(d);
    let bv = bit_value(v);
    let bn = bit_value(n);
    assert(x == (bc + bz * 2 + bi * 4 + bd * 8 + bv * 0x40 + bn * 0x80) as u8) by (bit_vector)
        requires
            bc <= 1 && bz <= 1 && bi <= 1 && bd <= 1 && bv <= 1 && bn <= 1,
            x & 1 == bc,
            x & 2 == bz * 2,
            x & 4 == bi * 4,
            x & 8 == bd * 8,
            x & 0x30 == 0u8 & 0x30,
            x & 0x40 == bv * 0x40,
            x & 0x80 == bn * 0x80,
    ;
}

/// Exclusive-or with the same byte twice, as two EORs with one operand do, gives back the
/// accumulator; the status then has Z and N from that accumulator and its other bits as
/// before.
pub proof fn lemma_eor_twice(cpu: Cpu, value: u8)
    ensures
        ({
            let r = cpu.a ^ value;
            let once = cpu.with_a(r).with_p(zn_flags(cpu.p, r));
            let r2 = once.a ^ value;
            once.with_a(r2).with_p(zn_flags(once.p, r2)) == cpu.with_p(zn_flags(cpu.p, cpu.a))
        }),
{
    let a = cpu.a;
    let p = cpu.p;
    let r = a ^ value;
    let q = zn_flags(p, r);
    let q2 = zn_flags(q, a);
    let q1 = zn_flags(p, a);
    assert(r ^ value == a && q2 == q1) by (bit_vector)
        requires
            r == a ^ value,
            q == zn_flags(p, r),
            q2 == zn_flags(q, a),
            q1 == zn_flags(p, a),
    ;
}

/// Rotating the accumulator left through the carry and then right through the carry, as
/// ROL A then ROR A do, gives back the accumulator and the carry flag.
pub proof fn lemma_rol_ror_accumulator(cpu: Cpu)
    ensures
        ({
            let r = shift_left(cpu.a, cpu.carry_in());
            let after_rol = cpu.with_a(r).with_p(
                zn_flags(with_flag(cpu.p, CARRY, cpu.a >= 0x80), r),
            );
            let back = shift_right(r, after_rol.carry_in());
            let p = zn_flags(with_flag(after_rol.p, CARRY, r % 2 == 1), back);
            back == cpu.a && p & CARRY == cpu.p & CARRY
        }),
{
    let a = cpu.a;
    let p0 = cpu.p;
    let c0 = cpu.carry_in();
    let r = shift_left(a, c0);
    let p1 = zn_flags(with_flag(p0, CARRY, a >= 0x80), r);
    let c1: u8 = if p1 & CARRY != 0 { 1 } else { 0 };
    let back = shift_right(r, c1);
    let p2 = zn_flags(with_flag(p1, CARRY, r % 2 == 1), back);
    assert(p1 & CARRY == (if a >= 0x80 { 1u8 } else { 0u8 })) by (bit_vector)
        requires
            p1 == zn_flags(with_flag(p0, CARRY, a >= 0x80), r),
    ;
    lemma_shift_left_bits(a, c0);
    assert(r % 2 == c0 && r / 2 == a % 128) by (bit_vector)
        requires
            c0 <= 1,
            r == (a << 1) | c0,
    ;
    assert(p2 & CARRY == c0) by (bit_vector)
        requires
            c0 <= 1,
            r % 2 == c0,
            p2 == zn_flags(with_flag(p1, CARRY, r % 2 == 1), back),
    ;
    lemma_shift_right_bits(r, c1);
    assert(back == a) by (bit_vector)
        requires
            c1 == (if a >= 0x80 { 1u8 } else { 0u8 }),
            r / 2 == a % 128,
            back == (r >> 1) | (c1 << 7),
    ;
    assert(c0 == p0 & CARRY) by (bit_vector)
        requires
            c0 == (if p0 & CARRY != 0 { 1u8 } else { 0u8 }),
    ;
}

/// Z and N after a result: Z (bit 1) is set exactly when the result is zero, N (bit 7)
/// exactly when bit 7 of the result is set, and every other status bit stays.
pub proof fn lemma_zn_flags(p: u8, result: u8)
    ensures
        (zn_flags(p, result) & ZERO != 0) == (result == 0),
        (zn_flags(p, result) & NEGATIVE != 0) == (result & 0x80 != 0),
        zn_flags(p, result) & 0x7D == p & 0x7D,
{
    let f = zn_flags(p, result);
    assert((f & ZERO != 0) == (result == 0) && (f & NEGATIVE != 0) == (result & 0x80 != 0) && f
        & 0x7D == p & 0x7D) by (bit_vector)
        requires
            f == zn_flags(p, result),
    ;
}

/// A shift left by one moves bit 7 out and the incoming bit into bit 0; a shift right
/// moves bit 0 out and the incoming bit into bit 7.
pub proof fn lemma_shifts(v: u8, bit_in: u8)
    requires
        bit_in <= 1,
    ensures
        shift_left(v, bit_in) % 2 == bit_in,
        shift_left(v, bit_in) / 2 == v % 128,
        shift_right(v, bit_in) / 128 == bit_in,
        shift_right(v, bit_in) % 128 == v / 2,
{
}

/// `b` read as a two's-complement signed byte.
pub open spec fn signed(b: u8) -> int {
    if b >= 0x80 {
        b - 256
    } else {
        b as int
    }
}

/// ADC sets C exactly when the unsigned sum does not fit in a byte, and V exactly when the
/// signed sum does not fit in a signed byte.
pub proof fn lemma_adc_carry_overflow(a: u8, m: u8, carry: u8)
    requires
        carry <= 1,
    ensures
        ({
            let sum = (a + m + carry) as u16;
            let p = adc_flags(0, a, sum, m);
            &&& (p & CARRY != 0) == (a + m + carry > 255)
            &&& (p & OVERFLOW != 0) == !(-128 <= signed(a) + signed(m) + carry <= 127)
            &&& (sum % 256) as u8 as int == (a + m + carry) % 256
        }),
{
    let sum = (a + m + carry) as u16;
    let r = (sum % 256) as u8;
    let p = adc_flags(0, a, sum, m);
    assert((p & CARRY != 0) == (sum > 0xFF) && (p & OVERFLOW != 0) == signed_overflow(r, a, m))
        by (bit_vector)
        requires
            p == adc_flags(0, a, sum, m),
            r == (sum % 256) as u8,
    ;
}

/// SBC clears C exactly when the subtraction borrows, and sets V exactly when the signed
/// difference does not fit in a signed byte.
pub proof fn lemma_sbc_carry_overflow(a: u8, m: u8, borrow: u8)
    requires
        borrow <= 1,
    ensures
        ({
            let diff = (a - m - borrow) as i16;
            let p = sbc_flags(0, a, diff, m);
            &&& (p & CARRY != 0) == (a - m - borrow >= 0)
            &&& (p & OVERFLOW != 0) == !(-128 <= signed(a) - signed(m) - borrow <= 127)
        }),
{
    let diff = (a - m - borrow) as i16;
    let r = (diff % 256) as u8;
    let p = sbc_flags(0, a, diff, m);
    let nm = (255 - m) as u8;
    assert((p & CARRY != 0) == (diff >= 0) && (p & OVERFLOW != 0) == signed_overflow(r, a, nm))
        by (bit_vector)
        requires
            p == sbc_flags(0, a, diff, m),
            r == (diff % 256) as u8,
            nm == (255 - m) as u8,
    ;
}

/// What an addressing mode resolves to.
#[derive(Clone, Copy, Debug, PartialEq, Eq, Structural)]
pub enum Operand {
    Address(u16),
    Relative(i8),
    Accumulator,
    Implied,
}

/// The registers of the 6502.
pub struct Cpu {
    pub a: u8,
    pub x: u8,
    pub y: u8,
    pub pc: u16,
    pub sp: u8,
    pub p: u8,
}

/// The word at `address` and the address after it (wrapping at the top of memory).
pub open spec fn peek16<B: Bus>(bus: B, address: u16) -> u16 {
    word(bus.peek(address), bus.peek(address.wrapping_add(1)))
}

/// Whether the word at `address` and the address after it can be read.
pub open spec fn readable16<B: Bus>(bus: B, address: u16) -> bool {
    bus.readable(address) && bus.readable(address.wrapping_add(1))
}

/// The word at `address` whose high byte comes from the next address in the same page, as
/// the pointer of an indirect jump is read.
pub open spec fn peek16_in_page<B: Bus>(bus: B, address: u16) -> u16 {
    word(bus.peek(address), bus.peek(next_in_page(address)))
}

/// Whether the in-page word at `address` can be read.
pub open spec fn readable16_in_page<B: Bus>(bus: B, address: u16) -> bool {
    bus.readable(address) && bus.readable(next_in_page(address))
}

/// The word at zero-page address `address`, its high byte from the next zero-page address.
pub open spec fn peek16_zp<B: Bus>(bus: B, address: u8) -> u16 {
    word(bus.peek(address as u16), bus.peek(address.wrapping_add(1) as u16))
}

/// Whether the zero-page word at `address` can be read.
pub open spec fn readable16_zp<B: Bus>(bus: B, address: u8) -> bool {
    bus.readable(address as u16) && bus.readable(address.wrapping_add(1) as u16)
}

/// Number of operand bytes that follow an opcode in addressing mode `mode`.
pub open spec fn operand_length(mode: AddressingMode) -> u16 {
    match mode {
        AddressingMode::Implicit | AddressingMode::Accumulator => 0,
        AddressingMode::Absolute | AddressingMode::AbsoluteX | AddressingMode::AbsoluteY
        | AddressingMode::Indirect => 2,
        _ => 1,
    }
}

/// Whether every read that resolving the operand in mode `mode` makes is defined, with the
/// operand bytes at `cpu.pc`.
pub open spec fn operand_readable<B: Bus>(cpu: Cpu, bus: B, mode: AddressingMode) -> bool {
    match mode {
        AddressingMode::Implicit | AddressingMode::Accumulator | AddressingMode::Immediate => true,
        AddressingMode::ZeroPage | AddressingMode::ZeroPageX | AddressingMode::ZeroPageY
        | AddressingMode::Relative => bus.readable(cpu.pc),
        AddressingMode::Absolute | AddressingMode::AbsoluteX | AddressingMode::AbsoluteY => readable16(
            bus,
            cpu.pc,
        ),
        AddressingMode::Indirect => readable16(bus, cpu.pc) && readable16_in_page(
            bus,
            peek16(bus, cpu.pc),
        ),
        AddressingMode::IndirectX => bus.readable(cpu.pc) && readable16_zp(
            bus,
            bus.peek(cpu.pc).wrapping_add(cpu.x),
        ),
        AddressingMode::IndirectY => bus.readable(cpu.pc) && readable16_zp(bus, bus.peek(cpu.pc)),
    }
}

/// The operand that mode `mode` resolves to, with the operand bytes at `cpu.pc`.
pub open spec fn operand_of<B: Bus>(cpu: Cpu, bus: B, mode: AddressingMode) -> Operand {
    match mode {
        AddressingMode::Implicit => Operand::Implied,
        AddressingMode::Accumulator => Operand::Accumulator,
        AddressingMode::Immediate => Operand::Address(cpu.pc),
        AddressingMode::ZeroPage => Operand::Address(bus.peek(cpu.pc) as u16),
        AddressingMode::ZeroPageX => Operand::Address(bus.peek(cpu.pc).wrapping_add(cpu.x) as u16),
        AddressingMode::ZeroPageY => Operand::Address(bus.peek(cpu.pc).wrapping_add(cpu.y) as u16),
        AddressingMode::Relative => Operand::Relative(bus.peek(cpu.pc) as i8),
        AddressingMode::Absolute => Operand::Address(peek16(bus, cpu.pc)),
        AddressingMode::AbsoluteX => Operand::Address(
            peek16(bus, cpu.pc).wrapping_add(cpu.x as u16),
        ),
        AddressingMode::AbsoluteY => Operand::Address(
            peek16(bus, cpu.pc).wrapping_add(cpu.y as u16),
        ),
        AddressingMode::Indirect => Operand::Address(peek16_in_page(bus, peek16(bus, cpu.pc))),
        AddressingMode::IndirectX => Operand::Address(
            peek16_zp(bus, bus.peek(cpu.pc).wrapping_add(cpu.x)),
        ),
        AddressingMode::IndirectY => Operand::Address(
            peek16_zp(bus, bus.peek(cpu.pc)).wrapping_add(cpu.y as u16),
        ),
    }
}

/// Where the zero-page and absolute modes point, in plain arithmetic: zero-page indexing
/// wraps within the zero page, absolute indexing at the top of memory, and a branch offset
/// is a signed byte.
pub proof fn lemma_direct_operands<B: Bus>(cpu: Cpu, bus: B)
    ensures
        ({
            let b = bus.peek(cpu.pc);
            let abs = b + bus.peek(((cpu.pc + 1) % 0x10000) as u16) * 256;
            &&& operand_of(cpu, bus, AddressingMode::Immediate) == Operand::Address(cpu.pc)
            &&& operand_of(cpu, bus, AddressingMode::ZeroPage) == Operand::Address(b as u16)
            &&& operand_of(cpu, bus, AddressingMode::ZeroPageX) == Operand::Address(
                ((b + cpu.x) % 256) as u16,
            )
            &&& operand_of(cpu, bus, AddressingMode::ZeroPageY) == Operand::Address(
                ((b + cpu.y) % 256) as u16,
            )
            &&& operand_of(cpu, bus, AddressingMode::Absolute) == Operand::Address(abs as u16)
            &&& operand_of(cpu, bus, AddressingMode::AbsoluteX) == Operand::Address(
                ((abs + cpu.x) % 0x10000) as u16,
            )
            &&& operand_of(cpu, bus, AddressingMode::AbsoluteY) == Operand::Address(
                ((abs + cpu.y) % 0x10000) as u16,
            )
            &&& operand_of(cpu, bus, AddressingMode::Relative) == Operand::Relative(signed(b) as i8)
        }),
{
    let b = bus.peek(cpu.pc);
    assert((b as i8) as int == signed(b)) by (bit_vector);
    let h = bus.peek(cpu.pc.wrapping_add(1));
    assert(cpu.pc.wrapping_add(1) == ((cpu.pc + 1) % 0x10000) as u16);
    assert(word(b, h) == (b + h * 256) as u16);
}

/// Where the pointer modes point: the (zp,X) and (zp),Y pointers are read from the zero page,
/// their high byte wrapping to 0x00; (zp),Y adds Y to the pointer; a JMP pointer takes its
/// high byte from its own page.
pub proof fn lemma_pointer_operands<B: Bus>(cpu: Cpu, bus: B)
    ensures
        ({
            let b = bus.peek(cpu.pc);
            let z = (b + cpu.x) % 256;
            let p = b + bus.peek(((cpu.pc + 1) % 0x10000) as u16) * 256;
            &&& operand_of(cpu, bus, AddressingMode::IndirectX) == Operand::Address(
                (bus.peek(z as u16) + bus.peek(((z + 1) % 256) as u16) * 256) as u16,
            )
            &&& operand_of(cpu, bus, AddressingMode::IndirectY) == Operand::Address(
                ((bus.peek(b as u16) + bus.peek(((b + 1) % 256) as u16) * 256 + cpu.y)
                    % 0x10000) as u16,
            )
            &&& operand_of(cpu, bus, AddressingMode::Indirect) == Operand::Address(
                (bus.peek(p as u16) + bus.peek((p - p % 256 + (p % 256 + 1) % 256) as u16)
                    * 256) as u16,
            )
        }),
{
    let b = bus.peek(cpu.pc);
    let h = bus.peek(cpu.pc.wrapping_add(1));
    assert(cpu.pc.wrapping_add(1) == ((cpu.pc + 1) % 0x10000) as u16);
    let z = b.wrapping_add(cpu.x);
    assert(z == (b + cpu.x) % 256);
    assert(z.wrapping_add(1) == (z + 1) % 256);
    assert(b.wrapping_add(1) == (b + 1) % 256);
    let p = word(b, h);
    assert(p == b + h * 256);
}

impl Cpu {
    pub open spec fn with_p(self, p: u8) -> Cpu {
        Cpu { a: self.a, x: self.x, y: self.y, pc: self.pc, sp: self.sp, p }
    }

    pub open spec fn with_pc(self, pc: u16) -> Cpu {
        Cpu { a: self.a, x: self.x, y: self.y, pc, sp: self.sp, p: self.p }
    }

    pub open spec fn with_a(self, a: u8) -> Cpu {
        Cpu { a, x: self.x, y: self.y, pc: self.pc, sp: self.sp, p: self.p }
    }

    pub open spec fn with_x(self, x: u8) -> Cpu {
        Cpu { a: self.a, x, y: self.y, pc: self.pc, sp: self.sp, p: self.p }
    }

    pub open spec fn with_y(self, y: u8) -> Cpu {
        Cpu { a: self.a, x: self.x, y, pc: self.pc, sp: self.sp, p: self.p }
    }

    /// The value 0 or 1 that the carry flag contributes to arithmetic.
    pub open spec fn carry_in(self) -> u8 {
        if self.p & CARRY != 0 {
            1
        } else {
            0
        }
    }

    /// The CPU after its program counter moves past the operand bytes of mode `mode`.
    pub open spec fn past_operand(self, mode: AddressingMode) -> Cpu {
        self.with_pc(self.pc.wrapping_add(operand_length(mode)))
    }

    /// The registers at power-on: all zero.
    pub open spec fn power_on() -> Cpu {
        Cpu { a: 0, x: 0, y: 0, pc: 0, sp: 0, p: 0 }
    }

    pub fn new() -> (c: Self)
        ensures
            c == Cpu::power_on(),
    {
        Cpu { a: 0x00, x: 0x00, y: 0x00, pc: 0x0000, sp: 0x00, p: 0b0000_0000 }
    }

    /// Reads the opcode byte at the program counter and moves past it.
    pub fn fetch<B: Bus>(&mut self, bus: &B) -> (op: Opcode)
        requires
            bus.readable(old(self).pc),
        ensures
            op == opcode_table(bus.peek(old(self).pc)),
            *final(self) == old(self).with_pc(old(self).pc.wrapping_add(1)),
    {
        let opcode = bus.read(self.pc);
        self.pc = self.pc.wrapping_add(1);
        lookup_opcode(opcode)
    }

    /// Resolves the operand of `opcode`, whose operand bytes are at the program counter, and
    /// moves past them.
    pub fn decode<B: Bus>(&mut self, bus: &B, opcode: &Opcode) -> (r: Operand)
        requires
            operand_readable(*old(self), *bus, opcode.mode),
        ensures
            r == operand_of(*old(self), *bus, opcode.mode),
            *final(self) == old(self).past_operand(opcode.mode),
    {
        match opcode.mode {
            AddressingMode::Implicit => self.implicit(),
            AddressingMode::Accumulator => self.accumulator(),
            AddressingMode::Immediate => self.immediate(),
            AddressingMode::ZeroPage => self.zero_page(bus),
            AddressingMode::ZeroPageX => self.zero_page_x(bus),
            AddressingMode::ZeroPageY => self.zero_page_y(bus),
            AddressingMode::Relative => self.relative(bus),
            AddressingMode::Absolute => self.absolute(bus),
            AddressingMode::AbsoluteX => self.absolute_x(bus),
            AddressingMode::AbsoluteY => self.absolute_y(bus),
            AddressingMode::Indirect => self.indirect(bus),
            AddressingMode::IndirectX => self.indirect_x(bus),
            AddressingMode::IndirectY => self.indirect_y(bus),
        }
    }
}

// addressing modes
impl Cpu {
    pub fn implicit(&self) -> (r: Operand)
        ensures
            r == Operand::Implied,
    {
        Operand::Implied
    }

    pub fn accumulator(&self) -> (r: Operand)
        ensures
            r == Operand::Accumulator,
    {
        Operand::Accumulator
    }

    pub fn immediate(&mut self) -> (r: Operand)
        ensures
            r == Operand::Address(old(self).pc),
            *final(self) == old(self).past_operand(AddressingMode::Immediate),
    {
        let address = self.pc;
        self.pc = self.pc.wrapping_add(1);
        Operand::Address(address)
    }

    pub fn zero_page<B: Bus>(&mut self, bus: &B) -> (r: Operand)
        requires
            operand_readable(*old(self), *bus, AddressingMode::ZeroPage),
        ensures
            r == operand_of(*old(self), *bus, AddressingMode::ZeroPage),
            *final(self) == old(self).past_operand(AddressingMode::ZeroPage),
    {
        let address = bus.read(self.pc);
        self.pc = self.pc.wrapping_add(1);
        Operand::Address(address as u16)
    }

    pub fn zero_page_x<B: Bus>(&mut self, bus: &B) -> (r: Operand)
        requires
            operand_readable(*old(self), *bus, AddressingMode::ZeroPageX),
        ensures
            r == operand_of(*old(self), *bus, AddressingMode::ZeroPageX),
            *final(self) == old(self).past_operand(AddressingMode::ZeroPageX),
    {
        let base = bus.read(self.pc);
        let address = base.wrapping_add(self.x);
        self.pc = self.pc.wrapping_add(1);
        Operand::Address(address as u16)
    }

    pub fn zero_page_y<B: Bus>(&mut self, bus: &B) -> (r: Operand)
        requires
            operand_readable(*old(self), *bus, AddressingMode::ZeroPageY),
        ensures
            r == operand_of(*old(self), *bus, AddressingMode::ZeroPageY),
            *final(self) == old(self).past_operand(AddressingMode::ZeroPageY),
    {
        let base = bus.read(self.pc);
        let address = base.wrapping_add(self.y);
        self.pc = self.pc.wrapping_add(1);
        Operand::Address(address as u16)
    }

    pub fn relative<B: Bus>(&mut self, bus: &B) -> (r: Operand)
        requires
            operand_readable(*old(self), *bus, AddressingMode::Relative),
        ensures
            r == operand_of(*old(self), *bus, AddressingMode::Relative),
            *final(self) == old(self).past_operand(AddressingMode::Relative),
    {
        let base = bus.read(self.pc) as i8;
        self.pc = self.pc.wrapping_add(1);
        Operand::Relative(base)
    }

    pub fn absolute<B: Bus>(&mut self, bus: &B) -> (r: Operand)
        requires
            operand_readable(*old(self), *bus, AddressingMode::Absolute),
        ensures
            r == operand_of(*old(self), *bus, AddressingMode::Absolute),
            *final(self) == old(self).past_operand(AddressingMode::Absolute),
    {
        let base = self.pc;
        let address = bus.read_u16(base);
        self.pc = self.pc.wrapping_add(2);
        Operand::Address(address)
    }

    pub fn absolute_x<B: Bus>(&mut self, bus: &B) -> (r: Operand)
        requires
            operand_readable(*old(self), *bus, AddressingMode::AbsoluteX),
        ensures
            r == operand_of(*old(self), *bus, AddressingMode::AbsoluteX),
            *final(self) == old(self).past_operand(AddressingMode::AbsoluteX),
    {
        let base = self.pc;
        let address = bus.read_u16(base).wrapping_add(self.x as u16);
        self.pc = self.pc.wrapping_add(2);
        Operand::Address(address)
    }

    pub fn absolute_y<B: Bus>(&mut self, bus: &B) -> (r: Operand)
        requires
            operand_readable(*old(self), *bus, AddressingMode::AbsoluteY),
        ensures
            r == operand_of(*old(self), *bus, AddressingMode::AbsoluteY),
            *final(self) == old(self).past_operand(AddressingMode::AbsoluteY),
    {
        let base = self.pc;
        let address = bus.read_u16(base).wrapping_add(self.y as u16);
        self.pc = self.pc.wrapping_add(2);
        Operand::Address(address)
    }

    pub fn indirect<B: Bus>(&mut self, bus: &B) -> (r: Operand)
        requires
            operand_readable(*old(self), *bus, AddressingMode::Indirect),
        ensures
            r == operand_of(*old(self), *bus, AddressingMode::Indirect),
            *final(self) == old(self).past_operand(AddressingMode::Indirect),
    {
        let base = bus.read_u16(self.pc);
        let address = bus.read_u16_bug(base);
        self.pc = self.pc.wrapping_add(2);
        Operand::Address(address)
    }

    pub fn indirect_x<B: Bus>(&mut self, bus: &B) -> (r: Operand)
        requires
            operand_readable(*old(self), *bus, AddressingMode::IndirectX),
        ensures
            r == operand_of(*old(self), *bus, AddressingMode::IndirectX),
            *final(self) == old(self).past_operand(AddressingMode::IndirectX),
    {
        let base = bus.read(self.pc);
        let sum = base.wrapping_add(self.x);
        let address = bus.read_u16_zp(sum);
        self.pc = self.pc.wrapping_add(1);
        Operand::Address(address)
    }

    pub fn indirect_y<B: Bus>(&mut self, bus: &B) -> (r: Operand)
        requires
            operand_readable(*old(self), *bus, AddressingMode::IndirectY),
        ensures
            r == operand_of(*old(self), *bus, AddressingMode::IndirectY),
            *final(self) == old(self).past_operand(AddressingMode::IndirectY),
    {
        let base = bus.read(self.pc);
        let address = bus.read_u16_zp(base);
        let sum = address.wrapping_add(self.y as u16);
        self.pc = self.pc.wrapping_add(1);
        Operand::Address(sum)
    }
}

/// `v` shifted left by one, with `bit_in` (0 or 1) shifted into bit 0.
pub open spec fn shift_left(v: u8, bit_in: u8) -> u8 {
    ((v as int * 2) % 256 + bit_in) as u8
}

/// `v` shifted right by one, with `bit_in` (0 or 1) shifted into bit 7.
pub open spec fn shift_right(v: u8, bit_in: u8) -> u8 {
    (v as int / 2 + bit_in as int * 128) as u8
}

/// The byte that a read-modify-write instruction works on: the accumulator or the byte at
/// the operand's address.
pub open spec fn rmw_input<B: Bus>(cpu: Cpu, bus: B, operand: Operand) -> u8 {
    match operand {
        Operand::Address(address) => bus.peek(address),
        _ => cpu.a,
    }
}

/// Whether the bus accesses of a read-modify-write instruction on `operand` are defined.
pub open spec fn rmw_ok<B: Bus>(bus: B, operand: Operand) -> bool {
    operand matches Operand::Address(address) ==> bus.readable(address) && bus.writable(
        address,
    )
}

/// How a read-modify-write instruction that computes `result` and status `p` leaves the CPU
/// and the bus: the result goes to the accumulator or back to the operand's address, and an
/// operand that is neither leaves both untouched.
pub open spec fn rmw_post<B: Bus>(
    cpu: Cpu,
    bus: B,
    operand: Operand,
    result: u8,
    p: u8,
    cpu_after: Cpu,
    bus_after: B,
) -> bool {
    match operand {
        Operand::Accumulator => cpu_after == cpu.with_a(result).with_p(p) && bus_after == bus,
        Operand::Address(address) => cpu_after == cpu.with_p(p) && bus_after == bus.poke(
            result,
            address,
        ),
        _ => cpu_after == cpu && bus_after == bus,
    }
}

// instructions
impl Cpu {
    pub fn lda(&mut self, value: u8)
        ensures
            *final(self) == old(self).with_a(value).with_p(zn_flags(old(self).p, value)),
    {
        self.a = value;
        self.set_zn(value);
    }

    pub fn sta<B: Bus>(&self, bus: &mut B, address: u16)
        requires
            old(bus).writable(address),
        ensures
            *final(bus) == old(bus).poke(self.a, address),
    {
        let value = self.a;
        bus.write(value, address);
    }

    pub fn ldx(&mut self, value: u8)
        ensures
            *final(self) == old(self).with_x(value).with_p(zn_flags(old(self).p, value)),
    {
        self.x = value;
        self.set_zn(value);
    }

    pub fn stx<B: Bus>(&self, bus: &mut B, address: u16)
        requires
            old(bus).writable(address),
        ensures
            *final(bus) == old(bus).poke(self.x, address),
    {
        bus.write(self.x, address);
    }

    pub fn ldy(&mut self, value: u8)
        ensures
            *final(self) == old(self).with_y(value).with_p(zn_flags(old(self).p, value)),
    {
        self.y = value;
        self.set_zn(value);
    }

    pub fn sty<B: Bus>(&self, bus: &mut B, address: u16)
        requires
            old(bus).writable(address),
        ensures
            *final(bus) == old(bus).poke(self.y, address),
    {
        bus.write(self.y, address);
    }

    pub fn tax(&mut self)
        ensures
            *final(self) == old(self).with_x(old(self).a).with_p(zn_flags(old(self).p, old(self).a)),
    {
        self.x = self.a;
        self.set_zn(self.a);
    }

    pub fn txa(&mut self)
        ensures
            *final(self) == old(self).with_a(old(self).x).with_p(zn_flags(old(self).p, old(self).x)),
    {
        self.a = self.x;
        self.set_zn(self.x);
    }

    pub fn tay(&mut self)
        ensures
            *final(self) == old(self).with_y(old(self).a).with_p(zn_flags(old(self).p, old(self).a)),
    {
        self.y = self.a;
        self.set_zn(self.a);
    }

    pub fn tya(&mut self)
        ensures
            *final(self) == old(self).with_a(old(self).y).with_p(zn_flags(old(self).p, old(self).y)),
    {
        self.a = self.y;
        self.set_zn(self.y);
    }

    /// Adds `value` and the carry to the accumulator. V compares the signs of the sum with
    /// those of the accumulator before the addition and of `value`.
    pub fn adc(&mut self, value: u8)
        ensures
            ({
                let sum = (old(self).a + value + old(self).carry_in()) as u16;
                let a = (sum % 256) as u8;
                *final(self) == old(self).with_a(a).with_p(
                    adc_flags(old(self).p, old(self).a, sum, value),
                )
            }),
    {
        let c: u16 = if self.carry() { 1 } else { 0 };
        let sum = (self.a as u16) + (value as u16) + c;
        let a = sum as u8;
        proof {
            lemma_u16_low_byte(sum);
        }
        self.set_czvn_adc(sum, value);
        self.a = a;
    }

    /// Subtracts `value` and the borrow (the complement of the carry) from the accumulator.
    /// V compares the sign of the difference with those of the accumulator before the
    /// subtraction and of the complement of `value`.
    pub fn sbc(&mut self, value: u8)
        ensures
            ({
                let diff = (old(self).a - value - (1 - old(self).carry_in())) as i16;
                let a = (diff % 256) as u8;
                *final(self) == old(self).with_a(a).with_p(
                    sbc_flags(old(self).p, old(self).a, diff, value),
                )
            }),
    {
        let borrow: i16 = if self.carry() { 0 } else { 1 };
        let sum = (self.a as i16) - (value as i16) - borrow;
        let a = sum as u8;
        proof {
            lemma_i16_low_byte(sum);
        }
        self.set_czvn_sbc(sum, value);
        self.a = a;
    }

    pub fn inc<B: Bus>(&mut self, bus: &mut B, address: u16)
        requires
            old(bus).readable(address),
            old(bus).writable(address),
        ensures
            ({
                let v = old(bus).peek(address).wrapping_add(1);
                &&& *final(bus) == old(bus).poke(v, address)
                &&& *final(self) == old(self).with_p(zn_flags(old(self).p, v))
            }),
    {
        let old_value = bus.read(address);
        let new_value = old_value.wrapping_add(1);
        bus.write(new_value, address);
        self.set_zn(new_value);
    }

    pub fn dec<B: Bus>(&mut self, bus: &mut B, address: u16)
        requires
            old(bus).readable(address),
            old(bus).writable(address),
        ensures
            ({
                let v = old(bus).peek(address).wrapping_sub(1);
                &&& *final(bus) == old(bus).poke(v, address)
                &&& *final(self) == old(self).with_p(zn_flags(old(self).p, v))
            }),
    {
        let old_value = bus.read(address);
        let new_value = old_value.wrapping_sub(1);
        bus.write(new_value, address);
        self.set_zn(new_value);
    }

    pub fn inx(&mut self)
        ensures
            ({
                let v = old(self).x.wrapping_add(1);
                *final(self) == old(self).with_x(v).with_p(zn_flags(old(self).p, v))
            }),
    {
        let value = self.x.wrapping_add(1);
        self.x = value;
        self.set_zn(value);
    }

    pub fn dex(&mut self)
        ensures
            ({
                let v = old(self).x.wrapping_sub(1);
                *final(self) == old(self).with_x(v).with_p(zn_flags(old(self).p, v))
            }),
    {
        let value = self.x.wrapping_sub(1);
        self.x = value;
        self.set_zn(value);
    }

    pub fn iny(&mut self)
        ensures
            ({
                let v = old(self).y.wrapping_add(1);
                *final(self) == old(self).with_y(v).with_p(zn_flags(old(self).p, v))
            }),
    {
        let value = self.y.wrapping_add(1);
        self.y = value;
        self.set_zn(value);
    }

    pub fn dey(&mut self)
        ensures
            ({
                let v = old(self).y.wrapping_sub(1);
                *final(self) == old(self).with_y(v).with_p(zn_flags(old(self).p, v))
            }),
    {
        let value = self.y.wrapping_sub(1);
        self.y = value;
        self.set_zn(value);
    }

    /// Arithmetic shift left of the accumulator or of the byte at the operand's address.
    pub fn asl<B: Bus>(&mut self, bus: &mut B, operand: Operand)
        requires
            rmw_ok(*old(bus), operand),
        ensures
            ({
                let v = rmw_input(*old(self), *old(bus), operand);
                let r = shift_left(v, 0);
                rmw_post(
                    *old(self),
                    *old(bus),
                    operand,
                    r,
                    zn_flags(with_flag(old(self).p, CARRY, v >= 0x80), r),
                    *final(self),
                    *final(bus),
                )
            }),
    {
        if let Operand::Accumulator = operand {
            let value = self.a as u16;
            let result = (value << 1) as u8;
            proof {
                lemma_shift_left_bits(self.a, 0);
            }
            self.a = result;
            self.set_carry((value & 0x80) != 0);
            self.set_zn(result);
        } else if let Operand::Address(address) = operand {
            let value = bus.read(address);
            let result = value << 1;
            proof {
                lemma_shift_left_bits(value, 0);
            }
            bus.write(result, address);
            self.set_carry((value & 0x80) != 0);
            self.set_zn(result);
        }
    }

    /// Logical shift right of the accumulator or of the byte at the operand's address.
    pub fn lsr<B: Bus>(&mut self, bus: &mut B, operand: Operand)
        requires
            rmw_ok(*old(bus), operand),
        ensures
            ({
                let v = rmw_input(*old(self), *old(bus), operand);
                let r = shift_right(v, 0);
                rmw_post(
                    *old(self),
                    *old(bus),
                    operand,
                    r,
                    with_flag(
                        with_flag(with_flag(old(self).p, CARRY, v % 2 == 1), ZERO, r == 0),
                        NEGATIVE,
                        false,
                    ),
                    *final(self),
                    *final(bus),
                )
            }),
    {
        if let Operand::Accumulator = operand {
            let value = self.a;
            let result = value >> 1;
            proof {
                lemma_shift_right_bits(value, 0);
            }
            self.a = result;
            self.set_carry((value & 0x01) != 0);
            self.set_zero(result == 0);
            self.set_negative(false);
        } else if let Operand::Address(address) = operand {
            let value = bus.read(address);
            let result = value >> 1;
            proof {
                lemma_shift_right_bits(value, 0);
            }
            bus.write(result, address);
            self.set_carry((value & 0x01) != 0);
            self.set_zero(result == 0);
            self.set_negative(false);
        }
    }

    /// Rotate left through the carry of the accumulator or of the byte at the operand's
    /// address.
    pub fn rol<B: Bus>(&mut self, bus: &mut B, operand: Operand)
        requires
            rmw_ok(*old(bus), operand),
        ensures
            ({
                let v = rmw_input(*old(self), *old(bus), operand);
                let r = shift_left(v, old(self).carry_in());
                rmw_post(
                    *old(self),
                    *old(bus),
                    operand,
                    r,
                    zn_flags(with_flag(old(self).p, CARRY, v >= 0x80), r),
                    *final(self),
                    *final(bus),
                )
            }),
    {
        if let Operand::Accumulator = operand {
            let value = self.a;
            let carry: u8 = if self.carry() { 1 } else { 0 };
            let result = (value << 1) | carry;
            proof {
                lemma_shift_left_bits(value, carry);
            }
            self.a = result;
            self.set_carry((value & 0x80) != 0);
            self.set_zn(result);
        } else if let Operand::Address(address) = operand {
            let value = bus.read(address);
            let carry: u8 = if self.carry() { 1 } else { 0 };
            let result = (value << 1) | carry;
            proof {
                lemma_shift_left_bits(value, carry);
            }
            bus.write(result, address);
            self.set_carry((value & 0x80) != 0);
            self.set_zn(result);
        }
    }

    /// Rotate right through the carry of the accumulator or of the byte at the operand's
    /// address.
    pub fn ror<B: Bus>(&mut self, bus: &mut B, operand: Operand)
        requires
            rmw_ok(*old(bus), operand),
        ensures
            ({
                let v = rmw_input(*old(self), *old(bus), operand);
                let r = shift_right(v, old(self).carry_in());
                rmw_post(
                    *old(self),
                    *old(bus),
                    operand,
                    r,
                    zn_flags(with_flag(old(self).p, CARRY, v % 2 == 1), r),
                    *final(self),
                    *final(bus),
                )
            }),
    {
        if let Operand::Accumulator = operand {
            let value = self.a;
            let c: u8 = if self.carry() { 1 } else { 0 };
            let carry = c << 7;
            let result = (value >> 1) | carry;
            proof {
                lemma_shift_right_bits(value, c);
            }
            self.a = result;
            self.set_carry((value & 0x01) != 0);
            self.set_zn(result);
        } else if let Operand::Address(address) = operand {
            let value = bus.read(address);
            let c: u8 = if self.carry() { 1 } else { 0 };
            let carry = c << 7;
            let result = (value >> 1) | carry;
            proof {
                lemma_shift_right_bits(value, c);
            }
            bus.write(result, address);
            self.set_carry((value & 0x01) != 0);
            self.set_zn(result);
        }
    }

    pub fn and<B: Bus>(&mut self, bus: &B, address: u16)
        requires
            bus.readable(address),
        ensures
            ({
                let r = old(self).a & bus.peek(address);
                *final(self) == old(self).with_a(r).with_p(zn_flags(old(self).p, r))
            }),
    {
        let value = bus.read(address);
        let result = self.a & value;
        self.a = result;
        self.set_zn(result);
    }

    pub fn ora<B: Bus>(&mut self, bus: &B, address: u16)
        requires
            bus.readable(address),
        ensures
            ({
                let r = old(self).a | bus.peek(address);
                *final(self) == old(self).with_a(r).with_p(zn_flags(old(self).p, r))
            }),
    {
        let value = bus.read(address);
        let result = self.a | value;
        self.a = result;
        self.set_zn(result);
    }

    pub fn eor<B: Bus>(&mut self, bus: &B, address: u16)
        requires
            bus.readable(address),
        ensures
            ({
                let r = old(self).a ^ bus.peek(address);
                *final(self) == old(self).with_a(r).with_p(zn_flags(old(self).p, r))
            }),
    {
        let value = bus.read(address);
        let result = self.a ^ value;
        self.a = result;
        self.set_zn(result);
    }

    /// Tests the accumulator against the byte at `address`: Z from their AND, V and N from
    /// bits 6 and 7 of the byte.
    pub fn bit<B: Bus>(&mut self, bus: &B, address: u16)
        requires
            bus.readable(address),
        ensures
            ({
                let v = bus.peek(address);
                *final(self) == old(self).with_p(
                    with_flag(
                        with_flag(with_flag(old(self).p, ZERO, old(self).a & v == 0), OVERFLOW, v & 0x40 != 0),
                        NEGATIVE,
                        v >= 0x80,
                    ),
                )
            }),
    {
        let value = bus.read(address);
        let result = self.a & value;
        proof {
            lemma_sign_bit(value);
        }
        self.set_zero(result == 0);
        self.set_overflow((value & 0x40) != 0);
        self.set_negative((value & 0x80) != 0);
    }
}

/// The low byte of a signed 16-bit value, as a cast keeps it.
proof fn lemma_i16_low_byte(v: i16)
    ensures
        v as u8 == (v % 256) as u8,
{
    assert(v as u8 == (v % 256) as u8) by (bit_vector);
}

/// The low byte of an unsigned 16-bit value, as a cast keeps it.
proof fn lemma_u16_low_byte(v: u16)
    ensures
        (v as u8) as u16 == v % 256,
{
    assert((v as u8) as u16 == v % 256) by (bit_vector);
}

proof fn lemma_sign_bit(v: u8)
    ensures
        (v & 0x80 != 0) == (v >= 0x80),
{
    assert((v & 0x80 != 0) == (v >= 0x80)) by (bit_vector);
}

proof fn lemma_shift_left_bits(v: u8, carry: u8)
    requires
        carry <= 1,
    ensures
        (v << 1) | carry == shift_left(v, carry),
        v << 1 == shift_left(v, 0),
        ((v as u16) << 1) as u8 == shift_left(v, 0),
        ((v & 0x80) != 0) == (v >= 0x80),
        (((v as u16) & 0x80) != 0) == (v >= 0x80),
{
    assert((v << 1) | carry == shift_left(v, carry) && v << 1 == shift_left(v, 0) && ((v as u16)
        << 1) as u8 == shift_left(v, 0) && ((v & 0x80) != 0) == (v >= 0x80) && (((v as u16) & 0x80)
        != 0) == (v >= 0x80)) by (bit_vector)
        requires
            carry <= 1,
    ;
}

proof fn lemma_shift_right_bits(v: u8, carry: u8)
    requires
        carry <= 1,
    ensures
        (v >> 1) | (carry << 7) == shift_right(v, carry),
        v >> 1 == shift_right(v, 0),
        ((v & 0x01) != 0) == (v % 2 == 1),
{
    assert((v >> 1) | (carry << 7) == shift_right(v, carry) && v >> 1 == shift_right(v, 0) && ((v
        & 0x01) != 0) == (v % 2 == 1)) by (bit_vector)
        requires
            carry <= 1,
    ;
}

// flags
impl Cpu {
    pub fn status(&self) -> (r: u8)
        ensures
            r == self.p,
    {
        self.p
    }

    /// Whether the carry flag is set.
    pub fn carry(&self) -> (r: bool)
        ensures
            r == (self.p & CARRY != 0),
    {
        self.p & CARRY != 0
    }

    /// Whether the zero flag is set.
    pub fn zero(&self) -> (r: bool)
        ensures
            r == (self.p & ZERO != 0),
    {
        self.p & ZERO != 0
    }

    /// Whether the interrupt-disable flag is set.
    pub fn interrupt(&self) -> (r: bool)
        ensures
            r == (self.p & INTERRUPT != 0),
    {
        self.p & INTERRUPT != 0
    }

    /// Whether the decimal flag is set.
    pub fn decimal(&self) -> (r: bool)
        ensures
            r == (self.p & DECIMAL != 0),
    {
        self.p & DECIMAL != 0
    }

    /// Whether the overflow flag is set.
    pub fn overflow(&self) -> (r: bool)
        ensures
            r == (self.p & OVERFLOW != 0),
    {
        self.p & OVERFLOW != 0
    }

    /// Whether the negative flag is set.
    pub fn negative(&self) -> (r: bool)
        ensures
            r == (self.p & NEGATIVE != 0),
    {
        self.p & NEGATIVE != 0
    }

    pub fn set_carry(&mut self, value: bool)
        ensures
            *final(self) == old(self).with_p(with_flag(old(self).p, CARRY, value)),
    {
        if value {
            self.p |= CARRY;
        } else {
            self.p &= !CARRY;
        }
    }

    pub fn set_zero(&mut self, value: bool)
        ensures
            *final(self) == old(self).with_p(with_flag(old(self).p, ZERO, value)),
    {
        if value {
            self.p |= ZERO;
        } else {
            self.p &= !ZERO;
        }
    }

    pub fn set_interrupt(&mut self, value: bool)
        ensures
            *final(self) == old(self).with_p(with_flag(old(self).p, INTERRUPT, value)),
    {
        if value {
            self.p |= INTERRUPT;
        } else {
            self.p &= !INTERRUPT;
        }
    }

    pub fn set_decimal(&mut self, value: bool)
        ensures
            *final(self) == old(self).with_p(with_flag(old(self).p, DECIMAL, value)),
    {
        if value {
            self.p |= DECIMAL;
        } else {
            self.p &= !DECIMAL;
        }
    }

    pub fn set_overflow(&mut self, value: bool)
        ensures
            *final(self) == old(self).with_p(with_flag(old(self).p, OVERFLOW, value)),
    {
        if value {
            self.p |= OVERFLOW;
        } else {
            self.p &= !OVERFLOW;
        }
    }

    pub fn set_negative(&mut self, value: bool)
        ensures
            *final(self) == old(self).with_p(with_flag(old(self).p, NEGATIVE, value)),
    {
        if value {
            self.p |= NEGATIVE;
        } else {
            self.p &= !NEGATIVE;
        }
    }

    pub fn set_zn(&mut self, result: u8)
        ensures
            *final(self) == old(self).with_p(zn_flags(old(self).p, result)),
    {
        proof {
            lemma_sign_bit(result);
        }
        self.set_zero(result == 0);
        self.set_negative(result & 0x80 != 0);
    }

    /// Sets Z, N, C and V after an addition whose 9-bit sum is `result` and whose operand
    /// was `memory`; V is computed against the accumulator as it is now.
    pub fn set_czvn_adc(&mut self, result: u16, memory: u8)
        ensures
            *final(self) == old(self).with_p(adc_flags(old(self).p, old(self).a, result, memory)),
    {
        let r = result as u8;
        let a = self.a;
        assert(r == result % 256 && (((r ^ a) & (r ^ memory) & 0x80) != 0) == signed_overflow(
            r,
            a,
            memory,
        )) by (bit_vector)
            requires
                r == result as u8,
        ;
        self.set_zn(r);
        self.set_carry(result > 0xFF);
        self.set_overflow(((r ^ a) & (r ^ memory) & 0x80) != 0);
    }

    /// Sets Z, N, C and V after a subtraction whose signed difference is `result` and whose
    /// operand was `memory`; V is computed against the accumulator as it is now.
    pub fn set_czvn_sbc(&mut self, result: i16, memory: u8)
        ensures
            *final(self) == old(self).with_p(sbc_flags(old(self).p, old(self).a, result, memory)),
    {
        let r = result as u8;
        let a = self.a;
        proof {
            lemma_i16_low_byte(result);
        }
        assert((((r ^ a) & (r ^ !memory) & 0x80) != 0) == signed_overflow(
            r,
            a,
            (255 - memory) as u8,
        )) by (bit_vector);
        self.set_zn(r);
        self.set_carry(!(result < 0x00));
        self.set_overflow(((r ^ a) & (r ^ !memory) & 0x80) != 0);
    }
}

impl Operand {
    pub fn address(self) -> (r: u16)
        requires
            self is Address,
        ensures
            self == Operand::Address(r),
    {
        if let Self::Address(addr) = self {
            addr
        } else {
            0
        }
    }
}

} // verus!
