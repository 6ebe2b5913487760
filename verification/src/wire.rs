//! Numbers as the bytes of a kernel structure.
//!
//! A number of several bytes stands in a structure either least significant
//! byte first or most significant byte first. Addresses always stand in
//! network order, most significant first; what the kernel reads as a plain
//! integer stands in the order of the host.

use vstd::prelude::*;

verus! {

/// The bytes of the widest number that is written: a `u128`.
pub const MAX_WIDTH: usize = 16;

/// The order in which the bytes of a number stand.
#[derive(Clone, Copy, Debug, PartialEq, Eq, Structural)]
pub enum ByteOrder {
    /// Least significant byte first.
    Little,
    /// Most significant byte first: network order.
    Big,
}

/// `count` zero bytes.
pub open spec fn zeros(count: nat) -> Seq<u8> {
    Seq::new(count, |i: int| 0u8)
}

/// The low `width` bytes of `value`, most significant first.
pub open spec fn be_bytes(value: nat, width: nat) -> Seq<u8>
    decreases width,
{
    if width == 0 {
        Seq::empty()
    } else {
        be_bytes(value / 256, (width - 1) as nat).push((value % 256) as u8)
    }
}

/// The low `width` bytes of `value`, least significant first.
pub open spec fn le_bytes(value: nat, width: nat) -> Seq<u8>
    decreases width,
{
    if width == 0 {
        Seq::empty()
    } else {
        seq![(value % 256) as u8] + le_bytes(value / 256, (width - 1) as nat)
    }
}

/// The low `width` bytes of `value` in the given order.
pub open spec fn ordered_bytes(order: ByteOrder, value: nat, width: nat) -> Seq<u8> {
    match order {
        ByteOrder::Little => le_bytes(value, width),
        ByteOrder::Big => be_bytes(value, width),
    }
}

/// The number that `bytes` spell, most significant byte first.
pub open spec fn be_value(bytes: Seq<u8>) -> nat
    decreases bytes.len(),
{
    if bytes.len() == 0 {
        0
    } else {
        be_value(bytes.drop_last()) * 256 + bytes.last() as nat
    }
}

/// The number that `bytes` spell, least significant byte first.
pub open spec fn le_value(bytes: Seq<u8>) -> nat
    decreases bytes.len(),
{
    if bytes.len() == 0 {
        0
    } else {
        bytes.first() as nat + 256 * le_value(bytes.drop_first())
    }
}

/// 256 to the power `width`: the number of values that `width` bytes tell
/// apart.
pub open spec fn span(width: nat) -> nat
    decreases width,
{
    if width == 0 {
        1
    } else {
        256 * span((width - 1) as nat)
    }
}

/// No span is zero.
pub proof fn lemma_span_positive(width: nat)
    ensures
        span(width) > 0,
    decreases width,
{
    if width > 0 {
        lemma_span_positive((width - 1) as nat);
    }
}

/// The spans of the widths that a control block uses.
pub proof fn lemma_span_values()
    ensures
        span(1) == 0x100,
        span(2) == 0x1_0000,
        span(4) == 0x1_0000_0000,
        span(16) == 0x1_0000_0000_0000_0000_0000_0000_0000_0000,
{
    reveal_with_fuel(span, 17);
}

/// Either encoding of a number has as many bytes as were asked for.
pub proof fn lemma_bytes_len(value: nat, width: nat)
    ensures
        be_bytes(value, width).len() == width,
        le_bytes(value, width).len() == width,
    decreases width,
{
    if width > 0 {
        lemma_bytes_len(value / 256, (width - 1) as nat);
    }
}

/// Zero is spelled by zero bytes in either order.
pub proof fn lemma_zero_bytes(width: nat)
    ensures
        be_bytes(0, width) == zeros(width),
        le_bytes(0, width) == zeros(width),
    decreases width,
{
    if width > 0 {
        lemma_zero_bytes((width - 1) as nat);
    }
}

/// A number that fits `digits` bytes is written in more bytes by zeros on its
/// significant side.
pub proof fn lemma_leading_zeros(value: nat, width: nat, digits: nat)
    requires
        value < span(digits),
        digits <= width,
    ensures
        be_bytes(value, width) == zeros((width - digits) as nat) + be_bytes(value, digits),
        le_bytes(value, width) == le_bytes(value, digits) + zeros((width - digits) as nat),
    decreases digits,
{
    if digits == 0 {
        lemma_zero_bytes(width);
    } else {
        lemma_leading_zeros(value / 256, (width - 1) as nat, (digits - 1) as nat);
    }
}

/// Reading back what was written most significant byte first gives the
/// number, as far as it fits the width.
pub proof fn lemma_be_round_trip(value: nat, width: nat)
    ensures
        be_value(be_bytes(value, width)) == value % span(width),
    decreases width,
{
    if width > 0 {
        let rest = be_bytes(value / 256, (width - 1) as nat);
        let all = be_bytes(value, width);
        lemma_be_round_trip(value / 256, (width - 1) as nat);
        assert(all.drop_last() =~= rest);
        lemma_span_positive((width - 1) as nat);
        lemma_digit_split(value, span((width - 1) as nat));
    }
}

/// Reading back what was written least significant byte first gives the
/// number, as far as it fits the width.
pub proof fn lemma_le_round_trip(value: nat, width: nat)
    ensures
        le_value(le_bytes(value, width)) == value % span(width),
    decreases width,
{
    if width > 0 {
        let rest = le_bytes(value / 256, (width - 1) as nat);
        let all = le_bytes(value, width);
        lemma_le_round_trip(value / 256, (width - 1) as nat);
        assert(all.drop_first() =~= rest);
        lemma_span_positive((width - 1) as nat);
        lemma_digit_split(value, span((width - 1) as nat));
    }
}

/// Numbers that fit the width and are written alike are the same number, in
/// either order.
pub proof fn lemma_bytes_injective(order: ByteOrder, a: nat, b: nat, width: nat)
    requires
        a < span(width),
        b < span(width),
        ordered_bytes(order, a, width) == ordered_bytes(order, b, width),
    ensures
        a == b,
{
    lemma_be_round_trip(a, width);
    lemma_be_round_trip(b, width);
    lemma_le_round_trip(a, width);
    lemma_le_round_trip(b, width);
    vstd::arithmetic::div_mod::lemma_small_mod(a, span(width));
    vstd::arithmetic::div_mod::lemma_small_mod(b, span(width));
}

/// The last digit of a number and the digits before it, taken modulo a
/// power of the base.
proof fn lemma_digit_split(value: nat, m: nat)
    requires
        m > 0,
    ensures
        (value / 256 % m) * 256 + value % 256 == value % (256 * m),
{
    let q = value / 256;
    let r = value % 256;
    let qq = q / m;
    let qr = q % m;
    assert(q == m * qq + qr) by {
        vstd::arithmetic::div_mod::lemma_fundamental_div_mod(q as int, m as int);
    }
    assert(value == (256 * m) * qq + (qr * 256 + r)) by (nonlinear_arith)
        requires
            value == 256 * q + r,
            q == m * qq + qr,
    ;
    assert(0 <= qr * 256 + r < 256 * m) by (nonlinear_arith)
        requires
            0 <= qr < m,
            0 <= r < 256,
    ;
    vstd::arithmetic::div_mod::lemma_fundamental_div_mod_converse(
        value as int,
        (256 * m) as int,
        qq as int,
        (qr * 256 + r) as int,
    );
}

/// Appends `count` zero bytes to `out`.
pub fn push_zeros(out: &mut Vec<u8>, count: usize)
    ensures
        final(out)@ == old(out)@ + zeros(count as nat),
{
    let mut done: usize = 0;
    while done < count
        invariant
            done <= count,
            out@ == old(out)@ + zeros(done as nat),
        decreases count - done,
    {
        out.push(0u8);
        done = done + 1;
    }
}

/// Appends the low `width` bytes of `value`, most significant first, digit
/// by digit.
fn push_be_digits(out: &mut Vec<u8>, value: u128, width: usize)
    requires
        width <= MAX_WIDTH,
    ensures
        final(out)@ == old(out)@ + be_bytes(value as nat, width as nat),
    decreases width,
{
    if width > 0 {
        push_be_digits(out, value / 256, width - 1);
        out.push((value % 256) as u8);
    }
}

/// Appends the low `width` bytes of `value`, least significant first, digit
/// by digit.
fn push_le_digits(out: &mut Vec<u8>, value: u128, width: usize)
    requires
        width <= MAX_WIDTH,
    ensures
        final(out)@ == old(out)@ + le_bytes(value as nat, width as nat),
    decreases width,
{
    if width > 0 {
        out.push((value % 256) as u8);
        push_le_digits(out, value / 256, width - 1);
    }
}

/// Appends the low `width` bytes of `value` to `out`, most significant first.
/// A width of more than sixteen bytes starts with zeros.
pub fn push_be(out: &mut Vec<u8>, value: u128, width: usize)
    ensures
        final(out)@ == old(out)@ + be_bytes(value as nat, width as nat),
{
    if width > MAX_WIDTH {
        proof {
            lemma_span_values();
            lemma_leading_zeros(value as nat, width as nat, MAX_WIDTH as nat);
        }
        push_zeros(out, width - MAX_WIDTH);
        push_be_digits(out, value, MAX_WIDTH);
    } else {
        push_be_digits(out, value, width);
    }
}

/// Appends the low `width` bytes of `value` to `out`, least significant first.
/// A width of more than sixteen bytes ends with zeros.
pub fn push_le(out: &mut Vec<u8>, value: u128, width: usize)
    ensures
        final(out)@ == old(out)@ + le_bytes(value as nat, width as nat),
{
    if width > MAX_WIDTH {
        proof {
            lemma_span_values();
            lemma_leading_zeros(value as nat, width as nat, MAX_WIDTH as nat);
        }
        push_le_digits(out, value, MAX_WIDTH);
        push_zeros(out, width - MAX_WIDTH);
    } else {
        push_le_digits(out, value, width);
    }
}

/// Appends the low `width` bytes of `value` to `out` in the given order.
pub fn push_ordered(out: &mut Vec<u8>, order: ByteOrder, value: u128, width: usize)
    ensures
        final(out)@ == old(out)@ + ordered_bytes(order, value as nat, width as nat),
{
    match order {
        ByteOrder::Little => push_le(out, value, width),
        ByteOrder::Big => push_be(out, value, width),
    }
}

/// `u32::to_ne_bytes`: the four bytes of `value` as this machine stores
/// them, which is least significant first or most significant first.
#[verifier::external_body]
fn native_bytes(value: u32) -> (bytes: [u8; 4])
    ensures
        bytes@ == le_bytes(value as nat, 4) || bytes@ == be_bytes(value as nat, 4),
{
    value.to_ne_bytes()
}

/// Whether the four bytes are those of the sequence.
fn same_bytes(bytes: &[u8; 4], digits: &Vec<u8>) -> (same: bool)
    ensures
        same == (bytes@ == digits@),
{
    if digits.len() != 4 {
        return false;
    }
    let mut at: usize = 0;
    while at < 4
        invariant
            at <= 4,
            digits.len() == 4,
            bytes@.subrange(0, at as int) == digits@.subrange(0, at as int),
        decreases 4 - at,
    {
        if bytes[at] != digits[at] {
            return false;
        }
        at = at + 1;
        assert(bytes@.subrange(0, at as int) =~= digits@.subrange(0, at as int)) by {
        }
    }
    assert(bytes@ =~= bytes@.subrange(0, 4));
    assert(digits@ =~= digits@.subrange(0, 4));
    true
}

impl ByteOrder {
    /// The order in which `bytes` spell `value`, where one order does and the
    /// other does not; `None` where neither spells it so or both do.
    pub fn spelling(value: u32, bytes: &[u8; 4]) -> (order: Option<ByteOrder>)
        ensures
            order == Some(ByteOrder::Little) <==> bytes@ == le_bytes(value as nat, 4) && bytes@
                != be_bytes(value as nat, 4),
            order == Some(ByteOrder::Big) <==> bytes@ == be_bytes(value as nat, 4) && bytes@
                != le_bytes(value as nat, 4),
    {
        let mut little: Vec<u8> = Vec::new();
        push_le(&mut little, value as u128, 4);
        let mut big: Vec<u8> = Vec::new();
        push_be(&mut big, value as u128, 4);
        let is_little = same_bytes(bytes, &little);
        let is_big = same_bytes(bytes, &big);
        if is_little && !is_big {
            Some(ByteOrder::Little)
        } else if is_big && !is_little {
            Some(ByteOrder::Big)
        } else {
            None
        }
    }

    /// The byte order of the machine that runs this: the order in which the
    /// machine stores the number one. Nothing is promised of the answer, which
    /// differs from machine to machine.
    pub fn host() -> ByteOrder {
        let probe = native_bytes(1);
        proof {
            // The two orders spell the number one differently.
            reveal_with_fuel(le_bytes, 5);
            reveal_with_fuel(be_bytes, 5);
            assert(le_bytes(1, 4)[0] != be_bytes(1, 4)[0]);
        }
        ByteOrder::spelling(1, &probe).unwrap()
    }
}

} // verus!
