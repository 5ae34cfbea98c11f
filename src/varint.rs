//! Base-128 variable-length integers, as used by the protobuf wire format.
use vstd::prelude::*;
use vstd::arithmetic::power2::pow2;
use crate::error::Result;

verus! {

/// The largest value of a `u64`, plus one.
pub open spec fn two64() -> int {
    0x1_0000_0000_0000_0000
}

/// The canonical base-128 encoding of `x`: seven bits per byte, least
/// significant group first, the high bit set on every byte but the last.
pub open spec fn varint_spec(x: nat) -> Seq<u8>
    decreases x,
{
    if x < 128 {
        seq![x as u8]
    } else {
        seq![(x % 128 + 128) as u8] + varint_spec(x / 128)
    }
}

/// A signed 64-bit integer reinterpreted as unsigned (two's complement).
pub open spec fn twos(v: int) -> nat {
    if v >= 0 {
        v as nat
    } else {
        (v + two64()) as nat
    }
}

/// An unsigned 64-bit pattern read back as a signed 64-bit integer.
pub open spec fn signed64(x: nat) -> int {
    if x < 0x8000_0000_0000_0000 {
        x as int
    } else {
        x - two64()
    }
}

/// The low 32 bits of `x`, read as a signed 32-bit integer.
pub open spec fn signed32(x: nat) -> int {
    let low = x % 0x1_0000_0000;
    if low < 0x8000_0000 {
        low as int
    } else {
        low - 0x1_0000_0000
    }
}

/// How many bytes a decoder consumes from the front of `d`: up to and
/// including the first byte without the continuation bit, or all of `d`.
pub open spec fn varint_len(d: Seq<u8>) -> nat
    decreases d.len(),
{
    if d.len() == 0 {
        0
    } else if d[0] < 128 {
        1
    } else {
        1 + varint_len(d.drop_first())
    }
}

/// The number that the seven-bit groups of `s` spell, least significant first.
pub open spec fn horner(s: Seq<u8>) -> nat
    decreases s.len(),
{
    if s.len() == 0 {
        0
    } else {
        (s[0] % 128) as nat + 128 * horner(s.drop_first())
    }
}

/// The value a decoder reads from the front of `d`, kept to 64 bits.
pub open spec fn varint_value(d: Seq<u8>) -> nat {
    horner(d.subrange(0, varint_len(d) as int)) % (two64() as nat)
}

/// Pushes the encoding of `x` onto `buf`.
fn push_varint(buf: &mut Vec<u8>, x: u64)
    ensures
        final(buf)@ == old(buf)@ + varint_spec(x as nat),
{
    let mut v: u64 = x;
    let ghost start = buf@;
    while v >= 128
        invariant
            start + varint_spec(x as nat) == buf@ + varint_spec(v as nat),
        decreases v,
    {
        let ghost before = buf@;
        buf.push((v % 128 + 128) as u8);
        assert(varint_spec(v as nat) == seq![(v % 128 + 128) as u8] + varint_spec((v / 128) as nat));
        assert(before + varint_spec(v as nat) =~= buf@ + varint_spec((v / 128) as nat));
        v = v / 128;
    }
    buf.push(v as u8);
    assert(buf@ =~= start + varint_spec(x as nat));
}

/// Appends the varint of `value` reinterpreted as unsigned 64 bits, so that
/// a negative number takes ten bytes.
pub fn encode_varint(buf: &mut Vec<u8>, value: i64)
    ensures
        final(buf)@ == old(buf)@ + varint_spec(twos(value as int)),
{
    let bits: u64 = if value >= 0 {
        value as u64
    } else {
        ((value + i64::MAX) + 1) as u64 + 0x8000_0000_0000_0000u64
    };
    push_varint(buf, bits);
}

/// Appends the varint of a length.
pub fn encode_varint_usize(buf: &mut Vec<u8>, value: usize)
    ensures
        final(buf)@ == old(buf)@ + varint_spec(value as nat),
{
    push_varint(buf, value as u64);
}

/// Reads the 64-bit pattern of a varint from the front of `data`, and how
/// many bytes it took.
pub fn read_varint(data: &[u8]) -> (r: (u64, usize))
    ensures
        r.0 as nat == varint_value(data@),
        r.1 as nat == varint_len(data@),
        r.1 <= data@.len(),
{
    let ghost d = data@;
    let mut i: usize = 0;
    assert(d.skip(0) =~= d);
    while i < data.len() && data[i] >= 128
        invariant
            i <= d.len(),
            d == data@,
            varint_len(d) == i + varint_len(d.skip(i as int)),
        decreases d.len() - i,
    {
        assert(d.skip(i as int).drop_first() =~= d.skip(i + 1));
        i = i + 1;
    }
    let n: usize = if i < data.len() { i + 1 } else { i };
    proof {
        if i < d.len() {
            assert(d.skip(i as int)[0] == d[i as int]);
        }
        assert(varint_len(d) == n);
    }
    let mut acc: u64 = 0;
    let mut j: usize = n;
    assert(horner(d.subrange(j as int, n as int)) == 0);
    while j > 0
        invariant
            j <= n <= d.len(),
            d == data@,
            acc as nat == horner(d.subrange(j as int, n as int)) % (two64() as nat),
        decreases j,
    {
        let ghost tail = d.subrange(j as int, n as int);
        j = j - 1;
        let ghost s = d.subrange(j as int, n as int);
        assert(s.drop_first() =~= tail);
        let a: u64 = (data[j] % 128) as u64;
        let low: u64 = acc % 0x200_0000_0000_0000;
        proof {
            lemma_step_mod(a as int, horner(tail) as int);
        }
        acc = low * 128 + a;
    }
    assert(d.subrange(0, n as int) == d.subrange(j as int, n as int));
    (acc, n)
}

/// One step of the reading loop: `(a + 128 * h) mod 2^64` from `h mod 2^64`.
proof fn lemma_step_mod(a: int, h: int)
    requires
        0 <= a < 128,
        0 <= h,
    ensures
        ((h % two64()) % 0x200_0000_0000_0000) * 128 + a == (a + 128 * h) % two64(),
        ((h % two64()) % 0x200_0000_0000_0000) * 128 + a < two64(),
{
    let m = 0x200_0000_0000_0000int;
    assert(two64() == m * 128);
    vstd::arithmetic::div_mod::lemma_mod_mod(h, m, 128);
    let r = h % m;
    let q = h / m;
    vstd::arithmetic::div_mod::lemma_fundamental_div_mod(h, m);
    assert(a + 128 * h == (a + 128 * r) + q * two64()) by (nonlinear_arith)
        requires h == q * m + r, two64() == m * 128;
    assert(0 <= r < m);
    assert(a + 128 * r < two64());
    vstd::arithmetic::div_mod::lemma_mod_multiples_vanish(q, a + 128 * r, two64());
    vstd::arithmetic::div_mod::lemma_small_mod((a + 128 * r) as nat, two64() as nat);
}

/// Decodes a varint from the front of `data`: its 64-bit pattern as a signed
/// integer, and the number of bytes read. Never fails: a varint cut short by
/// the end of `data` yields what its bytes spell.
pub fn decode_varint(data: &[u8]) -> (r: Result<(i64, usize)>)
    ensures
        r matches Ok((v, n)) && v as int == signed64(varint_value(data@)) && n as nat
            == varint_len(data@),
{
    let (x, n) = read_varint(data);
    let v: i64 = if x <= i64::MAX as u64 {
        x as i64
    } else {
        ((x - 0x8000_0000_0000_0000u64) as i64 - i64::MAX) - 1
    };
    Ok((v, n))
}

} // verus!

verus! {

proof fn lemma_horner_varint(x: nat)
    ensures
        horner(varint_spec(x)) == x,
    decreases x,
{
    let s = varint_spec(x);
    if x < 128 {
        assert(s.drop_first() =~= Seq::<u8>::empty());
        vstd::arithmetic::div_mod::lemma_small_mod(x, 128);
        assert(s[0] == x);
        assert(horner(s) == (s[0] % 128) as nat + 128 * horner(s.drop_first()));
    } else {
        vstd::arithmetic::div_mod::lemma_fundamental_div_mod(x as int, 128);
        lemma_horner_varint(x / 128);
        assert(s.drop_first() =~= varint_spec(x / 128));
        assert(s[0] == x % 128 + 128);
        assert(s[0] % 128 == x % 128);
        assert(horner(s) == (s[0] % 128) as nat + 128 * horner(s.drop_first()));
    }
}

/// Reading back the encoding of any 64-bit value yields that value and
/// consumes exactly its bytes, whatever follows them.
pub proof fn lemma_varint_round_trip(x: nat, rest: Seq<u8>)
    requires
        x < two64(),
    ensures
        varint_len(varint_spec(x) + rest) == varint_spec(x).len(),
        varint_value(varint_spec(x) + rest) == x,
    decreases x,
{
    let s = varint_spec(x) + rest;
    if x < 128 {
        assert(s[0] == x);
    } else {
        lemma_varint_round_trip(x / 128, rest);
        assert(s.drop_first() =~= varint_spec(x / 128) + rest);
        assert(s[0] >= 128);
    }
    assert(s.subrange(0, varint_spec(x).len() as int) =~= varint_spec(x));
    lemma_horner_varint(x);
    vstd::arithmetic::div_mod::lemma_small_mod(x, two64() as nat);
}

/// The encoding of a 64-bit value takes at least one byte.
pub proof fn lemma_varint_nonempty(x: nat)
    ensures
        varint_spec(x).len() >= 1,
    decreases x,
{
    if x >= 128 {
        lemma_varint_nonempty(x / 128);
    }
}

/// Two's complement and back is the identity on 64-bit integers.
pub proof fn lemma_twos_signed64(v: int)
    requires
        -0x8000_0000_0000_0000 <= v < 0x8000_0000_0000_0000,
    ensures
        twos(v) < two64(),
        signed64(twos(v)) == v,
{
}

/// The low 32 bits of a sign-extended 32-bit integer give it back.
pub proof fn lemma_twos_signed32(v: int)
    requires
        -0x8000_0000 <= v < 0x8000_0000,
    ensures
        signed32(twos(v)) == v,
{
    if v < 0 {
        let t = v + two64();
        vstd::arithmetic::div_mod::lemma_mod_multiples_vanish(
            0xFFFF_FFFF,
            v + 0x1_0000_0000,
            0x1_0000_0000,
        );
        assert(t == 0x1_0000_0000 * 0xFFFF_FFFF + (v + 0x1_0000_0000));
        vstd::arithmetic::div_mod::lemma_small_mod((v + 0x1_0000_0000) as nat, 0x1_0000_0000);
    } else {
        vstd::arithmetic::div_mod::lemma_small_mod(v as nat, 0x1_0000_0000);
    }
}

} // verus!
