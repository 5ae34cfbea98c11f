//! Values of query parameters and results, and their self-describing wire
//! envelope (a protobuf well-known wrapper type behind a type URL).
use vstd::prelude::*;
use vstd::string::*;
use vstd::utf8::*;
use crate::error::{Error, Result};
use crate::varint::{
    encode_varint, encode_varint_usize, lemma_twos_signed32, lemma_twos_signed64,
    lemma_varint_nonempty, lemma_varint_round_trip, read_varint, signed32, signed64, two64, twos,
    varint_len, varint_spec, varint_value,
};

verus! {

/// A point in time: whole seconds since the Unix epoch and the nanoseconds
/// past that second. Well formed when `nanos` is below one second.
#[derive(Debug, Clone, Copy, PartialEq, Eq)]
pub struct Timestamp {
    pub seconds: i64,
    pub nanos: u32,
}

/// Nanoseconds in one second.
pub const NANOS_PER_SEC: u32 = 1_000_000_000;

impl Timestamp {
    /// Builds a timestamp, carrying whole seconds out of `nanos`; `None` when
    /// the carry does not fit in the seconds.
    pub fn new(seconds: i64, nanos: u32) -> (r: Option<Timestamp>)
        ensures
            r == normalized(seconds as int, nanos as int),
    {
        let carry: u32 = nanos / NANOS_PER_SEC;
        if seconds <= i64::MAX - carry as i64 {
            Some(Timestamp { seconds: seconds + carry as i64, nanos: nanos % NANOS_PER_SEC })
        } else {
            None
        }
    }
}

/// `seconds` and `nanos` with whole seconds carried out of `nanos`.
pub open spec fn normalized(seconds: int, nanos: int) -> Option<Timestamp> {
    let s = seconds + nanos / 1_000_000_000;
    if s <= i64::MAX {
        Some(Timestamp { seconds: s as i64, nanos: (nanos % 1_000_000_000) as u32 })
    } else {
        None
    }
}

/// A database value used as a parameter or returned in a row. Floating-point
/// values are held as their IEEE-754 bit patterns.
#[derive(Debug, Clone, PartialEq)]
pub enum Value {
    Null,
    Bool(bool),
    Int32(i32),
    Int64(i64),
    /// The bits of an `f32`.
    Float(u32),
    /// The bits of an `f64`.
    Double(u64),
    String(String),
    Bytes(Vec<u8>),
    Timestamp(Timestamp),
}

/// The mathematical content of a `Value`.
pub enum ValueView {
    Null,
    Bool(bool),
    Int32(i32),
    Int64(i64),
    Float(u32),
    Double(u64),
    Text(Seq<char>),
    Bytes(Seq<u8>),
    Timestamp(i64, u32),
}

impl View for Value {
    type V = ValueView;

    open spec fn view(&self) -> ValueView {
        match self {
            Value::Null => ValueView::Null,
            Value::Bool(b) => ValueView::Bool(*b),
            Value::Int32(v) => ValueView::Int32(*v),
            Value::Int64(v) => ValueView::Int64(*v),
            Value::Float(v) => ValueView::Float(*v),
            Value::Double(v) => ValueView::Double(*v),
            Value::String(s) => ValueView::Text(s@),
            Value::Bytes(b) => ValueView::Bytes(b@),
            Value::Timestamp(t) => ValueView::Timestamp(t.seconds, t.nanos),
        }
    }
}

impl ValueView {
    /// The value is in range: a timestamp's nanoseconds stay below one
    /// second, and a text or byte string's length fits in 64 bits.
    pub open spec fn wf(self) -> bool {
        match self {
            ValueView::Timestamp(_, n) => n < 1_000_000_000,
            ValueView::Text(t) => encode_utf8(t).len() < two64(),
            ValueView::Bytes(b) => b.len() < two64(),
            _ => true,
        }
    }
}

/// A value on the wire: a type URL naming a well-known wrapper type and the
/// protobuf encoding of that wrapper.
#[derive(Debug, Clone, PartialEq)]
pub struct WireEnvelope {
    pub type_url: String,
    pub value: Vec<u8>,
}

impl View for WireEnvelope {
    type V = (Seq<char>, Seq<u8>);

    open spec fn view(&self) -> (Seq<char>, Seq<u8>) {
        (self.type_url@, self.value@)
    }
}

/// The well-known wrapper types that the codec knows.
#[derive(Debug, Clone, Copy, PartialEq, Eq)]
pub enum WireKind {
    Empty,
    BoolValue,
    Int32Value,
    Int64Value,
    UInt32Value,
    UInt64Value,
    FloatValue,
    DoubleValue,
    StringValue,
    BytesValue,
    Timestamp,
}

/// The type URL of each wrapper type.
pub open spec fn kind_url(k: WireKind) -> Seq<char> {
    match k {
        WireKind::Empty => "type.googleapis.com/google.protobuf.Empty"@,
        WireKind::BoolValue => "type.googleapis.com/google.protobuf.BoolValue"@,
        WireKind::Int32Value => "type.googleapis.com/google.protobuf.Int32Value"@,
        WireKind::Int64Value => "type.googleapis.com/google.protobuf.Int64Value"@,
        WireKind::UInt32Value => "type.googleapis.com/google.protobuf.UInt32Value"@,
        WireKind::UInt64Value => "type.googleapis.com/google.protobuf.UInt64Value"@,
        WireKind::FloatValue => "type.googleapis.com/google.protobuf.FloatValue"@,
        WireKind::DoubleValue => "type.googleapis.com/google.protobuf.DoubleValue"@,
        WireKind::StringValue => "type.googleapis.com/google.protobuf.StringValue"@,
        WireKind::BytesValue => "type.googleapis.com/google.protobuf.BytesValue"@,
        WireKind::Timestamp => "type.googleapis.com/google.protobuf.Timestamp"@,
    }
}

/// The wrapper type whose URL is `u`, if any.
pub open spec fn kind_of_url(u: Seq<char>) -> Option<WireKind> {
    if u == kind_url(WireKind::Empty) {
        Some(WireKind::Empty)
    } else if u == kind_url(WireKind::BoolValue) {
        Some(WireKind::BoolValue)
    } else if u == kind_url(WireKind::Int32Value) {
        Some(WireKind::Int32Value)
    } else if u == kind_url(WireKind::Int64Value) {
        Some(WireKind::Int64Value)
    } else if u == kind_url(WireKind::UInt32Value) {
        Some(WireKind::UInt32Value)
    } else if u == kind_url(WireKind::UInt64Value) {
        Some(WireKind::UInt64Value)
    } else if u == kind_url(WireKind::FloatValue) {
        Some(WireKind::FloatValue)
    } else if u == kind_url(WireKind::DoubleValue) {
        Some(WireKind::DoubleValue)
    } else if u == kind_url(WireKind::StringValue) {
        Some(WireKind::StringValue)
    } else if u == kind_url(WireKind::BytesValue) {
        Some(WireKind::BytesValue)
    } else if u == kind_url(WireKind::Timestamp) {
        Some(WireKind::Timestamp)
    } else {
        None
    }
}

/// `k` little-endian bytes of `x`.
pub open spec fn le_bytes(x: nat, k: nat) -> Seq<u8>
    decreases k,
{
    if k == 0 {
        Seq::empty()
    } else {
        seq![(x % 256) as u8] + le_bytes(x / 256, (k - 1) as nat)
    }
}

/// The number that little-endian bytes `s` spell.
pub open spec fn le_value(s: Seq<u8>) -> nat
    decreases s.len(),
{
    if s.len() == 0 {
        0
    } else {
        s[0] as nat + 256 * le_value(s.drop_first())
    }
}

/// The wrapper type that carries each value.
pub open spec fn kind_for(v: ValueView) -> WireKind {
    match v {
        ValueView::Null => WireKind::Empty,
        ValueView::Bool(_) => WireKind::BoolValue,
        ValueView::Int32(_) => WireKind::Int32Value,
        ValueView::Int64(_) => WireKind::Int64Value,
        ValueView::Float(_) => WireKind::FloatValue,
        ValueView::Double(_) => WireKind::DoubleValue,
        ValueView::Text(_) => WireKind::StringValue,
        ValueView::Bytes(_) => WireKind::BytesValue,
        ValueView::Timestamp(_, _) => WireKind::Timestamp,
    }
}

/// The payload of each value: field tag, then the field.
pub open spec fn payload_spec(v: ValueView) -> Seq<u8> {
    match v {
        ValueView::Null => Seq::empty(),
        ValueView::Bool(b) => seq![0x08u8, if b { 1u8 } else { 0u8 }],
        ValueView::Int32(x) => seq![0x08u8] + varint_spec(twos(x as int)),
        ValueView::Int64(x) => seq![0x08u8] + varint_spec(twos(x as int)),
        ValueView::Float(x) => seq![0x0du8] + le_bytes(x as nat, 4),
        ValueView::Double(x) => seq![0x09u8] + le_bytes(x as nat, 8),
        ValueView::Text(s) => seq![0x0au8] + varint_spec(encode_utf8(s).len()) + encode_utf8(s),
        ValueView::Bytes(b) => seq![0x0au8] + varint_spec(b.len()) + b,
        ValueView::Timestamp(s, n) => seq![0x08u8] + varint_spec(twos(s as int)) + seq![0x10u8]
            + varint_spec(n as nat),
    }
}

/// The envelope of a value.
pub open spec fn encode_spec(v: ValueView) -> (Seq<char>, Seq<u8>) {
    (kind_url(kind_for(v)), payload_spec(v))
}

/// What `String::from_utf8_lossy` makes of bytes that are not valid UTF-8.
pub uninterp spec fn utf8_lossy(b: Seq<u8>) -> Seq<char>;

/// Text from bytes: decoded when valid UTF-8, else with replacement characters.
pub open spec fn text_of(b: Seq<u8>) -> Seq<char> {
    if valid_utf8(b) {
        decode_utf8(b)
    } else {
        utf8_lossy(b)
    }
}

/// The payload after its leading tag byte (empty when there is none).
pub open spec fn after_tag(d: Seq<u8>) -> Seq<u8> {
    if d.len() >= 1 {
        d.skip(1)
    } else {
        d
    }
}

/// The length-delimited field of a payload: its bytes when they are all
/// there, else `None`.
pub open spec fn delimited(d: Seq<u8>) -> Option<Seq<u8>> {
    let start = 1 + varint_len(after_tag(d));
    let end = start + varint_value(after_tag(d));
    if end <= d.len() {
        Some(d.subrange(start as int, end as int))
    } else {
        None
    }
}

/// The nanoseconds field of a timestamp payload (zero when absent).
pub open spec fn timestamp_nanos(d: Seq<u8>) -> nat {
    let at = 1 + varint_len(after_tag(d)) + 1;
    if d.len() > at {
        varint_value(d.skip(at as int)) % 0x1_0000_0000
    } else {
        0
    }
}

/// What an envelope decodes to; `None` for an unknown type URL, or a
/// timestamp whose seconds overflow once the nanoseconds are carried.
/// A payload too short for its field yields that field's zero value.
pub open spec fn decode_spec(u: Seq<char>, d: Seq<u8>) -> Option<ValueView> {
    match kind_of_url(u) {
        None => None,
        Some(k) => match k {
            WireKind::Empty => Some(ValueView::Null),
            WireKind::BoolValue => Some(ValueView::Bool(d.len() >= 2 && d[1] != 0)),
            WireKind::Int32Value | WireKind::UInt32Value => Some(
                ValueView::Int32(signed32(varint_value(after_tag(d))) as i32),
            ),
            WireKind::Int64Value | WireKind::UInt64Value => Some(
                ValueView::Int64(signed64(varint_value(after_tag(d))) as i64),
            ),
            WireKind::FloatValue => Some(
                ValueView::Float(
                    if d.len() >= 5 {
                        le_value(d.subrange(1, 5)) as u32
                    } else {
                        0
                    },
                ),
            ),
            WireKind::DoubleValue => Some(
                ValueView::Double(
                    if d.len() >= 9 {
                        le_value(d.subrange(1, 9)) as u64
                    } else {
                        0
                    },
                ),
            ),
            WireKind::StringValue => Some(
                ValueView::Text(
                    match delimited(d) {
                        Some(b) => text_of(b),
                        None => Seq::empty(),
                    },
                ),
            ),
            WireKind::BytesValue => Some(
                ValueView::Bytes(
                    match delimited(d) {
                        Some(b) => b,
                        None => Seq::empty(),
                    },
                ),
            ),
            WireKind::Timestamp => match normalized(
                signed64(varint_value(after_tag(d))),
                timestamp_nanos(d) as int,
            ) {
                Some(t) => Some(ValueView::Timestamp(t.seconds, t.nanos)),
                None => None,
            },
        },
    }
}

/// Relies on `String::from_utf8_lossy`: valid UTF-8 is decoded as it is;
/// otherwise the result depends on the bytes alone.
#[verifier::external_body]
fn lossy_text(b: &[u8]) -> (r: String)
    ensures
        valid_utf8(b@) ==> r@ == decode_utf8(b@),
        !valid_utf8(b@) ==> r@ == utf8_lossy(b@),
{
    String::from_utf8_lossy(b).into_owned()
}

/// Whether two byte sequences are equal.
fn bytes_eq(a: &Vec<u8>, b: &Vec<u8>) -> (r: bool)
    ensures
        r == (a@ == b@),
{
    if a.len() != b.len() {
        return false;
    }
    let mut i: usize = 0;
    while i < a.len()
        invariant
            a@.len() == b@.len(),
            i <= a@.len(),
            a@.subrange(0, i as int) == b@.subrange(0, i as int),
        decreases a@.len() - i,
    {
        if a[i] != b[i] {
            return false;
        }
        assert(a@.subrange(0, i + 1) =~= a@.subrange(0, i as int).push(a@[i as int]));
        assert(b@.subrange(0, i + 1) =~= b@.subrange(0, i as int).push(b@[i as int]));
        i = i + 1;
    }
    assert(a@ =~= a@.subrange(0, i as int));
    assert(b@ =~= b@.subrange(0, i as int));
    true
}

/// Whether two texts hold the same characters.
pub fn text_eq(a: &str, b: &str) -> (r: bool)
    ensures
        r == (a@ == b@),
{
    let x = a.as_bytes_vec();
    let y = b.as_bytes_vec();
    let r = bytes_eq(&x, &y);
    proof {
        encode_utf8_decode_utf8(a@);
        encode_utf8_decode_utf8(b@);
    }
    r
}

/// The type URL of a wrapper type.
pub fn kind_type_url(k: WireKind) -> (r: String)
    ensures
        r@ == kind_url(k),
{
    match k {
        WireKind::Empty => String::from_str("type.googleapis.com/google.protobuf.Empty"),
        WireKind::BoolValue => String::from_str("type.googleapis.com/google.protobuf.BoolValue"),
        WireKind::Int32Value => String::from_str("type.googleapis.com/google.protobuf.Int32Value"),
        WireKind::Int64Value => String::from_str("type.googleapis.com/google.protobuf.Int64Value"),
        WireKind::UInt32Value => String::from_str(
            "type.googleapis.com/google.protobuf.UInt32Value",
        ),
        WireKind::UInt64Value => String::from_str(
            "type.googleapis.com/google.protobuf.UInt64Value",
        ),
        WireKind::FloatValue => String::from_str("type.googleapis.com/google.protobuf.FloatValue"),
        WireKind::DoubleValue => String::from_str(
            "type.googleapis.com/google.protobuf.DoubleValue",
        ),
        WireKind::StringValue => String::from_str(
            "type.googleapis.com/google.protobuf.StringValue",
        ),
        WireKind::BytesValue => String::from_str("type.googleapis.com/google.protobuf.BytesValue"),
        WireKind::Timestamp => String::from_str("type.googleapis.com/google.protobuf.Timestamp"),
    }
}

/// The wrapper type named by a type URL.
pub fn kind_of(type_url: &str) -> (r: Option<WireKind>)
    ensures
        r == kind_of_url(type_url@),
{
    if text_eq(type_url, kind_type_url(WireKind::Empty).as_str()) {
        return Some(WireKind::Empty);
    }
    if text_eq(type_url, kind_type_url(WireKind::BoolValue).as_str()) {
        return Some(WireKind::BoolValue);
    }
    if text_eq(type_url, kind_type_url(WireKind::Int32Value).as_str()) {
        return Some(WireKind::Int32Value);
    }
    if text_eq(type_url, kind_type_url(WireKind::Int64Value).as_str()) {
        return Some(WireKind::Int64Value);
    }
    if text_eq(type_url, kind_type_url(WireKind::UInt32Value).as_str()) {
        return Some(WireKind::UInt32Value);
    }
    if text_eq(type_url, kind_type_url(WireKind::UInt64Value).as_str()) {
        return Some(WireKind::UInt64Value);
    }
    if text_eq(type_url, kind_type_url(WireKind::FloatValue).as_str()) {
        return Some(WireKind::FloatValue);
    }
    if text_eq(type_url, kind_type_url(WireKind::DoubleValue).as_str()) {
        return Some(WireKind::DoubleValue);
    }
    if text_eq(type_url, kind_type_url(WireKind::StringValue).as_str()) {
        return Some(WireKind::StringValue);
    }
    if text_eq(type_url, kind_type_url(WireKind::BytesValue).as_str()) {
        return Some(WireKind::BytesValue);
    }
    if text_eq(type_url, kind_type_url(WireKind::Timestamp).as_str()) {
        return Some(WireKind::Timestamp);
    }
    None
}

/// Pushes the `k` low bytes of `x`, least significant first.
fn push_le(buf: &mut Vec<u8>, x: u64, k: usize)
    ensures
        final(buf)@ == old(buf)@ + le_bytes(x as nat, k as nat),
{
    let ghost start = buf@;
    let mut v: u64 = x;
    let mut i: usize = 0;
    while i < k
        invariant
            i <= k,
            start + le_bytes(x as nat, k as nat) == buf@ + le_bytes(v as nat, (k - i) as nat),
        decreases k - i,
    {
        let ghost before = buf@;
        buf.push((v % 256) as u8);
        assert(le_bytes(v as nat, (k - i) as nat) == seq![(v % 256) as u8] + le_bytes(
            (v / 256) as nat,
            (k - i - 1) as nat,
        ));
        assert(before + le_bytes(v as nat, (k - i) as nat) =~= buf@ + le_bytes(
            (v / 256) as nat,
            (k - i - 1) as nat,
        ));
        v = v / 256;
        i = i + 1;
    }
    assert(buf@ =~= start + le_bytes(x as nat, k as nat));
}

/// `256` to the power `n`.
pub open spec fn byte_power(n: nat) -> nat
    decreases n,
{
    if n == 0 {
        1
    } else {
        256 * byte_power((n - 1) as nat)
    }
}

proof fn lemma_le_value_bound(s: Seq<u8>)
    ensures
        le_value(s) < byte_power(s.len()),
    decreases s.len(),
{
    if s.len() > 0 {
        lemma_le_value_bound(s.drop_first());
        let p = byte_power((s.len() - 1) as nat);
        assert(s[0] as nat + 256 * le_value(s.drop_first()) < 256 * p) by (nonlinear_arith)
            requires s[0] < 256, le_value(s.drop_first()) < p;
    }
}

proof fn lemma_byte_power_le(n: nat)
    requires
        n <= 8,
    ensures
        byte_power(n) <= two64(),
    decreases 8 - n,
{
    if n < 8 {
        lemma_byte_power_le(n + 1);
        assert(byte_power(n + 1) == 256 * byte_power(n));
    } else {
        reveal_with_fuel(byte_power, 9);
    }
}

/// Reads little-endian bytes, at most eight of them.
fn read_le(d: &[u8]) -> (r: u64)
    requires
        d@.len() <= 8,
    ensures
        r as nat == le_value(d@),
        (r as nat) < byte_power(d@.len()),
{
    let mut acc: u64 = 0;
    let mut j: usize = d.len();
    while j > 0
        invariant
            j <= d@.len() <= 8,
            acc as nat == le_value(d@.subrange(j as int, d@.len() as int)),
        decreases j,
    {
        let ghost tail = d@.subrange(j as int, d@.len() as int);
        j = j - 1;
        let ghost s = d@.subrange(j as int, d@.len() as int);
        assert(s.drop_first() =~= tail);
        proof {
            lemma_le_value_bound(s);
            lemma_le_value_bound(tail);
            lemma_byte_power_le(s.len());
            assert(byte_power(s.len()) == 256 * byte_power(tail.len()));
        }
        acc = d[j] as u64 + 256 * acc;
    }
    assert(d@.subrange(0, d@.len() as int) =~= d@);
    proof {
        lemma_le_value_bound(d@);
    }
    acc
}

impl Value {
    /// Encodes the value as its wire envelope.
    pub fn to_any(&self) -> (r: WireEnvelope)
        ensures
            r@ == encode_spec(self@),
    {
        let kind = match self {
            Value::Null => WireKind::Empty,
            Value::Bool(_) => WireKind::BoolValue,
            Value::Int32(_) => WireKind::Int32Value,
            Value::Int64(_) => WireKind::Int64Value,
            Value::Float(_) => WireKind::FloatValue,
            Value::Double(_) => WireKind::DoubleValue,
            Value::String(_) => WireKind::StringValue,
            Value::Bytes(_) => WireKind::BytesValue,
            Value::Timestamp(_) => WireKind::Timestamp,
        };
        let mut buf: Vec<u8> = Vec::new();
        match self {
            Value::Null => {},
            Value::Bool(b) => {
                buf.push(0x08);
                buf.push(if *b { 1 } else { 0 });
            },
            Value::Int32(v) => {
                buf.push(0x08);
                encode_varint(&mut buf, *v as i64);
            },
            Value::Int64(v) => {
                buf.push(0x08);
                encode_varint(&mut buf, *v);
            },
            Value::Float(v) => {
                buf.push(0x0d);
                push_le(&mut buf, *v as u64, 4);
            },
            Value::Double(v) => {
                buf.push(0x09);
                push_le(&mut buf, *v, 8);
            },
            Value::String(v) => {
                let bytes = v.as_str().as_bytes_vec();
                buf.push(0x0a);
                encode_varint_usize(&mut buf, bytes.len());
                append_bytes(&mut buf, bytes.as_slice());
            },
            Value::Bytes(v) => {
                buf.push(0x0a);
                encode_varint_usize(&mut buf, v.len());
                append_bytes(&mut buf, v.as_slice());
            },
            Value::Timestamp(t) => {
                buf.push(0x08);
                encode_varint(&mut buf, t.seconds);
                buf.push(0x10);
                encode_varint(&mut buf, t.nanos as i64);
            },
        }
        assert(buf@ =~= payload_spec(self@));
        WireEnvelope { type_url: kind_type_url(kind), value: buf }
    }
}

/// Appends every byte of `src`.
fn append_bytes(buf: &mut Vec<u8>, src: &[u8])
    ensures
        final(buf)@ == old(buf)@ + src@,
{
    let ghost start = buf@;
    let mut i: usize = 0;
    while i < src.len()
        invariant
            i <= src@.len(),
            buf@ == start + src@.subrange(0, i as int),
        decreases src@.len() - i,
    {
        buf.push(src[i]);
        assert(src@.subrange(0, i + 1) =~= src@.subrange(0, i as int).push(src@[i as int]));
        i = i + 1;
    }
    assert(src@.subrange(0, i as int) =~= src@);
}

/// The payload after its tag byte.
fn skip_tag(data: &[u8]) -> (r: &[u8])
    ensures
        r@ == after_tag(data@),
{
    if data.len() >= 1 {
        &data[1..data.len()]
    } else {
        data
    }
}

/// The low 32 bits of a 64-bit pattern, as a signed integer.
fn low_i32(x: u64) -> (r: i32)
    ensures
        r as int == signed32(x as nat),
{
    let low: u64 = x % 0x1_0000_0000;
    if low < 0x8000_0000 {
        low as i32
    } else {
        ((low - 0x8000_0000) as i32 - i32::MAX) - 1
    }
}

/// A 64-bit pattern as a signed integer.
fn as_i64(x: u64) -> (r: i64)
    ensures
        r as int == signed64(x as nat),
{
    if x <= i64::MAX as u64 {
        x as i64
    } else {
        ((x - 0x8000_0000_0000_0000u64) as i64 - i64::MAX) - 1
    }
}

/// The length-delimited field of a payload, if all its bytes are there.
fn read_delimited(data: &[u8]) -> (r: Option<Vec<u8>>)
    ensures
        match r {
            Some(b) => delimited(data@) == Some(b@),
            None => delimited(data@) is None,
        },
{
    let total: usize = data.len();
    let rest = skip_tag(data);
    let (len, n) = read_varint(rest);
    proof {
        vstd::seq_lib::lemma_seq_skip_nothing(data@, 0);
    }
    let start: usize = 1 + n;
    if len as u128 + start as u128 <= total as u128 {
        let end: usize = start + len as usize;
        let mut out: Vec<u8> = Vec::new();
        append_bytes(&mut out, &data[start..end]);
        assert(out@ =~= data@.subrange(start as int, end as int));
        Some(out)
    } else {
        None
    }
}

impl Value {
    /// Decodes a wire envelope. Fails with `TypeConversion` on an unknown
    /// type URL, or on a timestamp whose seconds overflow once whole seconds
    /// are carried out of its nanoseconds.
    pub fn from_any(any: &WireEnvelope) -> (r: Result<Value>)
        ensures
            match r {
                Ok(v) => decode_spec(any.type_url@, any.value@) == Some(v@),
                Err(e) => decode_spec(any.type_url@, any.value@) is None && e is TypeConversion,
            },
    {
        let data: &[u8] = any.value.as_slice();
        let kind = kind_of(any.type_url.as_str());
        match kind {
            None => {
                let msg = String::from_str("Unsupported type: ").concat(any.type_url.as_str());
                Err(Error::TypeConversion(msg))
            },
            Some(WireKind::Empty) => Ok(Value::Null),
            Some(WireKind::BoolValue) => {
                if data.len() >= 2 {
                    Ok(Value::Bool(data[1] != 0))
                } else {
                    Ok(Value::Bool(false))
                }
            },
            Some(WireKind::Int32Value) | Some(WireKind::UInt32Value) => {
                let (x, _) = read_varint(skip_tag(data));
                Ok(Value::Int32(low_i32(x)))
            },
            Some(WireKind::Int64Value) | Some(WireKind::UInt64Value) => {
                let (x, _) = read_varint(skip_tag(data));
                Ok(Value::Int64(as_i64(x)))
            },
            Some(WireKind::FloatValue) => {
                if data.len() >= 5 {
                    let x = read_le(&data[1..5]);
                    proof {
                        reveal_with_fuel(byte_power, 5);
                    }
                    Ok(Value::Float(x as u32))
                } else {
                    Ok(Value::Float(0))
                }
            },
            Some(WireKind::DoubleValue) => {
                if data.len() >= 9 {
                    Ok(Value::Double(read_le(&data[1..9])))
                } else {
                    Ok(Value::Double(0))
                }
            },
            Some(WireKind::StringValue) => {
                match read_delimited(data) {
                    Some(b) => Ok(Value::String(lossy_text(b.as_slice()))),
                    None => Ok(Value::String(String::new())),
                }
            },
            Some(WireKind::BytesValue) => {
                match read_delimited(data) {
                    Some(b) => Ok(Value::Bytes(b)),
                    None => Ok(Value::Bytes(Vec::new())),
                }
            },
            Some(WireKind::Timestamp) => {
                let total = data.len();
                let (secs, n) = read_varint(skip_tag(data));
                let nanos: u32 = if total - n > 2 {
                    let (x, _) = read_varint(&data[n + 2..data.len()]);
                    (x % 0x1_0000_0000) as u32
                } else {
                    0
                };
                match Timestamp::new(as_i64(secs), nanos) {
                    Some(t) => Ok(Value::Timestamp(t)),
                    None => {
                        let msg = String::from_str("Timestamp out of range");
                        Err(Error::TypeConversion(msg))
                    },
                }
            },
        }
    }
}

/// Each wrapper type is found again from its own type URL.
pub proof fn lemma_kind_url_distinct(k: WireKind)
    ensures
        kind_of_url(kind_url(k)) == Some(k),
{
    reveal_strlit("type.googleapis.com/google.protobuf.Empty");
    reveal_strlit("type.googleapis.com/google.protobuf.BoolValue");
    reveal_strlit("type.googleapis.com/google.protobuf.Int32Value");
    reveal_strlit("type.googleapis.com/google.protobuf.Int64Value");
    reveal_strlit("type.googleapis.com/google.protobuf.UInt32Value");
    reveal_strlit("type.googleapis.com/google.protobuf.UInt64Value");
    reveal_strlit("type.googleapis.com/google.protobuf.FloatValue");
    reveal_strlit("type.googleapis.com/google.protobuf.DoubleValue");
    reveal_strlit("type.googleapis.com/google.protobuf.StringValue");
    reveal_strlit("type.googleapis.com/google.protobuf.BytesValue");
    reveal_strlit("type.googleapis.com/google.protobuf.Timestamp");
    assert(kind_url(WireKind::Empty).len() == 41 && kind_url(WireKind::Empty)[36] == 'E');
    assert(kind_url(WireKind::BoolValue).len() == 45 && kind_url(WireKind::BoolValue)[36] == 'B');
    assert(kind_url(WireKind::Int32Value).len() == 46 && kind_url(WireKind::Int32Value)[36] == 'I' && kind_url(WireKind::Int32Value)[39] == '3');
    assert(kind_url(WireKind::Int64Value).len() == 46 && kind_url(WireKind::Int64Value)[36] == 'I' && kind_url(WireKind::Int64Value)[39] == '6');
    assert(kind_url(WireKind::UInt32Value).len() == 47 && kind_url(WireKind::UInt32Value)[36] == 'U' && kind_url(WireKind::UInt32Value)[40] == '3');
    assert(kind_url(WireKind::UInt64Value).len() == 47 && kind_url(WireKind::UInt64Value)[36] == 'U' && kind_url(WireKind::UInt64Value)[40] == '6');
    assert(kind_url(WireKind::FloatValue).len() == 46 && kind_url(WireKind::FloatValue)[36] == 'F');
    assert(kind_url(WireKind::DoubleValue).len() == 47 && kind_url(WireKind::DoubleValue)[36] == 'D');
    assert(kind_url(WireKind::StringValue).len() == 47 && kind_url(WireKind::StringValue)[36] == 'S');
    assert(kind_url(WireKind::BytesValue).len() == 46 && kind_url(WireKind::BytesValue)[36] == 'B');
    assert(kind_url(WireKind::Timestamp).len() == 45 && kind_url(WireKind::Timestamp)[36] == 'T');
}

proof fn lemma_le_round_trip(x: nat, k: nat)
    requires
        x < byte_power(k),
    ensures
        le_value(le_bytes(x, k)) == x,
        le_bytes(x, k).len() == k,
    decreases k,
{
    if k > 0 {
        let s = le_bytes(x, k);
        assert(x / 256 < byte_power((k - 1) as nat)) by (nonlinear_arith)
            requires x < 256 * byte_power((k - 1) as nat);
        lemma_le_round_trip(x / 256, (k - 1) as nat);
        assert(s.drop_first() =~= le_bytes(x / 256, (k - 1) as nat));
        vstd::arithmetic::div_mod::lemma_fundamental_div_mod(x as int, 256);
    }
}

/// Decoding the envelope of any well-formed value gives the value back.
pub proof fn lemma_round_trip(v: ValueView)
    requires
        v.wf(),
    ensures
        decode_spec(encode_spec(v).0, encode_spec(v).1) == Some(v),
{
    lemma_kind_url_distinct(kind_for(v));
    let d = payload_spec(v);
    match v {
        ValueView::Null => {},
        ValueView::Bool(b) => {},
        ValueView::Int32(x) => {
            assert(after_tag(d) =~= varint_spec(twos(x as int)) + Seq::<u8>::empty());
            lemma_twos_signed64(x as int);
            lemma_varint_round_trip(twos(x as int), Seq::<u8>::empty());
            lemma_twos_signed32(x as int);
        },
        ValueView::Int64(x) => {
            assert(after_tag(d) =~= varint_spec(twos(x as int)) + Seq::<u8>::empty());
            lemma_twos_signed64(x as int);
            lemma_varint_round_trip(twos(x as int), Seq::<u8>::empty());
        },
        ValueView::Float(x) => {
            reveal_with_fuel(byte_power, 5);
            lemma_le_round_trip(x as nat, 4);
            assert(d.subrange(1, 5) =~= le_bytes(x as nat, 4));
        },
        ValueView::Double(x) => {
            lemma_byte_power_le(8);
            reveal_with_fuel(byte_power, 9);
            lemma_le_round_trip(x as nat, 8);
            assert(d.subrange(1, 9) =~= le_bytes(x as nat, 8));
        },
        ValueView::Text(s) => {
            let b = encode_utf8(s);
            assert(after_tag(d) =~= varint_spec(b.len()) + b);
            lemma_varint_round_trip(b.len(), b);
            let start = 1 + varint_spec(b.len()).len();
            assert(d.subrange(start as int, (start + b.len()) as int) =~= b);
            encode_utf8_valid_utf8(s);
            encode_utf8_decode_utf8(s);
        },
        ValueView::Bytes(b) => {
            assert(after_tag(d) =~= varint_spec(b.len()) + b);
            lemma_varint_round_trip(b.len(), b);
            let start = 1 + varint_spec(b.len()).len();
            assert(d.subrange(start as int, (start + b.len()) as int) =~= b);
        },
        ValueView::Timestamp(sec, n) => {
            let tail = seq![0x10u8] + varint_spec(n as nat);
            assert(after_tag(d) =~= varint_spec(twos(sec as int)) + tail);
            lemma_twos_signed64(sec as int);
            lemma_varint_round_trip(twos(sec as int), tail);
            lemma_varint_nonempty(n as nat);
            let at = 1 + varint_spec(twos(sec as int)).len() + 1;
            assert(d.skip(at as int) =~= varint_spec(n as nat) + Seq::<u8>::empty());
            lemma_varint_round_trip(n as nat, Seq::<u8>::empty());
            vstd::arithmetic::div_mod::lemma_small_mod(n as nat, 0x1_0000_0000);
            vstd::arithmetic::div_mod::lemma_small_mod(n as nat, 1_000_000_000);
        },
    }
}

impl From<bool> for Value {
    fn from(v: bool) -> (r: Value) {
        Value::Bool(v)
    }
}

impl vstd::std_specs::convert::FromSpecImpl<bool> for Value {
    open spec fn obeys_from_spec() -> bool {
        true
    }

    open spec fn from_spec(v: bool) -> Value {
        Value::Bool(v)
    }
}

impl From<i32> for Value {
    fn from(v: i32) -> (r: Value) {
        Value::Int32(v)
    }
}

impl vstd::std_specs::convert::FromSpecImpl<i32> for Value {
    open spec fn obeys_from_spec() -> bool {
        true
    }

    open spec fn from_spec(v: i32) -> Value {
        Value::Int32(v)
    }
}

impl From<i64> for Value {
    fn from(v: i64) -> (r: Value) {
        Value::Int64(v)
    }
}

impl vstd::std_specs::convert::FromSpecImpl<i64> for Value {
    open spec fn obeys_from_spec() -> bool {
        true
    }

    open spec fn from_spec(v: i64) -> Value {
        Value::Int64(v)
    }
}

impl From<String> for Value {
    fn from(v: String) -> (r: Value) {
        Value::String(v)
    }
}

impl vstd::std_specs::convert::FromSpecImpl<String> for Value {
    open spec fn obeys_from_spec() -> bool {
        true
    }

    open spec fn from_spec(v: String) -> Value {
        Value::String(v)
    }
}

impl From<Vec<u8>> for Value {
    fn from(v: Vec<u8>) -> (r: Value) {
        Value::Bytes(v)
    }
}

impl vstd::std_specs::convert::FromSpecImpl<Vec<u8>> for Value {
    open spec fn obeys_from_spec() -> bool {
        true
    }

    open spec fn from_spec(v: Vec<u8>) -> Value {
        Value::Bytes(v)
    }
}

impl From<Timestamp> for Value {
    fn from(v: Timestamp) -> (r: Value) {
        Value::Timestamp(v)
    }
}

impl vstd::std_specs::convert::FromSpecImpl<Timestamp> for Value {
    open spec fn obeys_from_spec() -> bool {
        true
    }

    open spec fn from_spec(v: Timestamp) -> Value {
        Value::Timestamp(v)
    }
}

/// A value as the local SQLite engine binds or returns it. Reals are held
/// as the bits of an `f64`; `Single` is an `f32` (its bits) still to be
/// widened to a real when bound.
#[derive(Debug, Clone, PartialEq)]
pub enum SqlValue {
    Null,
    Integer(i64),
    Real(u64),
    Single(u32),
    Text(String),
    Blob(Vec<u8>),
}

/// The engine value of a parameter.
pub open spec fn sql_of(value: Value) -> SqlValue {
    match value {
        Value::Null => SqlValue::Null,
        Value::Bool(b) => SqlValue::Integer(if b { 1 } else { 0 }),
        Value::Int32(v) => SqlValue::Integer(v as i64),
        Value::Int64(v) => SqlValue::Integer(v),
        Value::Float(v) => SqlValue::Single(v),
        Value::Double(v) => SqlValue::Real(v),
        Value::String(s) => SqlValue::Text(s),
        Value::Bytes(b) => SqlValue::Blob(b),
        Value::Timestamp(t) => SqlValue::Integer(t.seconds),
    }
}

/// The value of an engine column.
pub open spec fn value_of_sql(value: SqlValue) -> Value {
    match value {
        SqlValue::Null => Value::Null,
        SqlValue::Integer(v) => Value::Int64(v),
        SqlValue::Real(v) => Value::Double(v),
        SqlValue::Single(v) => Value::Float(v),
        SqlValue::Text(s) => Value::String(s),
        SqlValue::Blob(b) => Value::Bytes(b),
    }
}

/// The engine value a parameter is bound as: booleans as 0 or 1, integers
/// as they are, a timestamp as its whole seconds.
pub fn value_to_sqlite(value: Value) -> (r: SqlValue)
    ensures
        r == sql_of(value),
{
    match value {
        Value::Null => SqlValue::Null,
        Value::Bool(b) => SqlValue::Integer(if b { 1 } else { 0 }),
        Value::Int32(v) => SqlValue::Integer(v as i64),
        Value::Int64(v) => SqlValue::Integer(v),
        Value::Float(v) => SqlValue::Single(v),
        Value::Double(v) => SqlValue::Real(v),
        Value::String(s) => SqlValue::Text(s),
        Value::Bytes(b) => SqlValue::Blob(b),
        Value::Timestamp(t) => SqlValue::Integer(t.seconds),
    }
}

/// The value of a column the engine returned: integers as 64-bit
/// integers, reals as doubles, text as strings, blobs as bytes.
pub fn sqlite_to_value(value: SqlValue) -> (r: Value)
    ensures
        r == value_of_sql(value),
{
    match value {
        SqlValue::Null => Value::Null,
        SqlValue::Integer(v) => Value::Int64(v),
        SqlValue::Real(v) => Value::Double(v),
        SqlValue::Single(v) => Value::Float(v),
        SqlValue::Text(s) => Value::String(s),
        SqlValue::Blob(b) => Value::Bytes(b),
    }
}

} // verus!
