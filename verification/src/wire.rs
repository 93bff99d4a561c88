//! Little-endian integers in byte buffers.
//!
//! The reading and writing itself is done by the `byteorder` crate; this
//! module states what those calls do, over [`le_u16`] and [`le_u32`].
use vstd::prelude::*;

use byteorder::{ByteOrder, LittleEndian};

verus! {

/// The number that two bytes hold in little-endian order.
pub open spec fn le_u16(b0: u8, b1: u8) -> int {
    b0 as int + 256 * (b1 as int)
}

/// The number that four bytes hold in little-endian order.
pub open spec fn le_u32(b0: u8, b1: u8, b2: u8, b3: u8) -> int {
    b0 as int + 256 * (b1 as int) + 65536 * (b2 as int) + 16777216 * (b3 as int)
}

/// Byte `i` (0 is the lowest) of a number.
pub open spec fn byte_of(v: int, i: nat) -> u8 {
    if i == 0 {
        (v % 256) as u8
    } else if i == 1 {
        ((v / 256) % 256) as u8
    } else if i == 2 {
        ((v / 65536) % 256) as u8
    } else {
        ((v / 16777216) % 256) as u8
    }
}

/// The two bytes of a 16-bit number, lowest first.
pub open spec fn u16_bytes(v: u16) -> Seq<u8> {
    seq![byte_of(v as int, 0), byte_of(v as int, 1)]
}

/// The four bytes of a 32-bit number, lowest first.
pub open spec fn u32_bytes(v: u32) -> Seq<u8> {
    seq![byte_of(v as int, 0), byte_of(v as int, 1), byte_of(v as int, 2), byte_of(v as int, 3)]
}

/// The 16-bit number at the start of a byte sequence.
pub open spec fn u16_at(s: Seq<u8>, at: int) -> u16
    recommends
        0 <= at,
        at + 2 <= s.len(),
{
    le_u16(s[at], s[at + 1]) as u16
}

/// The 32-bit number at an offset of a byte sequence.
pub open spec fn u32_at(s: Seq<u8>, at: int) -> u32
    recommends
        0 <= at,
        at + 4 <= s.len(),
{
    le_u32(s[at], s[at + 1], s[at + 2], s[at + 3]) as u32
}

/// The bit pattern of a signed number, in two's complement.
pub open spec fn bits_of_i32(v: i32) -> u32 {
    if v >= 0 {
        v as u32
    } else {
        (v + 0x1_0000_0000) as u32
    }
}

/// The signed number that a bit pattern stands for, in two's complement.
pub open spec fn i32_of_bits(u: u32) -> i32 {
    if u < 0x8000_0000 {
        u as i32
    } else {
        (u - 0x1_0000_0000) as i32
    }
}

/// A byte sequence with `part` written over it from offset `at` on.
pub open spec fn overwrite(s: Seq<u8>, at: int, part: Seq<u8>) -> Seq<u8>
    recommends
        0 <= at,
        at + part.len() <= s.len(),
{
    s.subrange(0, at) + part + s.subrange(at + part.len(), s.len() as int)
}

/// `LittleEndian::read_u16` of `byteorder` on the bytes from `at` on: the
/// first two of them, the lower byte first. The crate panics on fewer
/// than two bytes, which `requires` leaves out.
#[verifier::external_body]
pub(crate) fn read_u16_le(buf: &[u8], at: usize) -> (r: u16)
    requires
        at + 2 <= buf@.len(),
    ensures
        r == u16_at(buf@, at as int),
{
    LittleEndian::read_u16(&buf[at..])
}

/// `LittleEndian::read_u32` of `byteorder` on the bytes from `at` on: the
/// first four of them, the lowest byte first. The crate panics on fewer
/// than four bytes, which `requires` leaves out.
#[verifier::external_body]
pub(crate) fn read_u32_le(buf: &[u8], at: usize) -> (r: u32)
    requires
        at + 4 <= buf@.len(),
    ensures
        r == u32_at(buf@, at as int),
{
    LittleEndian::read_u32(&buf[at..])
}

/// `LittleEndian::read_i32` of `byteorder`: what `read_u32` gives, taken
/// as a signed number in two's complement.
#[verifier::external_body]
pub(crate) fn read_i32_le(buf: &[u8], at: usize) -> (r: i32)
    requires
        at + 4 <= buf@.len(),
    ensures
        r == i32_of_bits(u32_at(buf@, at as int)),
{
    LittleEndian::read_i32(&buf[at..])
}

/// `LittleEndian::write_u16` of `byteorder` on the bytes from `at` on: it
/// sets the first two of them to the number's bytes, the lower first, and
/// leaves the others as they are. The crate panics on fewer than two
/// bytes, which `requires` leaves out.
#[verifier::external_body]
pub(crate) fn write_u16_le(buf: &mut [u8], at: usize, v: u16)
    requires
        at + 2 <= old(buf)@.len(),
    ensures
        final(buf)@ == overwrite(old(buf)@, at as int, u16_bytes(v)),
{
    LittleEndian::write_u16(&mut buf[at..], v)
}

/// `LittleEndian::write_u32` of `byteorder` on the bytes from `at` on: it
/// sets the first four of them to the number's bytes, the lowest first,
/// and leaves the others as they are. The crate panics on fewer than four
/// bytes, which `requires` leaves out.
#[verifier::external_body]
pub(crate) fn write_u32_le(buf: &mut [u8], at: usize, v: u32)
    requires
        at + 4 <= old(buf)@.len(),
    ensures
        final(buf)@ == overwrite(old(buf)@, at as int, u32_bytes(v)),
{
    LittleEndian::write_u32(&mut buf[at..], v)
}

/// `LittleEndian::write_i32` of `byteorder`: `write_u32` of the number's
/// bit pattern in two's complement.
#[verifier::external_body]
pub(crate) fn write_i32_le(buf: &mut [u8], at: usize, v: i32)
    requires
        at + 4 <= old(buf)@.len(),
    ensures
        final(buf)@ == overwrite(old(buf)@, at as int, u32_bytes(bits_of_i32(v))),
{
    LittleEndian::write_i32(&mut buf[at..], v)
}

/// A buffer of `n` zero bytes.
pub fn zeroed(n: usize) -> (r: Vec<u8>)
    ensures
        r@.len() == n,
        forall|i: int| 0 <= i < n ==> r@[i] == 0,
{
    let mut out: Vec<u8> = Vec::new();
    let mut i: usize = 0;
    while i < n
        invariant
            i <= n,
            out@.len() == i,
            forall|j: int| 0 <= j < i ==> out@[j] == 0,
        decreases n - i,
    {
        out.push(0);
        i = i + 1;
    }
    out
}

/// Copies `part` into `buf` from offset `at` on.
pub fn write_bytes(buf: &mut [u8], at: usize, part: &[u8])
    requires
        at + part@.len() <= old(buf)@.len(),
    ensures
        final(buf)@ == overwrite(old(buf)@, at as int, part@),
{
    let n = part.len();
    let total = buf.len();
    let mut i: usize = 0;
    while i < n
        invariant
            n == part@.len(),
            total == buf@.len(),
            i <= n,
            at + n <= buf@.len(),
            buf@.len() == old(buf)@.len(),
            buf@ == overwrite(old(buf)@, at as int, part@.subrange(0, i as int)),
        decreases n - i,
    {
        buf[at + i] = part[i];
        i = i + 1;
    }
    assert(part@.subrange(0, n as int) == part@);
}

/// Writes the header of an option into `buf` from offset `at` on: its
/// kind and the length of its payload.
pub fn write_header(buf: &mut [u8], at: usize, kind: u16, len: u16)
    requires
        at + 4 <= old(buf)@.len(),
    ensures
        final(buf)@ == overwrite(old(buf)@, at as int, u16_bytes(kind) + u16_bytes(len)),
{
    assert(old(buf)@.len() <= usize::MAX) by {
        vstd::slice::axiom_spec_len(old(buf));
    }
    write_u16_le(buf, at, kind);
    write_u16_le(buf, at + 2, len);
    proof {
        lemma_overwrite_append(old(buf)@, at as int, u16_bytes(kind), u16_bytes(len));
    }
}

/// Writing one part and then another right behind it is writing both.
pub proof fn lemma_overwrite_append(s: Seq<u8>, at: int, a: Seq<u8>, b: Seq<u8>)
    requires
        0 <= at,
        at + a.len() + b.len() <= s.len(),
    ensures
        overwrite(overwrite(s, at, a), at + a.len(), b) == overwrite(s, at, a + b),
        overwrite(s, at, a).len() == s.len(),
{
}

/// A number is what its own bytes hold.
pub proof fn lemma_u16_bytes(v: u16)
    ensures
        le_u16(byte_of(v as int, 0), byte_of(v as int, 1)) == v,
        u16_bytes(v).len() == 2,
{
    assert((v % 256) + 256 * ((v / 256) % 256) == v) by (bit_vector);
}

/// A number is what its own bytes hold.
pub proof fn lemma_u32_bytes(v: u32)
    ensures
        le_u32(byte_of(v as int, 0), byte_of(v as int, 1), byte_of(v as int, 2), byte_of(v as int, 3))
            == v,
        u32_bytes(v).len() == 4,
{
    assert((v % 256) + 256 * ((v / 256) % 256) + 65536 * ((v / 65536) % 256) + 16777216 * ((v
        / 16777216) % 256) == v) by (bit_vector);
}

/// Bytes are the bytes of the number that they hold.
pub proof fn lemma_le_u32_bytes(b0: u8, b1: u8, b2: u8, b3: u8)
    ensures
        0 <= le_u32(b0, b1, b2, b3) <= u32::MAX,
        byte_of(le_u32(b0, b1, b2, b3), 0) == b0,
        byte_of(le_u32(b0, b1, b2, b3), 1) == b1,
        byte_of(le_u32(b0, b1, b2, b3), 2) == b2,
        byte_of(le_u32(b0, b1, b2, b3), 3) == b3,
{
    let w = le_u32(b0, b1, b2, b3) as u32;
    assert(w == le_u32(b0, b1, b2, b3));
    assert(w % 256 == b0 && (w / 256) % 256 == b1 && (w / 65536) % 256 == b2 && (w / 16777216)
        % 256 == b3) by (bit_vector)
        requires
            w == b0 as u32 + 256 * (b1 as u32) + 65536 * (b2 as u32) + 16777216 * (b3 as u32),
    ;
}

/// A signed number is what its own bit pattern stands for.
pub proof fn lemma_i32_bits(v: i32)
    ensures
        i32_of_bits(bits_of_i32(v)) == v,
{
}

/// The number that bytes hold in little-endian order.
pub open spec fn le_value(s: Seq<u8>) -> nat
    decreases s.len(),
{
    if s.len() == 0 {
        0
    } else {
        s[0] as nat + 256 * le_value(s.drop_first())
    }
}

/// The lowest `n` bytes of a number, lowest first.
pub open spec fn le_bytes(v: nat, n: nat) -> Seq<u8>
    decreases n,
{
    if n == 0 {
        Seq::empty()
    } else {
        seq![(v % 256) as u8] + le_bytes(v / 256, (n - 1) as nat)
    }
}

/// A number without its lowest `n` bytes.
pub open spec fn without_low_bytes(v: nat, n: nat) -> nat
    decreases n,
{
    if n == 0 {
        v
    } else {
        without_low_bytes(v / 256, (n - 1) as nat)
    }
}

/// The weight of byte `n` of a number: 256 to the power of `n`.
pub open spec fn byte_weight(n: nat) -> nat
    decreases n,
{
    if n == 0 {
        1
    } else {
        256 * byte_weight((n - 1) as nat)
    }
}

/// The weight of a byte grows with its position.
pub proof fn lemma_byte_weight_grows(a: nat, b: nat)
    requires
        a <= b,
    ensures
        0 < byte_weight(a) <= byte_weight(b),
    decreases b,
{
    if b == 0 {
    } else if a == b {
        lemma_byte_weight_grows(0, (b - 1) as nat);
    } else {
        lemma_byte_weight_grows(a, (b - 1) as nat);
    }
}

/// Reads a 128-bit number from the sixteen bytes from `at` on, the
/// lowest byte first.
pub fn read_u128_le(buf: &[u8], at: usize) -> (r: u128)
    requires
        at + 16 <= buf@.len(),
    ensures
        r == le_value(buf@.subrange(at as int, at + 16)),
{
    let total = buf.len();
    let mut v: u128 = 0;
    let mut i: usize = 16;
    assert(byte_weight(16) == 0x1_0000_0000_0000_0000_0000_0000_0000_0000) by {
        reveal_with_fuel(byte_weight, 17);
    }
    assert(buf@.subrange(at + 16, at + 16).len() == 0);
    while i > 0
        invariant
            i <= 16,
            total == buf@.len(),
            at + 16 <= total,
            byte_weight(16) == 0x1_0000_0000_0000_0000_0000_0000_0000_0000,
            v == le_value(buf@.subrange(at + i, at + 16)),
            v < byte_weight((16 - i) as nat),
        decreases i,
    {
        i = i - 1;
        proof {
            let s = buf@.subrange(at + i, at + 16);
            assert(s.drop_first() == buf@.subrange(at + i + 1, at + 16));
            assert(s[0] == buf@[at + i]);
            lemma_byte_weight_grows((16 - i) as nat, 16);
            assert(byte_weight((16 - i) as nat) == 256 * byte_weight((15 - i) as nat));
        }
        v = v * 256 + buf[at + i] as u128;
    }
    v
}

/// Writes a 128-bit number into the sixteen bytes from `at` on, the
/// lowest byte first, and leaves the other bytes as they are.
pub fn write_u128_le(buf: &mut [u8], at: usize, v: u128)
    requires
        at + 16 <= old(buf)@.len(),
    ensures
        final(buf)@ == overwrite(old(buf)@, at as int, le_bytes(v as nat, 16)),
{
    let total = buf.len();
    let mut rest: u128 = v;
    let mut i: usize = 0;
    let ghost mut written: Seq<u8> = Seq::empty();
    assert(buf@ == overwrite(old(buf)@, at as int, written));
    assert(written + le_bytes(rest as nat, 16) == le_bytes(v as nat, 16));
    while i < 16
        invariant
            i <= 16,
            total == buf@.len(),
            total == old(buf)@.len(),
            at + 16 <= total,
            written.len() == i,
            written + le_bytes(rest as nat, (16 - i) as nat) == le_bytes(v as nat, 16),
            buf@ == overwrite(old(buf)@, at as int, written),
        decreases 16 - i,
    {
        let low = (rest % 256) as u8;
        proof {
            let tail = le_bytes((rest / 256) as nat, (15 - i) as nat);
            assert(le_bytes(rest as nat, (16 - i) as nat) == seq![low] + tail);
            assert(written.push(low) + tail == written + (seq![low] + tail));
            lemma_overwrite_append(old(buf)@, at as int, written, seq![low]);
            assert(written + seq![low] == written.push(low));
            written = written.push(low);
        }
        buf[at + i] = low;
        assert(buf@ == overwrite(old(buf)@, at as int, written));
        rest = rest / 256;
        i = i + 1;
    }
    assert(le_bytes(rest as nat, 0) == Seq::<u8>::empty());
    assert(written + Seq::<u8>::empty() == written);
}

/// The lowest `n` bytes of a number are `n` bytes.
pub proof fn lemma_le_bytes_len(v: nat, n: nat)
    ensures
        le_bytes(v, n).len() == n,
    decreases n,
{
    if n > 0 {
        lemma_le_bytes_len(v / 256, (n - 1) as nat);
    }
}

/// A number is what its lowest `n` bytes hold and what is left of it
/// without them, at the weight of byte `n`.
pub proof fn lemma_le_split(v: nat, n: nat)
    ensures
        le_value(le_bytes(v, n)) + byte_weight(n) * without_low_bytes(v, n) == v,
    decreases n,
{
    if n > 0 {
        let m = (n - 1) as nat;
        let rest = le_bytes(v / 256, m);
        let all = le_bytes(v, n);
        lemma_le_split(v / 256, m);
        assert(all.drop_first() == rest);
        assert(all[0] == (v % 256) as u8);
        let low = le_value(rest);
        let high = without_low_bytes(v / 256, m);
        let w = byte_weight(m);
        assert(le_value(all) == (v % 256) + 256 * low);
        assert(byte_weight(n) == 256 * w);
        assert(without_low_bytes(v, n) == high);
        assert(low + w * high == v / 256);
        assert(256 * (w * high) == (256 * w) * high) by (nonlinear_arith);
        assert(256 * (low + w * high) == 256 * low + 256 * (w * high)) by (nonlinear_arith);
        assert(v == v % 256 + 256 * (v / 256));
    } else {
        assert(le_bytes(v, n).len() == 0);
        assert(byte_weight(0) * without_low_bytes(v, 0) == v) by (nonlinear_arith)
            requires
                byte_weight(0) == 1,
                without_low_bytes(v, 0) == v,
        ;
    }
}

/// A number of 128 bits is what its sixteen bytes hold.
pub proof fn lemma_u128_bytes(v: u128)
    ensures
        le_value(le_bytes(v as nat, 16)) == v,
        le_bytes(v as nat, 16).len() == 16,
{
    lemma_le_bytes_len(v as nat, 16);
    lemma_le_split(v as nat, 16);
    assert(without_low_bytes(v as nat, 16) == 0) by {
        reveal_with_fuel(without_low_bytes, 17);
    }
    assert(byte_weight(16) * 0 == 0);
}

} // verus!
