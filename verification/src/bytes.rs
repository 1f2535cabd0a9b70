//! Little-endian fields of binary structures.
use vstd::prelude::*;

verus! {

/// The two bytes of a 16-bit field.
pub open spec fn le16(n: int) -> Seq<u8> {
    seq![(n % 0x100) as u8, (n / 0x100 % 0x100) as u8]
}

/// The four bytes of a 32-bit field.
pub open spec fn le32(n: int) -> Seq<u8> {
    seq![
        (n % 0x100) as u8,
        (n / 0x100 % 0x100) as u8,
        (n / 0x1_0000 % 0x100) as u8,
        (n / 0x100_0000 % 0x100) as u8,
    ]
}

/// A signed 32-bit field as the unsigned one with the same bytes.
pub open spec fn unsigned32(n: int) -> int {
    if n < 0 {
        n + 0x1_0000_0000
    } else {
        n
    }
}

pub open spec fn zeros(n: nat) -> Seq<u8> {
    Seq::new(n, |i: int| 0u8)
}

/// The number in the four bytes from `at` on.
pub open spec fn read_le32(bytes: Seq<u8>, at: int) -> int {
    bytes[at] + 0x100 * bytes[at + 1] + 0x1_0000 * bytes[at + 2] + 0x100_0000 * bytes[at + 3]
}

/// The number in the two bytes from `at` on.
pub open spec fn read_le16(bytes: Seq<u8>, at: int) -> int {
    bytes[at] + 0x100 * bytes[at + 1]
}

/// A 32-bit field reads back as the number that was written.
pub proof fn law_le32_reads_back(n: int)
    requires
        0 <= n <= u32::MAX,
    ensures
        read_le32(le32(n), 0) == n,
        le32(n).len() == 4,
{
    lemma_four_bytes(n);
}

proof fn lemma_four_bytes(n: int)
    requires
        0 <= n <= u32::MAX,
    ensures
        n % 0x100 + 0x100 * (n / 0x100 % 0x100) + 0x1_0000 * (n / 0x1_0000 % 0x100) + 0x100_0000 * (n
            / 0x100_0000 % 0x100) == n,
{
    let (a, b, c) = (n / 0x100, n / 0x1_0000, n / 0x100_0000);
    assert(b == a / 0x100);
    assert(c == b / 0x100);
    assert(0 <= c < 0x100);
}

/// A 32-bit field within other data reads back as the number that was written.
pub proof fn lemma_field_reads_back(data: Seq<u8>, at: int, n: int)
    requires
        0 <= n <= u32::MAX,
        0 <= at,
        at + 4 <= data.len(),
        data.subrange(at, at + 4) == le32(n),
    ensures
        read_le32(data, at) == n,
{
    let part = data.subrange(at, at + 4);
    law_le32_reads_back(n);
    assert(part[0] == data[at] && part[1] == data[at + 1]);
    assert(part[2] == data[at + 2] && part[3] == data[at + 3]);
}

/// A 16-bit field reads back as the number that was written.
pub proof fn law_le16_reads_back(n: int)
    requires
        0 <= n <= u16::MAX,
    ensures
        read_le16(le16(n), 0) == n,
        le16(n).len() == 2,
{
}

pub fn push_u16(out: &mut Vec<u8>, n: u16)
    ensures
        final(out)@ == old(out)@ + le16(n as int),
{
    out.push((n % 0x100) as u8);
    out.push((n / 0x100 % 0x100) as u8);
    assert(out@ =~= old(out)@ + le16(n as int));
}

pub fn push_u32(out: &mut Vec<u8>, n: u32)
    ensures
        final(out)@ == old(out)@ + le32(n as int),
{
    out.push((n % 0x100) as u8);
    out.push((n / 0x100 % 0x100) as u8);
    out.push((n / 0x1_0000 % 0x100) as u8);
    out.push((n / 0x100_0000 % 0x100) as u8);
    assert(out@ =~= old(out)@ + le32(n as int));
}

pub fn push_i32(out: &mut Vec<u8>, n: i32)
    ensures
        final(out)@ == old(out)@ + le32(unsigned32(n as int)),
{
    let bits: u32 = if n < 0 {
        (n as i64 + 0x1_0000_0000) as u32
    } else {
        n as u32
    };
    push_u32(out, bits);
}

pub fn push_zeros(out: &mut Vec<u8>, n: usize)
    ensures
        final(out)@ == old(out)@ + zeros(n as nat),
{
    let mut i: usize = 0;
    let ghost start = out@;
    assert(out@ =~= start + zeros(0));
    while i < n
        invariant
            i <= n,
            out@ == start + zeros(i as nat),
        decreases n - i,
    {
        out.push(0);
        i += 1;
        assert(out@ =~= start + zeros(i as nat));
    }
}

pub fn push_slice(out: &mut Vec<u8>, more: &[u8])
    ensures
        final(out)@ == old(out)@ + more@,
{
    out.extend_from_slice(more);
}

/// Reads the 32-bit field at `at`.
pub fn read_u32(bytes: &[u8], at: usize) -> (n: u32)
    requires
        at + 4 <= bytes.len(),
    ensures
        n == read_le32(bytes@, at as int),
{
    bytes[at] as u32 + 0x100 * (bytes[at + 1] as u32) + 0x1_0000 * (bytes[at + 2] as u32)
        + 0x100_0000 * (bytes[at + 3] as u32)
}

/// Numbers are written with their lowest byte first and read the same way.
pub proof fn law_the_lowest_byte_comes_first(
    short: &mut Vec<u8>,
    long: &mut Vec<u8>,
    signed: &mut Vec<u8>,
    n: u16,
    m: u32,
    k: i32,
)
    requires
        call_ensures(push_u16, (short, n), ()),
        call_ensures(push_u32, (long, m), ()),
        call_ensures(push_i32, (signed, k), ()),
    ensures
        ({
            let at = old(short)@.len() as int;
            let out = final(short)@;
            &&& out.len() == at + 2
            &&& out.take(at) == old(short)@
            &&& out[at] + 256 * out[at + 1] == n
        }),
        ({
            let at = old(long)@.len() as int;
            let out = final(long)@;
            &&& out.len() == at + 4
            &&& out.take(at) == old(long)@
            &&& out[at] + 256 * out[at + 1] + 65_536 * out[at + 2] + 16_777_216 * out[at + 3] == m
        }),
        ({
            let at = old(signed)@.len() as int;
            let out = final(signed)@;
            &&& out.len() == at + 4
            &&& out.take(at) == old(signed)@
            &&& out[at] + 256 * out[at + 1] + 65_536 * out[at + 2] + 16_777_216 * out[at + 3] == (
            if k < 0 {
                k + 4_294_967_296
            } else {
                k as int
            })
        }),
{
    assert(final(short)@.take(old(short)@.len() as int) =~= old(short)@);
    assert(final(long)@.take(old(long)@.len() as int) =~= old(long)@);
    assert(final(signed)@.take(old(signed)@.len() as int) =~= old(signed)@);
    lemma_four_bytes(m as int);
    lemma_four_bytes(unsigned32(k as int));
}

/// A number is read from four bytes, the lowest first.
pub proof fn law_numbers_are_read_lowest_byte_first(bytes: &[u8], at: usize, n: u32)
    requires
        call_ensures(read_u32, (bytes, at), n),
        at + 4 <= bytes@.len(),
    ensures
        n == bytes@[at as int] + 256 * bytes@[at + 1] + 65_536 * bytes@[at + 2] + 16_777_216
            * bytes@[at + 3],
{
}

/// Zeros are appended as zeros, and nothing before them changes.
pub proof fn law_padding_is_zero(out: &mut Vec<u8>, n: usize)
    requires
        call_ensures(push_zeros, (out, n), ()),
    ensures
        final(out)@.len() == old(out)@.len() + n,
        final(out)@.take(old(out)@.len() as int) == old(out)@,
        forall|i: int|
            #![trigger final(out)@[i]]
            old(out)@.len() <= i < final(out)@.len() ==> final(out)@[i] == 0,
{
    assert(final(out)@.take(old(out)@.len() as int) =~= old(out)@);
}

} // verus!
