//! Byte sequences: little-endian numbers, zero padding, and writes into the middle of a buffer.
use crate::utils;
use crate::utils::bufcopy;
use vstd::prelude::*;

verus! {

/// `n` zero bytes.
pub open spec fn zeros(n: nat) -> Seq<u8> {
    Seq::new(n, |i: int| 0u8)
}

/// `x` as two bytes, the least significant first.
pub open spec fn le16(x: u16) -> Seq<u8> {
    seq![(x % 0x100) as u8, (x / 0x100) as u8]
}

/// `x` as four bytes, the least significant first.
pub open spec fn le32(x: u32) -> Seq<u8> {
    seq![
        (x % 0x100) as u8,
        (x / 0x100 % 0x100) as u8,
        (x / 0x1_0000 % 0x100) as u8,
        (x / 0x100_0000) as u8,
    ]
}

/// The number that four bytes spell, the least significant first.
pub open spec fn from_le32(b: Seq<u8>) -> int {
    b[0] + 0x100 * b[1] + 0x1_0000 * b[2] + 0x100_0000 * b[3]
}

/// Reading back the four bytes of a number gives the number.
pub proof fn law_le32_reads_back(x: u32)
    ensures
        le32(x).len() == 4,
        from_le32(le32(x)) == x,
{
}

/// `buf` with the bytes from `at` on replaced by `v`.
pub open spec fn splice(buf: Seq<u8>, at: int, v: Seq<u8>) -> Seq<u8> {
    Seq::new(buf.len(), |i: int| if at <= i < at + v.len() { v[i - at] } else { buf[i] })
}

/// A field of `n` bytes that begins with `v`, cut off where the field ends, and is zero after it.
pub open spec fn padded(v: Seq<u8>, n: nat) -> Seq<u8> {
    utils::overlay(zeros(n), v)
}

/// A field gives back what it was filled with, as far as it has room for it, and is zero after it.
pub proof fn law_padded_reads_back(v: Seq<u8>, n: nat)
    ensures
        padded(v, n).len() == n,
        v.len() <= n ==> padded(v, n) == v + zeros((n - v.len()) as nat),
        v.len() > n ==> padded(v, n) == v.take(n as int),
{
    if v.len() <= n {
        assert(padded(v, n) =~= v + zeros((n - v.len()) as nat));
    } else {
        assert(padded(v, n) =~= v.take(n as int));
    }
}

/// A write inside a part of the buffer that was just written is a write inside that part.
pub proof fn lemma_splice_inside(buf: Seq<u8>, at: int, part: Seq<u8>, k: int, v: Seq<u8>)
    requires
        0 <= k,
        k + v.len() <= part.len(),
    ensures
        splice(splice(buf, at, part), at + k, v) == splice(buf, at, splice(part, k, v)),
{
    assert(splice(splice(buf, at, part), at + k, v) =~= splice(buf, at, splice(part, k, v)));
}

/// The four bytes of `x`, the least significant first.
pub(crate) fn u32_le(x: u32) -> (res: [u8; 4])
    ensures
        res@ == le32(x),
{
    let res: [u8; 4] = [
        (x % 0x100) as u8,
        (x / 0x100 % 0x100) as u8,
        (x / 0x1_0000 % 0x100) as u8,
        (x / 0x100_0000) as u8,
    ];
    assert(res@ =~= le32(x));
    res
}

/// The two bytes of `x`, the least significant first.
pub(crate) fn u16_le(x: u16) -> (res: [u8; 2])
    ensures
        res@ == le16(x),
{
    let res: [u8; 2] = [(x % 0x100) as u8, (x / 0x100) as u8];
    assert(res@ =~= le16(x));
    res
}

/// Writes `v` into `buf`, from `at` on.
pub(crate) fn write_at(buf: &mut [u8], at: usize, v: &[u8])
    requires
        at + v@.len() <= old(buf)@.len(),
    ensures
        final(buf)@ == splice(old(buf)@, at as int, v@),
{
    let ghost before = buf@;
    let (front, back) = buf.split_at_mut(at);
    bufcopy(back, v);
    assert(before.subrange(0, at as int) + utils::overlay(
        before.subrange(at as int, before.len() as int),
        v@,
    ) =~= splice(before, at as int, v@));
}

/// Clears the `n` bytes of `buf` from `at` on.
pub(crate) fn clear_at(buf: &mut [u8], at: usize, n: usize)
    requires
        at + n <= old(buf)@.len(),
    ensures
        final(buf)@ == splice(old(buf)@, at as int, zeros(n as nat)),
{
    let len: usize = buf.len();
    let mut i: usize = 0;
    while i < n
        invariant
            i <= n,
            at + n <= len,
            len == buf@.len(),
            buf@ == splice(old(buf)@, at as int, zeros(i as nat)),
        decreases n - i,
    {
        buf[at + i] = 0;
        i = i + 1;
        assert(buf@ =~= splice(old(buf)@, at as int, zeros(i as nat)));
    }
}

/// Appends `v`.
pub(crate) fn push_slice(out: &mut Vec<u8>, v: &[u8])
    ensures
        final(out)@ == old(out)@ + v@,
{
    let mut i: usize = 0;
    assert(out@ =~= old(out)@ + v@.take(0));
    while i < v.len()
        invariant
            i <= v@.len(),
            out@ == old(out)@ + v@.take(i as int),
        decreases v@.len() - i,
    {
        out.push(v[i]);
        i = i + 1;
        assert(out@ =~= old(out)@ + v@.take(i as int));
    }
    assert(v@.take(i as int) =~= v@);
}

/// Appends the two bytes of `x`.
pub(crate) fn push_u16(out: &mut Vec<u8>, x: u16)
    ensures
        final(out)@ == old(out)@ + le16(x),
{
    push_slice(out, &u16_le(x));
}

/// Appends the four bytes of `x`.
pub(crate) fn push_u32(out: &mut Vec<u8>, x: u32)
    ensures
        final(out)@ == old(out)@ + le32(x),
{
    push_slice(out, &u32_le(x));
}

/// Appends `n` zero bytes.
pub(crate) fn push_zeros(out: &mut Vec<u8>, n: usize)
    ensures
        final(out)@ == old(out)@ + zeros(n as nat),
{
    let mut i: usize = 0;
    assert(out@ =~= old(out)@ + zeros(0));
    while i < n
        invariant
            i <= n,
            out@ == old(out)@ + zeros(i as nat),
        decreases n - i,
    {
        out.push(0);
        i = i + 1;
        assert(out@ =~= old(out)@ + zeros(i as nat));
    }
}

/// Appends a field of `n` bytes that begins with `v`.
pub(crate) fn push_padded(out: &mut Vec<u8>, v: &[u8], n: usize)
    ensures
        final(out)@ == old(out)@ + padded(v@, n as nat),
{
    let l: usize = if v.len() < n { v.len() } else { n };
    push_slice(out, &v[0..l]);
    push_zeros(out, n - l);
    assert(out@ =~= old(out)@ + padded(v@, n as nat));
}

/// The numbers in `v`, four bytes each.
pub open spec fn le32_all(v: Seq<u32>) -> Seq<u8>
    decreases v.len(),
{
    if v.len() == 0 {
        seq![]
    } else {
        le32_all(v.drop_last()) + le32(v.last())
    }
}

/// Appends the four bytes of each number in `v`.
pub(crate) fn push_all_u32(out: &mut Vec<u8>, v: &[u32])
    ensures
        final(out)@ == old(out)@ + le32_all(v@),
{
    let mut i: usize = 0;
    assert(out@ =~= old(out)@ + le32_all(v@.take(0)));
    while i < v.len()
        invariant
            i <= v@.len(),
            out@ == old(out)@ + le32_all(v@.take(i as int)),
        decreases v@.len() - i,
    {
        push_u32(out, v[i]);
        assert(v@.take(i + 1).drop_last() =~= v@.take(i as int));
        i = i + 1;
        assert(out@ =~= old(out)@ + le32_all(v@.take(i as int)));
    }
    assert(v@.take(i as int) =~= v@);
}

/// Whether `v` stands in `image` from `at` on.
pub open spec fn holds_at(image: Seq<u8>, at: int, v: Seq<u8>) -> bool {
    &&& 0 <= at
    &&& at + v.len() <= image.len()
    &&& image.subrange(at, at + v.len()) == v
}

/// What is appended to the first `at` bytes stands there, and what stood there before stays.
pub proof fn lemma_append(image: Seq<u8>, at: int, v: Seq<u8>)
    requires
        image.len() == at,
    ensures
        (image + v).len() == at + v.len(),
        holds_at(image + v, at, v),
        forall|k: int, u: Seq<u8>| #[trigger]
            holds_at(image, k, u) ==> holds_at(image + v, k, u),
{
    assert((image + v).subrange(at, at + v.len()) =~= v);
    assert forall|k: int, u: Seq<u8>| #[trigger] holds_at(image, k, u) implies holds_at(
        image + v,
        k,
        u,
    ) by {
        assert((image + v).subrange(k, k + u.len()) =~= image.subrange(k, k + u.len()));
    }
}

/// The first bytes stand at the start.
pub proof fn lemma_first(v: Seq<u8>)
    ensures
        holds_at(v, 0, v),
{
    assert(v.subrange(0, v.len() as int) =~= v);
}

/// What stands in a part of the block stands in the block.
pub proof fn lemma_part_at(image: Seq<u8>, at: int, part: Seq<u8>)
    requires
        holds_at(image, at, part),
    ensures
        forall|k: int, v: Seq<u8>| #[trigger]
            holds_at(part, k, v) ==> holds_at(image, at + k, v),
{
    assert forall|k: int, v: Seq<u8>| #[trigger] holds_at(part, k, v) implies holds_at(
        image,
        at + k,
        v,
    ) by {
        assert(image.subrange(at + k, at + k + v.len()) =~= part.subrange(k, k + v.len()));
    }
}

/// Each number takes four bytes.
pub proof fn lemma_le32_all_len(v: Seq<u32>)
    ensures
        le32_all(v).len() == 4 * v.len(),
    decreases v.len(),
{
    if v.len() > 0 {
        lemma_le32_all_len(v.drop_last());
    }
}

/// Cleared bytes are all zero.
pub proof fn law_zeros(n: nat)
    ensures
        zeros(n).len() == n,
        forall|k: int| 0 <= k < n ==> #[trigger] zeros(n)[k] == 0,
{
}

/// The bytes of a number are its digits in base 256, the least significant first, and they spell
/// the number.
pub proof fn law_number_bytes(x: u32, y: u16)
    ensures
        le32(x).len() == 4,
        le32(x)[0] + 0x100 * le32(x)[1] + 0x1_0000 * le32(x)[2] + 0x100_0000 * le32(x)[3] == x,
        le16(y).len() == 2,
        le16(y)[0] + 0x100 * le16(y)[1] == y,
{
}

/// Four bytes are read as digits in base 256, the least significant first.
pub proof fn law_from_le32(b: Seq<u8>)
    requires
        b.len() == 4,
    ensures
        from_le32(b) == b[0] + 256 * (b[1] + 256 * (b[2] + 256 * b[3])),
{
}

/// A write into a buffer puts the new bytes in their place and leaves all others alone.
pub proof fn law_splice_bytes(buf: Seq<u8>, at: int, v: Seq<u8>, k: int)
    requires
        0 <= at,
        at + v.len() <= buf.len(),
        0 <= k < buf.len(),
    ensures
        splice(buf, at, v).len() == buf.len(),
        at <= k < at + v.len() ==> splice(buf, at, v)[k] == v[k - at],
        k < at ==> splice(buf, at, v)[k] == buf[k],
        k >= at + v.len() ==> splice(buf, at, v)[k] == buf[k],
{
}

/// A field has its size, whatever it is filled with. It begins with the text, as far as it has room
/// for it, and is zero after it.
pub proof fn law_field_bytes(v: Seq<u8>, n: nat)
    ensures
        padded(v, n).len() == n,
        forall|k: int|
            0 <= k < n ==> #[trigger] padded(v, n)[k] == (if k < v.len() { v[k] } else { 0 }),
{
}

/// The numbers of a list stand one after the other, four bytes each, and each spells its number.
pub proof fn law_list_bytes(v: Seq<u32>, i: int)
    requires
        0 <= i < v.len(),
    ensures
        le32_all(v).len() == 4 * v.len(),
        le32_all(v)[4 * i] + 0x100 * le32_all(v)[4 * i + 1] + 0x1_0000 * le32_all(v)[4 * i + 2]
            + 0x100_0000 * le32_all(v)[4 * i + 3] == v[i],
    decreases v.len(),
{
    lemma_le32_all_len(v);
    lemma_le32_all_len(v.drop_last());
    if i < v.len() - 1 {
        law_list_bytes(v.drop_last(), i);
    } else {
        law_number_bytes(v[i], 0);
    }
}

/// Bytes stand in an image where each of them does.
pub proof fn law_holds_at(image: Seq<u8>, at: int, v: Seq<u8>)
    ensures
        holds_at(image, at, v) <==> {
            &&& 0 <= at
            &&& at + v.len() <= image.len()
            &&& forall|k: int| 0 <= k < v.len() ==> #[trigger] v[k] == image[at + k]
        },
{
    if holds_at(image, at, v) {
        assert forall|k: int| 0 <= k < v.len() implies #[trigger] v[k] == image[at + k] by {
            assert(image.subrange(at, at + v.len())[k] == v[k]);
        }
    }
    if 0 <= at && at + v.len() <= image.len() && forall|k: int|
        0 <= k < v.len() ==> #[trigger] v[k] == image[at + k] {
        assert(image.subrange(at, at + v.len()) =~= v);
    }
}

} // verus!
