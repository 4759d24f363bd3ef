//! Text as the client reads it: decimal numbers, ASCII, and names with trailing NULs.
use crate::bytes;
use vstd::prelude::*;
use vstd::string::*;
use vstd::utf8::*;

verus! {

/// Reads `bytes` as UTF-8 text, by `std::str::from_utf8`.
///
/// That function is taken to accept exactly the byte sequences that are valid UTF-8, and to hand
/// them back as the text which they encode.
#[verifier::external_body]
pub(crate) fn str_from_utf8(bytes: &[u8]) -> (res: Option<&str>)
    ensures
        res is Some <==> valid_utf8(bytes@),
        res matches Some(s) ==> encode_utf8(s@) == bytes@,
{
    std::str::from_utf8(bytes).ok()
}

/// The characters that the bytes of an ASCII text stand for.
pub open spec fn ascii_chars(bytes: Seq<u8>) -> Seq<char> {
    Seq::new(bytes.len(), |i: int| bytes[i] as char)
}

proof fn lemma_ascii_utf8(bytes: Seq<u8>)
    requires
        forall|i: int| 0 <= i < bytes.len() ==> bytes[i] < 0x80,
    ensures
        encode_utf8(ascii_chars(bytes)) == bytes,
        valid_utf8(bytes),
{
    let chars = ascii_chars(bytes);
    assert(is_ascii_chars(chars));
    is_ascii_chars_encode_utf8(chars);
    assert forall|i: int| 0 <= i < bytes.len() implies encode_utf8(chars)[i] == bytes[i] by {
        assert(chars[i] as u8 == bytes[i]);
    }
    assert(encode_utf8(chars) =~= bytes);
    encode_utf8_valid_utf8(chars);
}

/// The text that the ASCII `bytes` spell.
pub(crate) fn ascii_string(bytes: &[u8]) -> (res: String)
    requires
        forall|i: int| 0 <= i < bytes@.len() ==> bytes@[i] < 0x80,
    ensures
        res@ == ascii_chars(bytes@),
{
    proof {
        lemma_ascii_utf8(bytes@);
    }
    match str_from_utf8(bytes) {
        Some(s) => {
            proof {
                encode_utf8_decode_utf8(s@);
                encode_utf8_decode_utf8(ascii_chars(bytes@));
            }
            s.to_owned()
        },
        None => String::new(),
    }
}

/// The digit for `d`, which is below ten.
pub open spec fn digit(d: nat) -> char {
    (0x30 + d) as char
}

/// `n` written in base ten, without leading zeros.
pub open spec fn decimal(n: nat) -> Seq<char>
    decreases n,
{
    if n < 10 {
        seq![digit(n)]
    } else {
        decimal(n / 10).push(digit(n % 10))
    }
}

fn push_decimal(out: &mut Vec<u8>, n: u32)
    ensures
        final(out)@.len() == old(out)@.len() + decimal(n as nat).len(),
        forall|i: int| 0 <= i < old(out)@.len() ==> final(out)@[i] == old(out)@[i],
        forall|i: int|
            0 <= i < decimal(n as nat).len() ==> {
                &&& (#[trigger] final(out)@[old(out)@.len() + i]) < 0x80
                &&& final(out)@[old(out)@.len() + i] as char == decimal(n as nat)[i]
            },
    decreases n,
{
    if n >= 10 {
        push_decimal(out, n / 10);
    }
    let ghost before = out@;
    out.push(0x30 + (n % 10) as u8);
    assert(out@ == before.push((0x30 + n % 10) as u8));
}

/// `n` written in base ten.
pub(crate) fn decimal_string(n: u32) -> (res: String)
    ensures
        res@ == decimal(n as nat),
{
    let mut out: Vec<u8> = Vec::new();
    push_decimal(&mut out, n);
    proof {
        assert forall|i: int| 0 <= i < out@.len() implies out@[i] < 0x80 by {
            assert(out@[0 + i] < 0x80);
        }
        assert forall|i: int| 0 <= i < out@.len() implies ascii_chars(out@)[i] == decimal(n as nat)[i] by {
            assert(out@[0 + i] as char == decimal(n as nat)[i]);
        }
        assert(ascii_chars(out@) =~= decimal(n as nat));
    }
    ascii_string(out.as_slice())
}

/// `s` without the NULs at its end.
pub open spec fn trim_nul(s: Seq<char>) -> Seq<char>
    decreases s.len(),
{
    if s.len() > 0 && s.last() == '\0' {
        trim_nul(s.drop_last())
    } else {
        s
    }
}

/// The part of `s` before the NULs at its end.
pub(crate) fn trim_end_nul(s: &str) -> (res: &str)
    ensures
        res@ == trim_nul(s@),
{
    let mut n: usize = s.unicode_len();
    assert(s@.subrange(0, n as int) =~= s@);
    while n > 0 && s.get_char(n - 1) == '\0'
        invariant
            n <= s@.len(),
            trim_nul(s@.subrange(0, n as int)) == trim_nul(s@),
        decreases n,
    {
        n = n - 1;
        assert(s@.subrange(0, n + 1).drop_last() =~= s@.subrange(0, n as int));
    }
    s.substring_char(0, n)
}

/// The number that decimal digits spell.
pub open spec fn decimal_value(s: Seq<char>) -> nat
    decreases s.len(),
{
    if s.len() == 0 {
        0
    } else {
        10 * decimal_value(s.drop_last()) + (s.last() as nat - 0x30) as nat
    }
}

/// A number that is written in base ten gives back the number.
pub proof fn law_decimal_reads_back(n: nat)
    ensures
        decimal_value(decimal(n)) == n,
    decreases n,
{
    if n >= 10 {
        law_decimal_reads_back(n / 10);
        assert(decimal(n).drop_last() =~= decimal(n / 10));
    } else {
        reveal_with_fuel(decimal_value, 2);
    }
}

/// An ASCII character more adds its own code to the encoding.
pub proof fn lemma_encode_push_ascii(s: Seq<char>, c: char)
    requires
        c <= '\u{7f}',
    ensures
        encode_utf8(s.push(c)) == encode_utf8(s).push(c as u8),
    decreases s.len(),
{
    let more = s.push(c);
    if s.len() == 0 {
        assert(more.drop_first() =~= s);
        assert(is_ascii_chars(more));
        is_ascii_chars_encode_utf8(more);
        assert(encode_utf8(more) =~= seq![c as u8]);
        assert(encode_utf8(s).push(c as u8) =~= seq![c as u8]);
    } else {
        assert(more.drop_first() =~= s.drop_first().push(c));
        lemma_encode_push_ascii(s.drop_first(), c);
        assert(encode_utf8(more) =~= encode_utf8(s).push(c as u8));
    }
}

proof fn lemma_encode_push_nul(s: Seq<char>)
    ensures
        encode_utf8(s.push('\0')) == encode_utf8(s).push(0),
{
    lemma_encode_push_ascii(s, '\0');
}

proof fn lemma_one_nul_ignored(raw: Seq<u8>)
    requires
        valid_utf8(raw),
    ensures
        valid_utf8(raw.push(0)),
        trim_nul(decode_utf8(raw.push(0))) == trim_nul(decode_utf8(raw)),
{
    let s = decode_utf8(raw);
    decode_utf8_encode_utf8(raw);
    lemma_encode_push_nul(s);
    encode_utf8_valid_utf8(s.push('\0'));
    encode_utf8_decode_utf8(s.push('\0'));
    assert(s.push('\0').drop_last() =~= s);
}

/// NULs more at the end of a text, however many, do not change what is left when the NULs are taken
/// off.
pub proof fn law_trailing_nuls_ignored(raw: Seq<u8>, n: nat)
    requires
        valid_utf8(raw),
    ensures
        valid_utf8(raw + bytes::zeros(n)),
        trim_nul(decode_utf8(raw + bytes::zeros(n))) == trim_nul(decode_utf8(raw)),
    decreases n,
{
    if n == 0 {
        assert(raw + bytes::zeros(n) =~= raw);
    } else {
        let m = (n - 1) as nat;
        law_trailing_nuls_ignored(raw, m);
        lemma_one_nul_ignored(raw + bytes::zeros(m));
        assert((raw + bytes::zeros(m)).push(0) =~= raw + bytes::zeros(n));
    }
}

/// What is left when the NULs are taken off does not end in one.
pub proof fn law_trimmed_has_no_nul_at_end(s: Seq<char>)
    ensures
        trim_nul(s).len() > 0 ==> trim_nul(s).last() != '\0',
        trim_nul(s).is_prefix_of(s),
    decreases s.len(),
{
    if s.len() > 0 && s.last() == '\0' {
        law_trimmed_has_no_nul_at_end(s.drop_last());
    }
}

/// The characters of an ASCII text have its bytes as their codes.
pub proof fn law_ascii_chars(bytes: Seq<u8>, i: int)
    requires
        0 <= i < bytes.len(),
        bytes[i] < 0x80,
    ensures
        ascii_chars(bytes).len() == bytes.len(),
        ascii_chars(bytes)[i] as int == bytes[i],
{
}

/// Whether `s` writes the number `n` in base ten: digits that spell `n`, the first of which is not
/// a zero unless it is the only one.
pub open spec fn writes_decimal(s: Seq<char>, n: int) -> bool {
    &&& s.len() > 0
    &&& forall|i: int| 0 <= i < s.len() ==> '0' <= #[trigger] s[i] <= '9'
    &&& s.len() > 1 ==> s[0] != '0'
    &&& s.fold_left(0int, |v: int, c: char| 10 * v + (c as int - '0' as int)) == n
}

/// A number is written with decimal digits that spell it, without leading zeros.
pub proof fn law_decimal_spelled(n: nat)
    ensures
        ({
            let s = decimal(n);
            &&& s.len() > 0
            &&& forall|i: int| 0 <= i < s.len() ==> '0' <= #[trigger] s[i] <= '9'
            &&& s.len() > 1 ==> s[0] != '0'
            &&& s.fold_left(0int, |v: int, c: char| 10 * v + (c as int - '0' as int)) == n
        }),
        decimal(n)[0] == '0' <==> n == 0,
        writes_decimal(decimal(n), n as int),
    decreases n,
{
    let f = |v: int, c: char| 10 * v + (c as int - '0' as int);
    let s = decimal(n);
    if n < 10 {
        assert(s.drop_last() =~= seq![]);
        reveal_with_fuel(Seq::fold_left, 2);
    } else {
        law_decimal_spelled(n / 10);
        assert(s.drop_last() =~= decimal(n / 10));
        assert(s.last() == digit(n % 10));
        assert(s.fold_left(0int, f) == f(s.drop_last().fold_left(0int, f), s.last()));
        assert(s[0] == decimal(n / 10)[0]);
    }
}

/// A `u32` takes at most ten decimal digits.
pub proof fn law_decimal_of_u32_is_short(n: u32)
    ensures
        decimal(n as nat).len() <= 10,
{
    reveal_with_fuel(decimal, 10);
}

/// Two numbers that are written alike are the same.
pub proof fn law_decimal_unique(a: nat, b: nat)
    requires
        decimal(a) == decimal(b),
    ensures
        a == b,
{
    law_decimal_spelled(a);
    law_decimal_spelled(b);
}

/// Taking the NULs off a text leaves its beginning, takes off nothing but NULs, and leaves none at
/// the end.
pub proof fn law_trim_takes_only_nuls(s: Seq<char>)
    ensures
        ({
            let left = trim_nul(s);
            &&& left.len() <= s.len()
            &&& forall|i: int| 0 <= i < left.len() ==> #[trigger] left[i] == s[i]
            &&& forall|i: int| left.len() <= i < s.len() ==> #[trigger] s[i] == '\0'
            &&& left.len() > 0 ==> left[left.len() - 1] != '\0'
        }),
    decreases s.len(),
{
    if s.len() > 0 && s.last() == '\0' {
        law_trim_takes_only_nuls(s.drop_last());
        assert forall|i: int| trim_nul(s).len() <= i < s.len() implies #[trigger] s[i] == '\0' by {
            if i < s.len() - 1 {
                assert(s.drop_last()[i] == '\0');
            }
        }
    }
}

} // verus!
