//! Building and comparing text, and its UTF-16 form.
use vstd::prelude::*;

use crate::bytes;
use crate::bytes::push_u16;
use crate::fixed;

verus! {

broadcast use vstd::string::group_string_axioms;

/// `String::push` appends one character to the end of a string.
pub assume_specification[ String::push ](string: &mut String, ch: char)
    ensures
        final(string)@ == old(string)@.push(ch),
;

/// `char::from_u32` gives the character with a scalar value, and nothing for a number that is
/// none: a surrogate, or one past U+10FFFF.
pub assume_specification[ char::from_u32 ](i: u32) -> (c: Option<char>)
    ensures
        is_scalar(i) ==> c == Some(i as char),
        !is_scalar(i) ==> c is None,
;

/// Whether a number is a Unicode scalar value.
pub open spec fn is_scalar(value: u32) -> bool {
    value <= 0xD7FF || 0xE000 <= value <= 0x10FFFF
}

/// Whether two texts are the same.
pub fn same(a: &str, b: &str) -> (equal: bool)
    ensures
        equal == (a@ == b@),
{
    let x = a.as_bytes();
    let y = b.as_bytes();
    proof {
        vstd::utf8::encode_utf8_decode_utf8(a@);
        vstd::utf8::encode_utf8_decode_utf8(b@);
    }
    if x.len() != y.len() {
        return false;
    }
    let mut i: usize = 0;
    while i < x.len()
        invariant
            i <= x.len(),
            x.len() == y.len(),
            x@.take(i as int) == y@.take(i as int),
            x@ == vstd::utf8::encode_utf8(a@),
            y@ == vstd::utf8::encode_utf8(b@),
        decreases x.len() - i,
    {
        if x[i] != y[i] {
            return false;
        }
        i += 1;
        assert(x@.take(i as int) =~= x@.take(i - 1).push(x@[i - 1]));
        assert(y@.take(i as int) =~= y@.take(i - 1).push(y@[i - 1]));
    }
    assert(x@.take(x@.len() as int) =~= x@);
    assert(y@.take(y@.len() as int) =~= y@);
    true
}

/// The characters of a text.
pub fn chars_of(text: &str) -> (chars: Vec<char>)
    ensures
        chars@ == text@,
{
    let mut chars: Vec<char> = Vec::new();
    for c in it: text.chars()
        invariant
            it.seq() == text@,
            chars@ == it.seq().take(it.index() as int),
    {
        chars.push(c);
    }
    chars
}

/// A decimal digit as a character.
pub open spec fn digit(n: nat) -> char {
    ('0' as u32 + n % 10) as char
}

/// A number in decimal, without leading zeros.
pub open spec fn decimal(n: nat) -> Seq<char>
    decreases n,
{
    if n < 10 {
        seq![digit(n)]
    } else {
        decimal(n / 10).push(digit(n))
    }
}

/// The number that a sequence of digits reads as.
pub open spec fn value_of(digits: Seq<char>) -> nat
    decreases digits.len(),
{
    if digits.len() == 0 {
        0
    } else {
        value_of(digits.drop_last()) * 10 + (digits.last() as u32 - '0' as u32) as nat
    }
}

/// A number written in decimal reads back as itself.
pub proof fn law_decimal_reads_back(n: nat)
    ensures
        value_of(decimal(n)) == n,
        decimal(n).len() >= 1,
    decreases n,
{
    if n < 10 {
        let s = seq![digit(n)];
        assert(s.drop_last() =~= Seq::<char>::empty());
        assert(value_of(Seq::<char>::empty()) == 0);
        assert(s.last() == digit(n));
        lemma_digit_value(n);
    } else {
        law_decimal_reads_back(n / 10);
        let s = decimal(n / 10).push(digit(n));
        assert(s.drop_last() =~= decimal(n / 10));
        assert(s.last() == digit(n));
        lemma_digit_value(n);
    }
}

proof fn lemma_digit_value(n: nat)
    ensures
        digit(n) as u32 == '0' as u32 + n % 10,
{
}

fn digit_char(n: u8) -> (c: char)
    requires
        n < 10,
    ensures
        c == digit(n as nat),
{
    (48u8 + n) as char
}

/// Appends a number in decimal.
pub fn push_decimal(out: &mut String, n: u128)
    ensures
        final(out)@ == old(out)@ + decimal(n as nat),
    decreases n,
{
    if n >= 10 {
        push_decimal(out, n / 10);
    }
    let last: u8 = (n % 10) as u8;
    out.push(digit_char(last));
    assert(digit(last as nat) == digit(n as nat));
    proof {
        if n < 10 {
            assert(out@ =~= old(out)@ + decimal(n as nat));
        } else {
            assert(out@ =~= old(out)@ + (decimal(n as nat / 10).push(digit(n as nat))));
        }
    }
}

pub fn decimal_string(n: u128) -> (text: String)
    ensures
        text@ == decimal(n as nat),
{
    let mut text = String::new();
    push_decimal(&mut text, n);
    text
}

/// A number in decimal, with at least two digits.
pub open spec fn two_digits(n: nat) -> Seq<char> {
    if n < 10 {
        seq!['0'] + decimal(n)
    } else {
        decimal(n)
    }
}

pub fn push_two_digits(out: &mut String, n: u128)
    ensures
        final(out)@ == old(out)@ + two_digits(n as nat),
{
    if n < 10 {
        out.push('0');
    }
    push_decimal(out, n);
    assert(out@ =~= old(out)@ + two_digits(n as nat));
}

/// `n` steps of `1 / scale`, rounded to a whole number, halves to the even neighbour.
pub open spec fn nearest_even(n: nat, scale: nat) -> nat {
    let whole = n / scale;
    let rest = n % scale;
    if 2 * rest > scale || (2 * rest == scale && whole % 2 == 1) {
        whole + 1
    } else {
        whole
    }
}

/// `n / scale` to the nearest whole number, halves to even.
pub fn round_half_even(n: u128, scale: u128) -> (rounded: u128)
    requires
        0 < scale <= 0x7fff_ffff_ffff_ffff,
    ensures
        rounded == nearest_even(n as nat, scale as nat),
{
    let whole: u128 = n / scale;
    let rest: u128 = n % scale;
    proof {
        assert(whole <= n && (scale >= 2 ==> whole * 2 <= n)) by (nonlinear_arith)
            requires
                whole == n / scale,
                scale >= 1,
        ;
        vstd::arithmetic::div_mod::lemma_mod_bound(n as int, scale as int);
    }
    if 2 * rest > scale || (2 * rest == scale && whole % 2 == 1) {
        whole + 1
    } else {
        whole
    }
}

/// A number of steps of `1 / scale` as a whole number, rounded halves to even.
pub open spec fn rounded_text(n: int, scale: nat) -> Seq<char> {
    if n < 0 {
        seq!['-'] + decimal(nearest_even((-n) as nat, scale))
    } else {
        decimal(nearest_even(n as nat, scale))
    }
}

pub fn unsigned_magnitude(n: i64) -> (m: u128)
    ensures
        m == fixed::magnitude(n as int),
{
    if n < 0 {
        (-(n as i128)) as u128
    } else {
        n as u128
    }
}

pub fn push_rounded(out: &mut String, n: i64, scale: u128)
    requires
        0 < scale <= 0x7fff_ffff_ffff_ffff,
    ensures
        final(out)@ == old(out)@ + rounded_text(n as int, scale as nat),
{
    if n < 0 {
        out.push('-');
    }
    push_decimal(out, round_half_even(unsigned_magnitude(n), scale));
    assert(out@ =~= old(out)@ + rounded_text(n as int, scale as nat));
}

/// An amount of hundredths with its point: `1234` is `12.34`.
pub open spec fn hundredths(n: nat) -> Seq<char> {
    decimal(n / 100) + seq!['.'] + two_digits(n % 100)
}

pub fn push_hundredths(out: &mut String, n: u128)
    ensures
        final(out)@ == old(out)@ + hundredths(n as nat),
{
    push_decimal(out, n / 100);
    out.push('.');
    push_two_digits(out, n % 100);
    assert(out@ =~= old(out)@ + hundredths(n as nat));
}

/// The UTF-16 code units of a character.
pub open spec fn utf16_of(c: char) -> Seq<u16> {
    let v = c as u32;
    if v < 0x1_0000 {
        seq![v as u16]
    } else {
        seq![
            (0xD800 + (v - 0x1_0000) / 0x400) as u16,
            (0xDC00 + (v - 0x1_0000) % 0x400) as u16,
        ]
    }
}

/// The UTF-16 code units of a text.
pub open spec fn utf16(text: Seq<char>) -> Seq<u16>
    decreases text.len(),
{
    if text.len() == 0 {
        Seq::empty()
    } else {
        utf16(text.drop_last()) + utf16_of(text.last())
    }
}

/// Encodes a text as UTF-16.
pub fn encode_utf16(text: &str) -> (units: Vec<u16>)
    ensures
        units@ == utf16(text@),
{
    let chars = chars_of(text);
    let mut units: Vec<u16> = Vec::new();
    let mut i: usize = 0;
    while i < chars.len()
        invariant
            i <= chars.len(),
            chars@ == text@,
            units@ == utf16(text@.take(i as int)),
        decreases chars.len() - i,
    {
        let c = chars[i];
        let v: u32 = c as u32;
        let ghost before = units@;
        if v < 0x1_0000 {
            units.push(v as u16);
            assert(units@ =~= before + utf16_of(c));
        } else {
            let rest: u32 = v - 0x1_0000;
            units.push((0xD800 + rest / 0x400) as u16);
            units.push((0xDC00 + rest % 0x400) as u16);
            assert(units@ =~= before + utf16_of(c));
        }
        proof {
            let next = text@.take(i + 1);
            assert(next.drop_last() =~= text@.take(i as int));
            assert(next.last() == c);
        }
        i += 1;
    }
    assert(text@.take(i as int) =~= text@);
    units
}

/// UTF-16 code units as little-endian bytes.
pub open spec fn wide_bytes(units: Seq<u16>) -> Seq<u8>
    decreases units.len(),
{
    if units.len() == 0 {
        Seq::empty()
    } else {
        wide_bytes(units.drop_last()) + bytes::le16(units.last() as int)
    }
}

pub proof fn lemma_wide_bytes_len(units: Seq<u16>)
    ensures
        wide_bytes(units).len() == 2 * units.len(),
    decreases units.len(),
{
    if units.len() > 0 {
        lemma_wide_bytes_len(units.drop_last());
    }
}

/// Appends UTF-16 code units as little-endian bytes.
pub fn push_wide(out: &mut Vec<u8>, units: &[u16])
    ensures
        final(out)@ == old(out)@ + wide_bytes(units@),
{
    let ghost head = out@;
    let mut i: usize = 0;
    assert(out@ =~= head + wide_bytes(units@.take(0)));
    while i < units.len()
        invariant
            i <= units.len(),
            out@ == head + wide_bytes(units@.take(i as int)),
        decreases units.len() - i,
    {
        push_u16(out, units[i]);
        i += 1;
        proof {
            let next = units@.take(i as int);
            assert(next.drop_last() =~= units@.take(i - 1));
            assert(next.last() == units@[i - 1]);
            assert(out@ =~= head + wide_bytes(next));
        }
    }
    assert(units@.take(i as int) =~= units@);
}

/// What stands for a code unit that is part of no character.
pub open spec fn replacement() -> char {
    '\u{FFFD}'
}

pub open spec fn is_high(unit: u16) -> bool {
    0xD800 <= unit <= 0xDBFF
}

pub open spec fn is_low(unit: u16) -> bool {
    0xDC00 <= unit <= 0xDFFF
}

/// The character of a surrogate pair.
pub open spec fn paired(high: u16, low: u16) -> char {
    (0x1_0000 + (high - 0xD800) * 0x400 + (low - 0xDC00)) as u32 as char
}

/// The text of UTF-16 code units; each surrogate without its partner reads as U+FFFD.
pub open spec fn from_utf16(units: Seq<u16>) -> Seq<char>
    decreases units.len(),
{
    if units.len() == 0 {
        Seq::empty()
    } else if !is_high(units[0]) && !is_low(units[0]) {
        seq![units[0] as u32 as char] + from_utf16(units.skip(1))
    } else if is_high(units[0]) && units.len() >= 2 && is_low(units[1]) {
        seq![paired(units[0], units[1])] + from_utf16(units.skip(2))
    } else {
        seq![replacement()] + from_utf16(units.skip(1))
    }
}

/// Decodes UTF-16 from `start` to `end`, with U+FFFD for each unpaired surrogate.
pub fn decode_utf16_lossy(units: &[u16], start: usize, end: usize) -> (text: String)
    requires
        start <= end <= units.len(),
    ensures
        text@ == from_utf16(units@.subrange(start as int, end as int)),
{
    let mut text = String::new();
    let mut i: usize = start;
    proof {
        assert(text@ + from_utf16(units@.subrange(i as int, end as int)) =~= from_utf16(
            units@.subrange(start as int, end as int),
        ));
    }
    while i < end
        invariant
            start <= i <= end <= units.len(),
            text@ + from_utf16(units@.subrange(i as int, end as int)) == from_utf16(
                units@.subrange(start as int, end as int),
            ),
        decreases end - i,
    {
        let ghost rest = units@.subrange(i as int, end as int);
        let ghost before = text@;
        let unit: u16 = units[i];
        assert(rest[0] == unit);
        let mut code: u32 = 0xFFFD;
        let mut taken: usize = 1;
        if unit < 0xD800 || unit > 0xDFFF {
            code = unit as u32;
        } else if unit <= 0xDBFF && i + 1 < end && units[i + 1] >= 0xDC00 && units[i + 1]
            <= 0xDFFF {
            assert(rest[1] == units@[i + 1]);
            code = 0x1_0000 + (unit as u32 - 0xD800) * 0x400 + (units[i + 1] as u32 - 0xDC00);
            taken = 2;
        }
        assert(is_scalar(code));
        match char::from_u32(code) {
            Some(c) => {
                text.push(c);
            },
            None => {},
        }
        proof {
            assert(rest.skip(taken as int) =~= units@.subrange(i + taken, end as int));
            let tail = from_utf16(rest.skip(taken as int));
            assert(from_utf16(rest) == seq![code as char] + tail);
            assert(text@ =~= before.push(code as char));
            assert(text@ + tail =~= before + (seq![code as char] + tail));
        }
        i += taken;
    }
    assert(text@ + from_utf16(units@.subrange(i as int, end as int)) =~= text@);
    text
}

/// What was encoded as UTF-16 decodes to itself.
pub proof fn law_utf16_round_trip(text: Seq<char>)
    ensures
        from_utf16(utf16(text)) == text,
    decreases text.len(),
{
    if text.len() > 0 {
        law_utf16_round_trip(text.drop_last());
        lemma_decoding_appends(text.drop_last(), text.last());
        assert(text.drop_last().push(text.last()) =~= text);
    }
}

/// Decoding the encoding of a text and of one more character gives both.
proof fn lemma_decoding_appends(text: Seq<char>, c: char)
    ensures
        from_utf16(utf16(text) + utf16_of(c)) == from_utf16(utf16(text)).push(c),
{
    lemma_decoding_splits(text, utf16_of(c));
    lemma_decoding_one(c);
    assert(from_utf16(utf16(text)) + seq![c] =~= from_utf16(utf16(text)).push(c));
}

proof fn lemma_decoding_one(c: char)
    ensures
        from_utf16(utf16_of(c)) == seq![c],
{
    let units = utf16_of(c);
    let v = c as u32;
    assert(from_utf16(Seq::<u16>::empty()) =~= Seq::<char>::empty());
    if v < 0x1_0000 {
        assert(units.skip(1) =~= Seq::<u16>::empty());
        assert(from_utf16(units) =~= seq![c]);
    } else {
        assert(units.skip(2) =~= Seq::<u16>::empty());
        assert(paired(units[0], units[1]) == c);
        assert(from_utf16(units) =~= seq![c]);
    }
}

/// Decoding goes character by character, so whatever follows an encoded text is decoded on
/// its own.
proof fn lemma_decoding_splits(text: Seq<char>, more: Seq<u16>)
    ensures
        from_utf16(utf16(text) + more) == from_utf16(utf16(text)) + from_utf16(more),
    decreases text.len(),
{
    if text.len() == 0 {
        assert(utf16(text) + more =~= more);
        assert(from_utf16(utf16(text)) + from_utf16(more) =~= from_utf16(more));
    } else {
        let front = text.drop_last();
        let last = utf16_of(text.last());
        assert(utf16(text) + more =~= utf16(front) + (last + more));
        lemma_decoding_splits(front, last + more);
        lemma_decoding_splits(front, last);
        lemma_decoding_first(text.last(), more);
        lemma_decoding_one(text.last());
        assert(from_utf16(utf16(front)) + (seq![text.last()] + from_utf16(more)) =~= (from_utf16(
            utf16(front),
        ) + seq![text.last()]) + from_utf16(more));
    }
}

proof fn lemma_decoding_first(c: char, more: Seq<u16>)
    ensures
        from_utf16(utf16_of(c) + more) == seq![c] + from_utf16(more),
{
    let units = utf16_of(c) + more;
    let v = c as u32;
    if v < 0x1_0000 {
        assert(units[0] == v as u16);
        assert(units.skip(1) =~= more);
    } else {
        assert(units[0] == utf16_of(c)[0]);
        assert(units[1] == utf16_of(c)[1]);
        assert(units.skip(2) =~= more);
        assert(paired(units[0], units[1]) == c);
    }
}

/// An ASCII letter in lower case; any other character as it is.
pub open spec fn lower(c: char) -> char {
    if 'A' <= c <= 'Z' {
        (c as u32 + 32) as char
    } else {
        c
    }
}

pub open spec fn lowered(text: Seq<char>) -> Seq<char> {
    text.map_values(|c: char| lower(c))
}

fn lower_char(c: char) -> (l: char)
    ensures
        l == lower(c),
{
    let v: u32 = c as u32;
    if 65 <= v && v <= 90 {
        ((v + 32) as u8) as char
    } else {
        c
    }
}

/// Whether two texts are the same but for the case of ASCII letters.
pub fn eq_ignore_ascii_case(a: &str, b: &str) -> (equal: bool)
    ensures
        equal == (lowered(a@) == lowered(b@)),
{
    let x = chars_of(a);
    let y = chars_of(b);
    if x.len() != y.len() {
        assert(lowered(a@).len() != lowered(b@).len());
        return false;
    }
    let mut i: usize = 0;
    while i < x.len()
        invariant
            i <= x.len(),
            x.len() == y.len(),
            x@ == a@,
            y@ == b@,
            forall|j: int| 0 <= j < i ==> lower(x@[j]) == lower(y@[j]),
        decreases x.len() - i,
    {
        if lower_char(x[i]) != lower_char(y[i]) {
            assert(lowered(a@)[i as int] != lowered(b@)[i as int]);
            return false;
        }
        i += 1;
    }
    assert(lowered(a@) =~= lowered(b@));
    true
}

/// A number has as many digits as it needs, and nothing but digits.
pub proof fn law_decimal_has_no_leading_zero(n: nat)
    ensures
        n > 0 ==> decimal(n)[0] != '0',
        n < 10 ==> decimal(n).len() == 1,
        n >= 10 ==> decimal(n).len() == decimal(n / 10).len() + 1,
        forall|i: int| 0 <= i < decimal(n).len() ==> '0' <= #[trigger] decimal(n)[i] <= '9',
    decreases n,
{
    lemma_digit_value(n);
    law_decimal_reads_back(n);
    if n >= 10 {
        law_decimal_has_no_leading_zero(n / 10);
        law_decimal_reads_back(n / 10);
        assert forall|i: int| 0 <= i < decimal(n).len() implies '0' <= #[trigger] decimal(n)[i]
            <= '9' by {
            if i < decimal(n / 10).len() {
                assert(decimal(n)[i] == decimal(n / 10)[i]);
            }
        }
    }
}

/// Rounding goes to the nearest whole number, and from halfway to the even one.
pub proof fn law_rounding_is_to_the_nearest(n: u128, scale: u128, rounded: u128)
    requires
        0 < scale <= 0x7fff_ffff_ffff_ffff,
        call_ensures(round_half_even, (n, scale), rounded),
    ensures
        -scale <= 2 * (rounded * scale - n) <= scale,
        2 * (rounded * scale - n) == scale || 2 * (n - rounded * scale) == scale ==> rounded % 2 == 0,
{
    let (q, r) = (n as int / scale as int, n as int % scale as int);
    vstd::arithmetic::div_mod::lemma_fundamental_div_mod(n as int, scale as int);
    assert(scale * q == q * scale) by (nonlinear_arith);
    assert((q + 1) * scale == q * scale + scale) by (nonlinear_arith);
}

/// Two digits show every number below a hundred, the tens first.
pub proof fn law_two_digits_show_tens_and_ones(n: nat)
    requires
        n < 100,
    ensures
        two_digits(n).len() == 2,
        two_digits(n)[0] as u32 == '0' as u32 + n / 10,
        two_digits(n)[1] as u32 == '0' as u32 + n % 10,
{
    reveal_with_fuel(decimal, 3);
    lemma_digit_value(n);
    lemma_digit_value(n / 10);
}

/// Two texts agree letter by letter, where a capital letter of the Latin alphabet and its small
/// form, thirty-two places on, count as one.
pub open spec fn agree_but_for_case(a: Seq<char>, b: Seq<char>) -> bool {
    &&& a.len() == b.len()
    &&& forall|i: int|
        #![trigger a[i]]
        #![trigger b[i]]
        0 <= i < a.len() ==> {
            ||| a[i] == b[i]
            ||| 'A' <= a[i] && a[i] <= 'Z' && b[i] as int == a[i] as int + 32
            ||| 'A' <= b[i] && b[i] <= 'Z' && a[i] as int == b[i] as int + 32
        }
}

/// Lowering two texts makes them equal exactly where they agree but for case.
pub proof fn lemma_lowered_agree(a: Seq<char>, b: Seq<char>)
    ensures
        lowered(a) == lowered(b) <==> agree_but_for_case(a, b),
{
    if lowered(a) == lowered(b) {
        assert(lowered(a).len() == lowered(b).len());
        assert forall|i: int|
            #![trigger a[i]]
            #![trigger b[i]]
            0 <= i < a.len() implies {
            ||| a[i] == b[i]
            ||| 'A' <= a[i] && a[i] <= 'Z' && b[i] as int == a[i] as int + 32
            ||| 'A' <= b[i] && b[i] <= 'Z' && a[i] as int == b[i] as int + 32
        } by {
            assert(lowered(a)[i] == lowered(b)[i]);
        }
    }
    if agree_but_for_case(a, b) {
        assert forall|i: int| 0 <= i < a.len() implies lowered(a)[i] == lowered(b)[i] by {
            assert(a[i] == a[i]);
        }
        assert(lowered(a) =~= lowered(b));
    }
}

/// A comparison without regard to case finds texts equal exactly where they agree but for case.
pub proof fn law_case_is_all_that_is_ignored(a: &str, b: &str, equal: bool)
    requires
        call_ensures(eq_ignore_ascii_case, (a, b), equal),
    ensures
        equal <==> agree_but_for_case(a@, b@),
{
    lemma_lowered_agree(a@, b@);
}

/// One more character adds its own units to the end: its code where that fits one unit, and
/// otherwise the two halves of its distance from U+10000, high half first.
pub proof fn law_characters_are_encoded_one_by_one(
    text: &str,
    longer: &str,
    c: char,
    units: Vec<u16>,
    more: Vec<u16>,
)
    requires
        call_ensures(encode_utf16, (text,), units),
        call_ensures(encode_utf16, (longer,), more),
        longer@ == text@.push(c),
    ensures
        text@.len() == 0 ==> units@.len() == 0,
        more@.take(units@.len() as int) == units@,
        (c as u32) < 0x1_0000 ==> more@.len() == units@.len() + 1 && more@.last() == c as u32,
        (c as u32) >= 0x1_0000 ==> {
            let n = units@.len() as int;
            &&& more@.len() == n + 2
            &&& 0xD800 <= more@[n] < 0xDC00
            &&& 0xDC00 <= more@[n + 1] < 0xE000
            &&& 0x1_0000 + (more@[n] - 0xD800) * 0x400 + (more@[n + 1] - 0xDC00) == c as u32
        },
{
    assert(longer@.drop_last() =~= text@);
    assert(more@.take(units@.len() as int) =~= units@);
    let v = c as u32;
    if v >= 0x1_0000 {
        let d = v - 0x1_0000;
        assert(0 <= d < 0x10_0000);
        assert(d / 0x400 * 0x400 + d % 0x400 == d);
        assert(0 <= d / 0x400 < 0x400);
    }
}

/// Units are decoded from the front: a pair of surrogates is one character, any other surrogate
/// reads as U+FFFD, and every other unit is the character with its code.
pub proof fn law_units_are_decoded_from_the_front(
    units: &[u16],
    start: usize,
    next: usize,
    end: usize,
    text: String,
    rest: String,
)
    requires
        start < end <= units@.len(),
        call_ensures(decode_utf16_lossy, (units, start, end), text),
        call_ensures(decode_utf16_lossy, (units, next, end), rest),
        ({
            let pairs = 0xD800 <= units@[start as int] < 0xDC00 && start + 1 < end && 0xDC00
                <= units@[start + 1] < 0xE000;
            next == (if pairs {
                start + 2
            } else {
                start + 1
            })
        }),
    ensures
        text@.len() == rest@.len() + 1,
        text@.skip(1) == rest@,
        next == start + 2 ==> text@[0] as u32 == 0x1_0000 + (units@[start as int] - 0xD800) * 0x400
            + (units@[start + 1] - 0xDC00),
        next == start + 1 ==> text@[0] as u32 == (if 0xD800 <= units@[start as int] < 0xE000 {
            0xFFFD
        } else {
            units@[start as int] as int
        }),
{
    let here = units@.subrange(start as int, end as int);
    assert(here[0] == units@[start as int]);
    if start + 1 < end {
        assert(here[1] == units@[start + 1]);
    }
    assert(here.skip(next - start) =~= units@.subrange(next as int, end as int));
    assert(text@.skip(1) =~= rest@);
}

/// Units are written as two bytes each, the lower one first.
pub proof fn law_units_are_written_low_byte_first(out: &mut Vec<u8>, units: &[u16], i: int)
    requires
        call_ensures(push_wide, (out, units), ()),
        0 <= i < units@.len(),
    ensures
        final(out)@.len() == old(out)@.len() + 2 * units@.len(),
        final(out)@.take(old(out)@.len() as int) == old(out)@,
        final(out)@[old(out)@.len() + 2 * i] + 256 * final(out)@[old(out)@.len() + 2 * i + 1]
            == units@[i],
{
    lemma_wide_bytes_len(units@);
    lemma_wide_byte_pairs(units@, i);
    assert(final(out)@.take(old(out)@.len() as int) =~= old(out)@);
    let tail = wide_bytes(units@);
    assert(final(out)@[old(out)@.len() + 2 * i] == tail[2 * i]);
    assert(final(out)@[old(out)@.len() + 2 * i + 1] == tail[2 * i + 1]);
}

/// The two bytes of each unit stand at twice its place.
pub proof fn lemma_wide_byte_pairs(units: Seq<u16>, i: int)
    requires
        0 <= i < units.len(),
    ensures
        wide_bytes(units).len() == 2 * units.len(),
        wide_bytes(units)[2 * i] + 256 * wide_bytes(units)[2 * i + 1] == units[i],
    decreases units.len(),
{
    let front = units.drop_last();
    lemma_wide_bytes_len(units);
    lemma_wide_bytes_len(front);
    if i < front.len() {
        lemma_wide_byte_pairs(front, i);
        assert(wide_bytes(units)[2 * i] == wide_bytes(front)[2 * i]);
        assert(wide_bytes(units)[2 * i + 1] == wide_bytes(front)[2 * i + 1]);
        assert(front[i] == units[i]);
    } else {
        let last = bytes::le16(units.last() as int);
        assert(wide_bytes(units)[2 * i] == last[0]);
        assert(wide_bytes(units)[2 * i + 1] == last[1]);
    }
}

/// Hundredths are shown as the whole part, a point, and two digits.
pub proof fn law_hundredths_have_two_decimals(out: &mut String, n: u128)
    requires
        call_ensures(push_hundredths, (out, n), ()),
    ensures
        ({
            let shown = final(out)@.skip(old(out)@.len() as int);
            let point = shown.len() - 3;
            &&& final(out)@.take(old(out)@.len() as int) == old(out)@
            &&& point >= 1
            &&& shown[point] == '.'
            &&& value_of(shown.take(point)) == n / 100
            &&& shown[point + 1] as u32 == '0' as u32 + n % 100 / 10
            &&& shown[point + 2] as u32 == '0' as u32 + n % 10
        }),
{
    let shown = final(out)@.skip(old(out)@.len() as int);
    let whole = decimal((n / 100) as nat);
    let cents = two_digits((n % 100) as nat);
    assert(shown =~= hundredths(n as nat));
    law_decimal_reads_back((n / 100) as nat);
    law_decimal_has_no_leading_zero((n / 100) as nat);
    law_two_digits_show_tens_and_ones((n % 100) as nat);
    assert(final(out)@.take(old(out)@.len() as int) =~= old(out)@);
    assert(shown.take(shown.len() - 3) =~= whole);
    assert(shown[shown.len() - 2] == cents[0]);
    assert(shown[shown.len() - 1] == cents[1]);
    assert(n % 100 % 10 == n % 10);
}

/// A rounded number is shown as the nearest whole one, behind a sign where it is negative.
pub proof fn law_rounded_numbers_are_signed(
    out: &mut String,
    n: i64,
    scale: u128,
    size: u128,
    rounded: u128,
    digits: String,
)
    requires
        0 < scale <= 0x7fff_ffff_ffff_ffff,
        call_ensures(push_rounded, (out, n, scale), ()),
        call_ensures(unsigned_magnitude, (n,), size),
        call_ensures(round_half_even, (size, scale), rounded),
        call_ensures(decimal_string, (rounded,), digits),
    ensures
        size == n || size == -n,
        n >= 0 ==> final(out)@ == old(out)@ + digits@,
        n < 0 ==> final(out)@ == old(out)@.push('-') + digits@,
{
    if n < 0 {
        assert(final(out)@ =~= old(out)@.push('-') + digits@);
    }
}

/// Texts are the same where every character is.
pub proof fn law_same_texts_agree_everywhere(a: &str, b: &str, equal: bool)
    requires
        call_ensures(same, (a, b), equal),
    ensures
        equal <==> a@.len() == b@.len() && forall|i: int|
            #![trigger a@[i]]
            0 <= i < a@.len() ==> a@[i] == b@[i],
{
    if a@.len() == b@.len() && (forall|i: int|
        #![trigger a@[i]]
        0 <= i < a@.len() ==> a@[i] == b@[i]) {
        assert(a@ =~= b@);
    }
}

/// Numbers are appended in decimal, the short ones with two digits where asked for.
pub proof fn law_numbers_are_appended_in_decimal(
    out: &mut String,
    padded: &mut String,
    n: u128,
    m: u128,
)
    requires
        call_ensures(push_decimal, (out, n), ()),
        call_ensures(push_two_digits, (padded, m), ()),
    ensures
        final(out)@.take(old(out)@.len() as int) == old(out)@,
        value_of(final(out)@.skip(old(out)@.len() as int)) == n,
        final(padded)@.take(old(padded)@.len() as int) == old(padded)@,
        m < 100 ==> {
            let k = old(padded)@.len() as int;
            &&& final(padded)@.len() == k + 2
            &&& final(padded)@[k] as u32 == '0' as u32 + m / 10
            &&& final(padded)@[k + 1] as u32 == '0' as u32 + m % 10
        },
{
    law_decimal_reads_back(n as nat);
    assert(final(out)@.take(old(out)@.len() as int) =~= old(out)@);
    assert(final(out)@.skip(old(out)@.len() as int) =~= decimal(n as nat));
    assert(final(padded)@.take(old(padded)@.len() as int) =~= old(padded)@);
    if m < 100 {
        law_two_digits_show_tens_and_ones(m as nat);
    }
}

} // verus!
