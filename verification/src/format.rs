//! Text of the clock face.

use vstd::prelude::*;
use vstd::string::StringSliceAdditionalSpecFns;
use vstd::utf8::{
    encode_utf8, encode_utf8_decode_utf8, encode_utf8_valid_utf8, is_ascii_chars,
    is_ascii_chars_encode_utf8, valid_utf8,
};

verus! {

/// Error of `core::str::from_utf8`; nothing is said of what it holds.
#[verifier::external_type_specification]
#[verifier::external_body]
pub struct ExUtf8Error(core::str::Utf8Error);

/// `core::str::from_utf8` takes exactly the valid UTF-8 byte strings, and gives
/// the text that has those bytes as its encoding.
pub assume_specification[ core::str::from_utf8 ](v: &[u8]) -> (r: Result<
    &str,
    core::str::Utf8Error,
>)
    ensures
        r is Ok <==> valid_utf8(v@),
        r matches Ok(s) ==> s.spec_bytes() == v@,
;

/// ASCII code of the digit zero; the other digits follow it.
const ZERO: u8 = 0x30;

/// ASCII code of the colon.
const COLON: u8 = 0x3A;

/// ASCII code of the full stop.
const FULL_STOP: u8 = 0x2E;

/// Character of a decimal digit.
pub open spec fn digit(n: int) -> char {
    (48 + n) as char
}

/// A time of day as it is shown: two digits each, with colons between them.
pub open spec fn time_text(h: int, m: int, s: int) -> Seq<char> {
    seq![
        digit(h / 10),
        digit(h % 10),
        ':',
        digit(m / 10),
        digit(m % 10),
        ':',
        digit(s / 10),
        digit(s % 10),
    ]
}

/// A date as it is shown: day, month and the last four digits of the year, with
/// full stops between them.
pub open spec fn date_text(d: int, mo: int, y: int) -> Seq<char> {
    seq![
        digit(d / 10),
        digit(d % 10),
        '.',
        digit(mo / 10),
        digit(mo % 10),
        '.',
        digit(y / 1000 % 10),
        digit(y / 100 % 10),
        digit(y / 10 % 10),
        digit(y % 10),
    ]
}

/// The number whose digits stand for a year. A year before year 0 is taken
/// modulo 2^32.
pub open spec fn shown_year(y: i32) -> int {
    if y < 0 {
        y + 0x1_0000_0000
    } else {
        y as int
    }
}

/// The bytes are the ASCII codes of the characters.
spec fn codes(bytes: Seq<u8>, chars: Seq<char>) -> bool {
    &&& bytes.len() == chars.len()
    &&& is_ascii_chars(chars)
    &&& forall|i: int| 0 <= i < bytes.len() ==> #[trigger] bytes[i] == chars[i] as u8
}

/// ASCII codes are UTF-8, and the text they encode is the characters themselves.
proof fn lemma_ascii(bytes: Seq<u8>, chars: Seq<char>)
    requires
        codes(bytes, chars),
    ensures
        valid_utf8(bytes),
        forall|s: &str| #[trigger] s.spec_bytes() == bytes ==> s@ == chars,
{
    is_ascii_chars_encode_utf8(chars);
    assert(encode_utf8(chars) =~= bytes);
    encode_utf8_valid_utf8(chars);
    assert forall|s: &str| #[trigger] s.spec_bytes() == bytes implies s@ == chars by {
        encode_utf8_decode_utf8(s@);
        encode_utf8_decode_utf8(chars);
    }
}

/// Writes a time of day into the buffer and gives it as text.
pub fn fmt_time(buf: &mut [u8; 8], h: u8, m: u8, s: u8) -> (r: &str)
    requires
        h < 100,
        m < 100,
        s < 100,
    ensures
        r@ == time_text(h as int, m as int, s as int),
        final(buf)@ == time_text(h as int, m as int, s as int).map_values(|c: char| c as u8),
{
    buf[0] = ZERO + h / 10;
    buf[1] = ZERO + h % 10;
    buf[2] = COLON;
    buf[3] = ZERO + m / 10;
    buf[4] = ZERO + m % 10;
    buf[5] = COLON;
    buf[6] = ZERO + s / 10;
    buf[7] = ZERO + s % 10;
    proof {
        lemma_ascii(buf@, time_text(h as int, m as int, s as int));
    }
    core::str::from_utf8(buf).unwrap()
}

/// Writes a date into the buffer and gives it as text.
pub fn fmt_date(buf: &mut [u8; 10], d: u8, mo: u8, y: i32) -> (r: &str)
    requires
        d < 100,
        mo < 100,
    ensures
        r@ == date_text(d as int, mo as int, shown_year(y)),
        final(buf)@ == date_text(d as int, mo as int, shown_year(y)).map_values(|c: char| c as u8),
{
    let year: u32 = y as u32;
    assert(year == shown_year(y)) by {
        assert(y < 0 ==> y as u32 == y + 0x1_0000_0000) by (bit_vector);
    }
    buf[0] = ZERO + d / 10;
    buf[1] = ZERO + d % 10;
    buf[2] = FULL_STOP;
    buf[3] = ZERO + mo / 10;
    buf[4] = ZERO + mo % 10;
    buf[5] = FULL_STOP;
    buf[6] = ZERO + (year / 1000 % 10) as u8;
    buf[7] = ZERO + (year / 100 % 10) as u8;
    buf[8] = ZERO + (year / 10 % 10) as u8;
    buf[9] = ZERO + (year % 10) as u8;
    proof {
        lemma_ascii(buf@, date_text(d as int, mo as int, shown_year(y)));
    }
    core::str::from_utf8(buf).unwrap()
}

/// Different times of day are shown differently.
pub proof fn law_time_text_is_faithful(h: int, m: int, s: int, h2: int, m2: int, s2: int)
    requires
        0 <= h < 100 && 0 <= m < 100 && 0 <= s < 100,
        0 <= h2 < 100 && 0 <= m2 < 100 && 0 <= s2 < 100,
        time_text(h, m, s) == time_text(h2, m2, s2),
    ensures
        h == h2 && m == m2 && s == s2,
{
    let (a, b) = (time_text(h, m, s), time_text(h2, m2, s2));
    lemma_digit(h / 10, h2 / 10);
    lemma_digit(h % 10, h2 % 10);
    lemma_digit(m / 10, m2 / 10);
    lemma_digit(m % 10, m2 % 10);
    lemma_digit(s / 10, s2 / 10);
    lemma_digit(s % 10, s2 % 10);
    assert(a[0] == b[0] && a[1] == b[1] && a[3] == b[3] && a[4] == b[4] && a[6] == b[6] && a[7]
        == b[7]);
}

/// Different dates of the years 0 to 9999 are shown differently; years that
/// agree in their last four digits are shown alike.
pub proof fn law_date_text_is_faithful(d: int, mo: int, y: int, d2: int, mo2: int, y2: int)
    requires
        0 <= d < 100 && 0 <= mo < 100 && 0 <= y,
        0 <= d2 < 100 && 0 <= mo2 < 100 && 0 <= y2,
    ensures
        date_text(d, mo, y) == date_text(d2, mo2, y2) <==> (d == d2 && mo == mo2 && y % 10000 == y2
            % 10000),
{
    let (a, b) = (date_text(d, mo, y), date_text(d2, mo2, y2));
    lemma_digit(d / 10, d2 / 10);
    lemma_digit(d % 10, d2 % 10);
    lemma_digit(mo / 10, mo2 / 10);
    lemma_digit(mo % 10, mo2 % 10);
    lemma_digit(y / 1000 % 10, y2 / 1000 % 10);
    lemma_digit(y / 100 % 10, y2 / 100 % 10);
    lemma_digit(y / 10 % 10, y2 / 10 % 10);
    lemma_digit(y % 10, y2 % 10);
    lemma_last_four(y);
    lemma_last_four(y2);
    if a == b {
        assert(a[0] == b[0] && a[1] == b[1] && a[3] == b[3] && a[4] == b[4] && a[6] == b[6] && a[7]
            == b[7] && a[8] == b[8] && a[9] == b[9]);
    }
    if d == d2 && mo == mo2 && y % 10000 == y2 % 10000 {
        assert(a =~= b);
    }
}

/// The last four digits of a number make up its remainder by 10000.
proof fn lemma_last_four(y: int)
    requires
        0 <= y,
    ensures
        y % 10000 == 1000 * (y / 1000 % 10) + 100 * (y / 100 % 10) + 10 * (y / 10 % 10) + y % 10,
{
    let tens = y / 10;
    let hundreds = tens / 10;
    let thousands = hundreds / 10;
    let rest = thousands / 10;
    assert(hundreds == y / 100);
    assert(thousands == y / 1000);
    let last = 1000 * (thousands % 10) + 100 * (hundreds % 10) + 10 * (tens % 10) + y % 10;
    assert(y == 10000 * rest + last);
    assert(0 <= last < 10000);
}

/// Different digits have different characters.
proof fn lemma_digit(a: int, b: int)
    requires
        0 <= a < 10,
        0 <= b < 10,
    ensures
        digit(a) == digit(b) ==> a == b,
{
}

/// Reading the text of a time back gives the hour, the minute and the second,
/// in this order, with colons between them.
pub proof fn law_time_text_reads_back(h: int, m: int, s: int)
    requires
        0 <= h < 100 && 0 <= m < 100 && 0 <= s < 100,
    ensures
        ({
            let t = time_text(h, m, s);
            &&& t.len() == 8
            &&& 10 * (t[0] as int - '0' as int) + (t[1] as int - '0' as int) == h
            &&& t[2] == ':'
            &&& 10 * (t[3] as int - '0' as int) + (t[4] as int - '0' as int) == m
            &&& t[5] == ':'
            &&& 10 * (t[6] as int - '0' as int) + (t[7] as int - '0' as int) == s
            &&& forall|i: int|
                0 <= i < 8 && i != 2 && i != 5 ==> '0' as int <= #[trigger] t[i] as int <= '9' as int
        }),
{
}

/// Reading the text of a date back gives the day, the month and the last four
/// digits of the year, in this order, with full stops between them.
pub proof fn law_date_text_reads_back(d: int, mo: int, y: i32)
    requires
        0 <= d < 100 && 0 <= mo < 100,
    ensures
        ({
            let t = date_text(d, mo, shown_year(y));
            let year = 1000 * (t[6] as int - '0' as int) + 100 * (t[7] as int - '0' as int) + 10 * (
            t[8] as int - '0' as int) + (t[9] as int - '0' as int);
            &&& t.len() == 10
            &&& 10 * (t[0] as int - '0' as int) + (t[1] as int - '0' as int) == d
            &&& t[2] == '.'
            &&& 10 * (t[3] as int - '0' as int) + (t[4] as int - '0' as int) == mo
            &&& t[5] == '.'
            &&& 0 <= y ==> year == y % 10000
            &&& y < 0 ==> year == (y + 0x1_0000_0000) % 10000
            &&& forall|i: int|
                0 <= i < 10 && i != 2 && i != 5 ==> '0' as int <= #[trigger] t[i] as int
                    <= '9' as int
        }),
{
    lemma_last_four(shown_year(y));
}

} // verus!
