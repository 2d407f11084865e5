//! Percent-encoding of text in addresses.

use vstd::prelude::*;

use crate::text;

verus! {

/// The upper-case hexadecimal digit of value `v`.
pub open spec fn upper_digit(v: u8) -> char {
    if v < 10 {
        (48 + v) as u8 as char
    } else {
        (55 + v) as u8 as char
    }
}

/// Whether the byte `b` is written as it is: letters, digits, `-` and `_`, and where `dots` holds
/// also `.` and `~`.
pub open spec fn is_plain(b: u8, dots: bool) -> bool {
    (65 <= b && b <= 90) || (97 <= b && b <= 122) || (48 <= b && b <= 57) || b == 45 || b == 95 || (dots
        && (b == 46 || b == 126))
}

/// How the byte `b` is written.
pub open spec fn written(b: u8, dots: bool) -> Seq<char> {
    if is_plain(b, dots) {
        seq![b as char]
    } else {
        seq!['%', upper_digit(b / 16), upper_digit(b % 16)]
    }
}

/// How `bytes` are written, one after the other.
pub open spec fn encoded(bytes: Seq<u8>, dots: bool) -> Seq<char>
    decreases bytes.len(),
{
    if bytes.len() == 0 {
        Seq::empty()
    } else {
        written(bytes[0], dots) + encoded(bytes.drop_first(), dots)
    }
}

fn upper(v: u8) -> (r: char)
    requires
        v < 16,
    ensures
        r == upper_digit(v),
{
    if v < 10 {
        (48 + v) as char
    } else {
        (55 + v) as char
    }
}

/// Writes the bytes of `value`; see `is_plain`.
pub fn encode(value: &str, dots: bool) -> (r: String)
    ensures
        r@ == encoded(vstd::utf8::encode_utf8(value@), dots),
{
    let bytes = value.as_bytes();
    let ghost all = bytes@;
    let mut out = String::new();
    let mut i: usize = 0;
    assert(all.skip(0) =~= all);
    assert(out@ + encoded(all, dots) =~= encoded(all, dots));
    while i < bytes.len()
        invariant
            i <= bytes.len(),
            all == bytes@,
            encoded(all, dots) == out@ + encoded(all.skip(i as int), dots),
        decreases bytes.len() - i,
    {
        let b: u8 = bytes[i];
        let ghost before = out@;
        assert(all.skip(i as int)[0] == b);
        assert(all.skip(i as int).drop_first() =~= all.skip(i + 1));
        if (65 <= b && b <= 90) || (97 <= b && b <= 122) || (48 <= b && b <= 57) || b == 45 || b == 95
            || (dots && (b == 46 || b == 126)) {
            out.push(b as char);
        } else {
            out.push('%');
            out.push(upper(b / 16));
            out.push(upper(b % 16));
        }
        assert(out@ =~= before + written(b, dots));
        assert(out@ + encoded(all.skip(i + 1), dots) =~= before + (written(b, dots) + encoded(
            all.skip(i + 1),
            dots,
        )));
        i += 1;
    }
    assert(encoded(all.skip(i as int), dots) =~= Seq::<char>::empty());
    assert(out@ =~= encoded(all, dots));
    out
}

/// The value of the hexadecimal digit `b`, if it is one.
pub open spec fn digit_value(b: u8) -> Option<u8> {
    if 48 <= b && b <= 57 {
        Some((b - 48) as u8)
    } else if 65 <= b && b <= 70 {
        Some((b - 55) as u8)
    } else if 97 <= b && b <= 102 {
        Some((b - 87) as u8)
    } else {
        None
    }
}

/// The byte that two characters after a percent sign spell: two hexadecimal digits, or one after
/// a plus sign.
pub open spec fn pair_value(a: u8, b: u8) -> Option<u8> {
    if digit_value(b) is None {
        None
    } else if a == 43 {
        digit_value(b)
    } else if digit_value(a) is None {
        None
    } else {
        Some((16 * digit_value(a)->0 + digit_value(b)->0) as u8)
    }
}

/// What `bytes` spell: each pair after a percent sign stands for a byte, every other byte for
/// itself, and each byte is taken as the character of that number. Nothing where a percent sign
/// with two bytes after it spells no byte.
pub open spec fn decoded(bytes: Seq<u8>) -> Option<Seq<char>>
    decreases bytes.len(),
{
    if bytes.len() == 0 {
        Some(Seq::empty())
    } else if bytes[0] == 37 && bytes.len() > 2 {
        match (pair_value(bytes[1], bytes[2]), decoded(bytes.skip(3))) {
            (Some(v), Some(rest)) => Some(seq![v as char] + rest),
            _ => None,
        }
    } else {
        match decoded(bytes.skip(1)) {
            Some(rest) => Some(seq![bytes[0] as char] + rest),
            None => None,
        }
    }
}

fn digit(b: u8) -> (r: Option<u8>)
    ensures
        r == digit_value(b),
        r matches Some(v) ==> v < 16,
{
    if 48 <= b && b <= 57 {
        Some(b - 48)
    } else if 65 <= b && b <= 70 {
        Some(b - 55)
    } else if 97 <= b && b <= 102 {
        Some(b - 87)
    } else {
        None
    }
}

fn pair(a: u8, b: u8) -> (r: Option<u8>)
    ensures
        r == pair_value(a, b),
{
    let low = match digit(b) {
        None => return None,
        Some(v) => v,
    };
    if a == 43 {
        return Some(low);
    }
    match digit(a) {
        None => None,
        Some(high) => Some(16 * high + low),
    }
}

/// Reads what `value` spells.
pub fn decode(value: &str) -> (r: Option<String>)
    ensures
        text::opt(r) == decoded(vstd::utf8::encode_utf8(value@)),
{
    let bytes = value.as_bytes();
    let ghost all = bytes@;
    let mut out = String::new();
    let mut i: usize = 0;
    assert(all.skip(0) =~= all);
    assert(forall|t: Seq<char>| Seq::<char>::empty() + t =~= t);
    while i < bytes.len()
        invariant
            i <= bytes.len(),
            all == bytes@,
            all == vstd::utf8::encode_utf8(value@),
            decoded(all) == (match decoded(all.skip(i as int)) {
                None => None,
                Some(rest) => Some(out@ + rest),
            }),
        decreases bytes.len() - i,
    {
        let ghost rest = all.skip(i as int);
        let ghost before = out@;
        assert(rest[0] == all[i as int]);
        if bytes[i] == 37 && bytes.len() - i > 2 {
            assert(rest[1] == all[i + 1] && rest[2] == all[i + 2]);
            assert(rest.skip(3) =~= all.skip(i + 3));
            match pair(bytes[i + 1], bytes[i + 2]) {
                None => return None,
                Some(v) => {
                    out.push(v as char);
                    assert(forall|t: Seq<char>| #[trigger]
                        (out@ + t) =~= before + (seq![v as char] + t));
                },
            }
            i += 3;
        } else {
            assert(rest.skip(1) =~= all.skip(i + 1));
            let b: u8 = bytes[i];
            out.push(b as char);
            assert(forall|t: Seq<char>| #[trigger] (out@ + t) =~= before + (seq![b as char] + t));
            i += 1;
        }
    }
    assert(all.skip(i as int) =~= Seq::<u8>::empty());
    assert(out@ + Seq::<char>::empty() =~= out@);
    Some(out)
}

/// The bytes taken as the characters of their numbers.
pub open spec fn as_chars(bytes: Seq<u8>) -> Seq<char> {
    bytes.map_values(|b: u8| b as char)
}

/// What is written holds only letters, digits, `-`, `_`, `%` and, where they are left, `.` and `~`.
pub open spec fn is_written(c: char, dots: bool) -> bool {
    ('A' <= c && c <= 'Z') || ('a' <= c && c <= 'z') || ('0' <= c && c <= '9') || c == '-' || c == '_'
        || c == '%' || (dots && (c == '.' || c == '~'))
}

/// Whatever is written holds no character outside that set.
pub proof fn law_written_text_is_safe(bytes: Seq<u8>, dots: bool)
    ensures
        forall|i: int|
            0 <= i < encoded(bytes, dots).len() ==> is_written(#[trigger] encoded(bytes, dots)[i], dots),
    decreases bytes.len(),
{
    if bytes.len() > 0 {
        law_written_text_is_safe(bytes.drop_first(), dots);
        let head = written(bytes[0], dots);
        let tail = encoded(bytes.drop_first(), dots);
        assert forall|i: int| 0 <= i < encoded(bytes, dots).len() implies is_written(
            #[trigger] encoded(bytes, dots)[i],
            dots,
        ) by {
            if i < head.len() {
                assert(encoded(bytes, dots)[i] == head[i]);
            } else {
                assert(encoded(bytes, dots)[i] == tail[i - head.len()]);
            }
        }
    }
}

proof fn lemma_written_is_ascii(bytes: Seq<u8>, dots: bool)
    ensures
        vstd::utf8::is_ascii_chars(encoded(bytes, dots)),
        vstd::utf8::encode_utf8(encoded(bytes, dots)) == Seq::new(
            encoded(bytes, dots).len(),
            |i: int| encoded(bytes, dots)[i] as u8,
        ),
{
    law_written_text_is_safe(bytes, dots);
    let e = encoded(bytes, dots);
    assert forall|i: int| 0 <= i < e.len() implies 0 <= #[trigger] e[i] as nat && (e[i] as nat) < 128 by {
        assert(is_written(e[i], dots));
    }
    vstd::utf8::is_ascii_chars_encode_utf8(e);
    assert(vstd::utf8::encode_utf8(e) =~= Seq::new(e.len(), |i: int| e[i] as u8));
}

proof fn lemma_decode_written(bytes: Seq<u8>, dots: bool)
    ensures
        decoded(
            Seq::new(encoded(bytes, dots).len(), |i: int| encoded(bytes, dots)[i] as u8),
        ) == Some(as_chars(bytes)),
    decreases bytes.len(),
{
    let e = encoded(bytes, dots);
    let raw = Seq::new(e.len(), |i: int| e[i] as u8);
    if bytes.len() == 0 {
        assert(raw =~= Seq::<u8>::empty());
        assert(as_chars(bytes) =~= Seq::<char>::empty());
    } else {
        let rest = bytes.drop_first();
        lemma_decode_written(rest, dots);
        let t = encoded(rest, dots);
        let raw_rest = Seq::new(t.len(), |i: int| t[i] as u8);
        let b = bytes[0];
        assert(as_chars(bytes) =~= seq![b as char] + as_chars(rest));
        if is_plain(b, dots) {
            assert(e =~= seq![b as char] + t);
            assert(raw[0] == b);
            assert(raw.skip(1) =~= raw_rest);
        } else {
            assert(e =~= seq!['%', upper_digit(b / 16), upper_digit(b % 16)] + t);
            assert(e[0] == '%' && e[1] == upper_digit(b / 16) && e[2] == upper_digit(b % 16));
            assert(raw[0] == 37);
            lemma_digit(b / 16);
            lemma_digit(b % 16);
            assert(raw[1] == upper_digit(b / 16) as u8 && raw[2] == upper_digit(b % 16) as u8);
            assert(raw.skip(3) =~= raw_rest);
            assert(16 * (b / 16) + b % 16 == b);
            assert(pair_value(raw[1], raw[2]) == Some(b));
        }
    }
}

proof fn lemma_digit(v: u8)
    requires
        v < 16,
    ensures
        digit_value(upper_digit(v) as u8) == Some(v),
        upper_digit(v) as u8 != 43,
{
}

/// What was written from a text of ASCII characters reads back as that text.
pub proof fn law_ascii_text_reads_back(s: Seq<char>, dots: bool)
    requires
        vstd::utf8::is_ascii_chars(s),
    ensures
        decoded(
            vstd::utf8::encode_utf8(encoded(vstd::utf8::encode_utf8(s), dots)),
        ) == Some(s),
{
    let bytes = vstd::utf8::encode_utf8(s);
    lemma_written_is_ascii(bytes, dots);
    lemma_decode_written(bytes, dots);
    vstd::utf8::is_ascii_chars_encode_utf8(s);
    vstd::utf8::is_ascii_chars_nat_bound(s);
    assert(as_chars(bytes) =~= s);
}

/// What was written from any text reads back as the bytes of that text, each taken as the
/// character of its number.
pub proof fn law_bytes_read_back(s: Seq<char>, dots: bool)
    ensures
        decoded(
            vstd::utf8::encode_utf8(encoded(vstd::utf8::encode_utf8(s), dots)),
        ) == Some(as_chars(vstd::utf8::encode_utf8(s))),
{
    let bytes = vstd::utf8::encode_utf8(s);
    lemma_written_is_ascii(bytes, dots);
    lemma_decode_written(bytes, dots);
}

} // verus!
