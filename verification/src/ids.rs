//! Identifiers of stored documents.

use vstd::prelude::*;

verus! {

/// Identifier of a stored document: twelve bytes, written as 24 hexadecimal digits.
#[derive(Clone, Copy, Debug, PartialEq, Eq, Structural)]
pub struct Oid {
    pub b0: u8,
    pub b1: u8,
    pub b2: u8,
    pub b3: u8,
    pub b4: u8,
    pub b5: u8,
    pub b6: u8,
    pub b7: u8,
    pub b8: u8,
    pub b9: u8,
    pub b10: u8,
    pub b11: u8,
}

impl View for Oid {
    type V = Seq<u8>;

    open spec fn view(&self) -> Seq<u8> {
        seq![
            self.b0,
            self.b1,
            self.b2,
            self.b3,
            self.b4,
            self.b5,
            self.b6,
            self.b7,
            self.b8,
            self.b9,
            self.b10,
            self.b11,
        ]
    }
}

/// Whether `c` is a hexadecimal digit, of either case.
pub open spec fn is_hex_digit(c: char) -> bool {
    ('0' <= c && c <= '9') || ('a' <= c && c <= 'f') || ('A' <= c && c <= 'F')
}

/// Value of the hexadecimal digit `c`.
pub open spec fn hex_digit_value(c: char) -> int {
    if '0' <= c && c <= '9' {
        c as int - '0' as int
    } else if 'a' <= c && c <= 'f' {
        c as int - 'a' as int + 10
    } else {
        c as int - 'A' as int + 10
    }
}

/// The lower-case hexadecimal digit of value `v`.
pub open spec fn hex_digit(v: int) -> char {
    if v < 10 {
        ('0' as int + v) as char
    } else {
        ('a' as int + (v - 10)) as char
    }
}

/// Whether `s` is the text of an identifier: exactly 24 hexadecimal digits.
pub open spec fn is_oid_text(s: Seq<char>) -> bool {
    s.len() == 24 && forall|i: int| 0 <= i < 24 ==> is_hex_digit(#[trigger] s[i])
}

/// The byte that the digits at `2 * i` and `2 * i + 1` of `s` stand for.
pub open spec fn byte_at(s: Seq<char>, i: int) -> u8 {
    (16 * hex_digit_value(s[2 * i]) + hex_digit_value(s[2 * i + 1])) as u8
}

/// The identifier that `s` spells, if it spells one.
pub open spec fn oid_of(s: Seq<char>) -> Option<Oid> {
    if is_oid_text(s) {
        Some(
            Oid {
                b0: byte_at(s, 0),
                b1: byte_at(s, 1),
                b2: byte_at(s, 2),
                b3: byte_at(s, 3),
                b4: byte_at(s, 4),
                b5: byte_at(s, 5),
                b6: byte_at(s, 6),
                b7: byte_at(s, 7),
                b8: byte_at(s, 8),
                b9: byte_at(s, 9),
                b10: byte_at(s, 10),
                b11: byte_at(s, 11),
            },
        )
    } else {
        None
    }
}

/// The text of an identifier: 24 lower-case hexadecimal digits.
pub open spec fn hex_of(o: Oid) -> Seq<char> {
    Seq::new(
        24,
        |i: int|
            if i % 2 == 0 {
                hex_digit(o@[i / 2] as int / 16)
            } else {
                hex_digit(o@[i / 2] as int % 16)
            },
    )
}

/// The texts of a list of identifiers, in order.
pub open spec fn hex_all(ids: Seq<Oid>) -> Seq<Seq<char>> {
    ids.map_values(|o: Oid| hex_of(o))
}

/// Reads an identifier with `mongodb::bson::oid::ObjectId::parse_str`: it accepts
/// exactly the texts of 24 hexadecimal digits, of either case, and yields the
/// twelve bytes that the digit pairs stand for.
#[verifier::external_body]
pub(crate) fn parse_oid(s: &str) -> (r: Option<Oid>)
    ensures
        r == oid_of(s@),
{
    match mongodb::bson::oid::ObjectId::parse_str(s) {
        Err(_) => None,
        Ok(id) => {
            let [b0, b1, b2, b3, b4, b5, b6, b7, b8, b9, b10, b11] = id.bytes();
            Some(Oid { b0, b1, b2, b3, b4, b5, b6, b7, b8, b9, b10, b11 })
        }
    }
}

/// Writes an identifier with `mongodb::bson::oid::ObjectId::to_hex`: two
/// lower-case hexadecimal digits for each byte, high digit first.
#[verifier::external_body]
pub(crate) fn to_hex(o: Oid) -> (r: String)
    ensures
        r@ == hex_of(o),
{
    let Oid { b0, b1, b2, b3, b4, b5, b6, b7, b8, b9, b10, b11 } = o;
    mongodb::bson::oid::ObjectId::from_bytes([b0, b1, b2, b3, b4, b5, b6, b7, b8, b9, b10, b11])
        .to_hex()
}

impl Oid {
    /// Reads the identifier that `s` spells.
    pub fn parse(s: &str) -> (r: Option<Oid>)
        ensures
            r == oid_of(s@),
    {
        parse_oid(s)
    }

    /// Writes the identifier as 24 lower-case hexadecimal digits.
    pub fn hex(self) -> (r: String)
        ensures
            r@ == hex_of(self),
    {
        to_hex(self)
    }
}

/// Whether `text` is the written form of `o`.
pub fn is_hex_of(o: Oid, text: &str) -> (r: bool)
    ensures
        r == (hex_of(o) == text@),
{
    to_hex(o) == text.to_owned()
}

/// The written forms of `ids`, in order.
pub fn to_hex_all(ids: &Vec<Oid>) -> (r: Vec<String>)
    ensures
        crate::text::texts(r@) == hex_all(ids@),
{
    let mut out: Vec<String> = Vec::new();
    let mut i: usize = 0;
    while i < ids.len()
        invariant
            i <= ids.len(),
            crate::text::texts(out@) == hex_all(ids@.take(i as int)),
        decreases ids.len() - i,
    {
        let ghost before = out@;
        out.push(to_hex(ids[i]));
        i += 1;
        assert(crate::text::texts(out@) =~= crate::text::texts(before).push(hex_of(ids@[i - 1])));
        assert(hex_all(ids@.take(i as int)) =~= hex_all(ids@.take(i - 1)).push(hex_of(ids@[i - 1])));
        assert(crate::text::texts(out@) =~= hex_all(ids@.take(i as int)));
    }
    assert(ids@.take(i as int) =~= ids@);
    out
}

/// The text of an identifier spells that identifier.
pub proof fn law_written_id_reads_back(o: Oid)
    ensures
        oid_of(hex_of(o)) == Some(o),
{
    let s = hex_of(o);
    assert forall|i: int| 0 <= i < 24 implies is_hex_digit(#[trigger] s[i]) by {
        lemma_hex_digit(o@[i / 2] as int / 16);
        lemma_hex_digit(o@[i / 2] as int % 16);
    }
    assert forall|i: int| 0 <= i < 12 implies byte_at(s, i) == #[trigger] o@[i] by {
        lemma_hex_digit(o@[i] as int / 16);
        lemma_hex_digit(o@[i] as int % 16);
        assert((2 * i) / 2 == i && (2 * i + 1) / 2 == i);
        assert(s[2 * i] == hex_digit(o@[i] as int / 16));
        assert(s[2 * i + 1] == hex_digit(o@[i] as int % 16));
    }
    assert(o@[0] == o.b0 && o@[1] == o.b1 && o@[2] == o.b2 && o@[3] == o.b3);
    assert(o@[4] == o.b4 && o@[5] == o.b5 && o@[6] == o.b6 && o@[7] == o.b7);
    assert(o@[8] == o.b8 && o@[9] == o.b9 && o@[10] == o.b10 && o@[11] == o.b11);
}

/// Two identifiers with the same text are the same identifier.
pub proof fn law_written_ids_are_distinct(a: Oid, b: Oid)
    requires
        hex_of(a) == hex_of(b),
    ensures
        a == b,
{
    law_written_id_reads_back(a);
    law_written_id_reads_back(b);
}

/// An identifier is spelled by 24 hexadecimal digits, small or capital, and by nothing else.
pub proof fn law_identifiers_are_24_digits(s: Seq<char>)
    ensures
        oid_of(s) is Some <==> s.len() == 24 && forall|i: int|
            0 <= i < 24 ==> ('0' <= #[trigger] s[i] && s[i] <= '9') || ('a' <= s[i] && s[i] <= 'f')
                || ('A' <= s[i] && s[i] <= 'F'),
        oid_of(Seq::empty()) is None,
{
    if s.len() == 24 && (forall|i: int|
        0 <= i < 24 ==> ('0' <= #[trigger] s[i] && s[i] <= '9') || ('a' <= s[i] && s[i] <= 'f') || (
        'A' <= s[i] && s[i] <= 'F')) {
        assert forall|i: int| 0 <= i < 24 implies is_hex_digit(#[trigger] s[i]) by {}
    }
    if is_oid_text(s) {
        assert forall|i: int| 0 <= i < 24 implies ('0' <= #[trigger] s[i] && s[i] <= '9') || ('a'
            <= s[i] && s[i] <= 'f') || ('A' <= s[i] && s[i] <= 'F') by {
            assert(is_hex_digit(s[i]));
        }
    }
}

proof fn lemma_hex_digit(v: int)
    requires
        0 <= v < 16,
    ensures
        is_hex_digit(hex_digit(v)),
        hex_digit_value(hex_digit(v)) == v,
{
}

} // verus!
