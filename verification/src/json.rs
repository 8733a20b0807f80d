//! The compact JSON text of the receipt document: strings, numbers and
//! `null`, written as `serde_json` writes them.

use vstd::prelude::*;
use vstd::string::*;
use crate::seal::hex_digit;
use crate::text::{chars_of, decimal, decimal_string, push_char};

verus! {

broadcast use vstd::string::group_string_axioms;

/// The JSON text of one character inside a string literal: quote and
/// backslash escaped, control characters as short escapes where JSON has
/// one and as `\u00xx` otherwise, every other character as itself.
pub open spec fn json_escape(c: char) -> Seq<char> {
    let n = c as u32;
    if c == '"' {
        seq!['\\', '"']
    } else if c == '\\' {
        seq!['\\', '\\']
    } else if n == 0x08 {
        seq!['\\', 'b']
    } else if n == 0x09 {
        seq!['\\', 't']
    } else if n == 0x0A {
        seq!['\\', 'n']
    } else if n == 0x0C {
        seq!['\\', 'f']
    } else if n == 0x0D {
        seq!['\\', 'r']
    } else if n < 0x20 {
        seq!['\\', 'u', '0', '0', hex_digit(n as int / 16), hex_digit(n as int % 16)]
    } else {
        seq![c]
    }
}

/// The escaped body of a JSON string literal.
pub open spec fn json_escaped(s: Seq<char>) -> Seq<char>
    decreases s.len(),
{
    if s.len() == 0 {
        Seq::empty()
    } else {
        json_escaped(s.drop_last()) + json_escape(s.last())
    }
}

/// A JSON string literal holding `s`.
pub open spec fn json_text(s: Seq<char>) -> Seq<char> {
    seq!['"'] + json_escaped(s) + seq!['"']
}

/// A JSON string literal, or `null` for an absent value.
pub open spec fn json_optional(s: Option<Seq<char>>) -> Seq<char> {
    match s {
        Some(t) => json_text(t),
        None => "null"@,
    }
}

fn push_escape(out: &mut String, c: char)
    ensures
        final(out)@ == old(out)@ + json_escape(c),
{
    let n = c as u32;
    let ghost before = out@;
    if c == '"' {
        push_char(out, '\\');
        push_char(out, '"');
    } else if c == '\\' {
        push_char(out, '\\');
        push_char(out, '\\');
    } else if n == 0x08 {
        push_char(out, '\\');
        push_char(out, 'b');
    } else if n == 0x09 {
        push_char(out, '\\');
        push_char(out, 't');
    } else if n == 0x0A {
        push_char(out, '\\');
        push_char(out, 'n');
    } else if n == 0x0C {
        push_char(out, '\\');
        push_char(out, 'f');
    } else if n == 0x0D {
        push_char(out, '\\');
        push_char(out, 'r');
    } else if n < 0x20 {
        let b = n as u8;
        push_char(out, '\\');
        push_char(out, 'u');
        push_char(out, '0');
        push_char(out, '0');
        push_char(out, if b / 16 < 10 { (48u8 + b / 16) as char } else { (87u8 + b / 16) as char });
        push_char(out, if b % 16 < 10 { (48u8 + b % 16) as char } else { (87u8 + b % 16) as char });
    } else {
        push_char(out, c);
    }
    assert(out@ =~= before + json_escape(c));
}

/// Appends the JSON string literal holding `s`.
pub fn push_json_text(out: &mut String, s: &str)
    ensures
        final(out)@ == old(out)@ + json_text(s@),
{
    let v = chars_of(s);
    let ghost start = out@;
    push_char(out, '"');
    let mut i: usize = 0;
    while i < v.len()
        invariant
            v@ == s@,
            i <= v@.len(),
            out@ == start + seq!['"'] + json_escaped(v@.subrange(0, i as int)),
        decreases v@.len() - i,
    {
        push_escape(out, v[i]);
        assert(v@.subrange(0, i + 1).drop_last() =~= v@.subrange(0, i as int));
        i = i + 1;
    }
    assert(v@.subrange(0, v@.len() as int) =~= v@);
    push_char(out, '"');
    assert(out@ =~= start + json_text(s@));
}

/// Appends a JSON string literal, or `null` when the value is absent.
pub fn push_json_optional(out: &mut String, s: &Option<String>)
    ensures
        final(out)@ == old(out)@ + json_optional(
            match s {
                Some(t) => Some(t@),
                None => None,
            },
        ),
{
    match s {
        Some(t) => push_json_text(out, t.as_str()),
        None => out.append("null"),
    }
}

/// Appends the JSON number `n`.
pub fn push_json_number(out: &mut String, n: i64)
    ensures
        final(out)@ == old(out)@ + decimal(n as int),
{
    let d = decimal_string(n);
    out.append(d.as_str());
}

/// The escaped body built from the front, one character at a time.
pub open spec fn escaped_front(s: Seq<char>) -> Seq<char>
    decreases s.len(),
{
    if s.len() == 0 {
        Seq::empty()
    } else {
        json_escape(s[0]) + escaped_front(s.drop_first())
    }
}

proof fn lemma_escaped_front_push(s: Seq<char>, c: char)
    ensures
        escaped_front(s.push(c)) == escaped_front(s) + json_escape(c),
    decreases s.len(),
{
    if s.len() == 0 {
        assert(s.push(c).drop_first() =~= Seq::<char>::empty());
        assert(s.push(c)[0] == c);
        assert(escaped_front(Seq::<char>::empty()) == Seq::<char>::empty());
        assert(escaped_front(s) == Seq::<char>::empty());
        assert(escaped_front(s.push(c)) == json_escape(c) + Seq::<char>::empty());
        assert(json_escape(c) + Seq::<char>::empty() =~= json_escape(c));
    } else {
        assert(s.push(c).drop_first() =~= s.drop_first().push(c));
        lemma_escaped_front_push(s.drop_first(), c);
        assert(escaped_front(s.push(c)) =~= escaped_front(s) + json_escape(c));
    }
}

/// Escaping from the back and from the front give the same text.
proof fn lemma_escaped_from_front(s: Seq<char>)
    ensures
        json_escaped(s) == escaped_front(s),
    decreases s.len(),
{
    if s.len() > 0 {
        lemma_escaped_from_front(s.drop_last());
        lemma_escaped_front_push(s.drop_last(), s.last());
        assert(s.drop_last().push(s.last()) =~= s);
    }
}

/// An escape never starts with a double quote, and its first character
/// tells a raw character from an escape sequence.
proof fn lemma_escape_head(c: char)
    ensures
        json_escape(c).len() >= 1,
        json_escape(c)[0] != '"',
        json_escape(c)[0] != '\\' ==> json_escape(c) == seq![c],
{
}

proof fn lemma_hex_digit_injective(a: int, b: int)
    requires
        0 <= a < 16,
        0 <= b < 16,
        crate::seal::hex_digit(a) == crate::seal::hex_digit(b),
    ensures
        a == b,
{
}

/// Escapes are uniquely decodable: an escape followed by anything equals
/// another escape followed by anything only for the same character.
proof fn lemma_escape_unique(c1: char, c2: char, x: Seq<char>, y: Seq<char>)
    requires
        json_escape(c1) + x == json_escape(c2) + y,
    ensures
        c1 == c2,
        x == y,
{
    let e1 = json_escape(c1);
    let e2 = json_escape(c2);
    let l = e1 + x;
    let r = e2 + y;
    lemma_escape_head(c1);
    lemma_escape_head(c2);
    assert(l[0] == e1[0]);
    assert(r[0] == e2[0]);
    if e1[0] != '\\' {
        assert(e2[0] != '\\');
        assert(c1 == c2);
    } else {
        assert(e1.len() >= 2);
        assert(e2.len() >= 2);
        assert(l[1] == e1[1]);
        assert(r[1] == e2[1]);
        if e1[1] == 'u' {
            assert(e2[1] == 'u');
            assert(e1.len() == 6 && e2.len() == 6);
            assert(l[4] == e1[4] && r[4] == e2[4]);
            assert(l[5] == e1[5] && r[5] == e2[5]);
            let n1 = c1 as u32;
            let n2 = c2 as u32;
            lemma_hex_digit_injective(n1 as int / 16, n2 as int / 16);
            lemma_hex_digit_injective(n1 as int % 16, n2 as int % 16);
            assert(n1 == n2);
            vstd::utf8::char_u32_cast(c1, n1);
        } else {
            assert(c1 == c2);
        }
    }
    assert(e1 == e2);
    assert(x =~= l.subrange(e1.len() as int, l.len() as int));
    assert(y =~= r.subrange(e2.len() as int, r.len() as int));
}

/// The escaped body ends at the first unescaped double quote.
proof fn lemma_body_unique(a: Seq<char>, b: Seq<char>, x: Seq<char>, y: Seq<char>)
    requires
        escaped_front(a) + seq!['"'] + x == escaped_front(b) + seq!['"'] + y,
    ensures
        a == b,
        x == y,
    decreases a.len(),
{
    let l = escaped_front(a) + seq!['"'] + x;
    let r = escaped_front(b) + seq!['"'] + y;
    if a.len() == 0 {
        assert(l[0] == '"');
        if b.len() > 0 {
            lemma_escape_head(b[0]);
            assert(r =~= json_escape(b[0]) + (escaped_front(b.drop_first()) + seq!['"'] + y));
            assert(r[0] == json_escape(b[0])[0]);
        }
        assert(x =~= l.drop_first());
        assert(y =~= r.drop_first());
    } else if b.len() == 0 {
        lemma_escape_head(a[0]);
        assert(l =~= json_escape(a[0]) + (escaped_front(a.drop_first()) + seq!['"'] + x));
        assert(l[0] == json_escape(a[0])[0]);
        assert(r[0] == '"');
    } else {
        let ra = escaped_front(a.drop_first()) + seq!['"'] + x;
        let rb = escaped_front(b.drop_first()) + seq!['"'] + y;
        assert(l =~= json_escape(a[0]) + ra);
        assert(r =~= json_escape(b[0]) + rb);
        lemma_escape_unique(a[0], b[0], ra, rb);
        lemma_body_unique(a.drop_first(), b.drop_first(), x, y);
        assert(a =~= seq![a[0]] + a.drop_first());
        assert(b =~= seq![b[0]] + b.drop_first());
    }
}

/// JSON string literals are uniquely decodable: a literal followed by
/// anything equals another literal followed by anything only when both
/// strings and both remainders are equal.
pub proof fn lemma_json_text_unique(a: Seq<char>, b: Seq<char>, x: Seq<char>, y: Seq<char>)
    requires
        json_text(a) + x == json_text(b) + y,
    ensures
        a == b,
        x == y,
{
    lemma_escaped_from_front(a);
    lemma_escaped_from_front(b);
    let l = json_text(a) + x;
    let r = json_text(b) + y;
    assert(l.drop_first() =~= escaped_front(a) + seq!['"'] + x);
    assert(r.drop_first() =~= escaped_front(b) + seq!['"'] + y);
    lemma_body_unique(a, b, x, y);
}

/// Strips a common prefix and a JSON string literal.
pub proof fn lemma_peel_text(p: Seq<char>, a: Seq<char>, b: Seq<char>, x: Seq<char>, y: Seq<char>)
    requires
        p + (json_text(a) + x) == p + (json_text(b) + y),
    ensures
        a == b,
        x == y,
{
    let l = p + (json_text(a) + x);
    let r = p + (json_text(b) + y);
    assert(json_text(a) + x =~= l.subrange(p.len() as int, l.len() as int));
    assert(json_text(b) + y =~= r.subrange(p.len() as int, r.len() as int));
    lemma_json_text_unique(a, b, x, y);
}

/// An optional string (a literal or `null`) is uniquely decodable.
pub proof fn lemma_json_optional_unique(
    a: Option<Seq<char>>,
    b: Option<Seq<char>>,
    x: Seq<char>,
    y: Seq<char>,
)
    requires
        json_optional(a) + x == json_optional(b) + y,
    ensures
        a == b,
        x == y,
{
    reveal_strlit("null");
    let l = json_optional(a) + x;
    let r = json_optional(b) + y;
    match (a, b) {
        (Some(s), Some(t)) => {
            lemma_json_text_unique(s, t, x, y);
        },
        (None, None) => {
            assert(x =~= l.subrange(4, l.len() as int));
            assert(y =~= r.subrange(4, r.len() as int));
        },
        (Some(s), None) => {
            assert(l[0] == json_text(s)[0]);
            assert(r[0] == 'n');
        },
        (None, Some(t)) => {
            assert(l[0] == 'n');
            assert(r[0] == json_text(t)[0]);
        },
    }
}

} // verus!
