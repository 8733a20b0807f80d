//! Character-level text handling shared by validation, receipts and exports.

use vstd::prelude::*;
use vstd::string::*;

verus! {

broadcast use vstd::string::group_string_axioms;

/// Unicode `White_Space` property, the set that `str::trim` and
/// `char::is_whitespace` use.
pub open spec fn is_white_space(c: char) -> bool {
    let n = c as u32;
    ||| 0x09 <= n <= 0x0D
    ||| n == 0x20
    ||| n == 0x85
    ||| n == 0xA0
    ||| n == 0x1680
    ||| 0x2000 <= n <= 0x200A
    ||| n == 0x2028
    ||| n == 0x2029
    ||| n == 0x202F
    ||| n == 0x205F
    ||| n == 0x3000
}

/// Executable test for `is_white_space`.
pub fn white_space(c: char) -> (r: bool)
    ensures
        r == is_white_space(c),
{
    let n = c as u32;
    (0x09 <= n && n <= 0x0D) || n == 0x20 || n == 0x85 || n == 0xA0 || n == 0x1680 || (0x2000
        <= n && n <= 0x200A) || n == 0x2028 || n == 0x2029 || n == 0x202F || n == 0x205F || n
        == 0x3000
}

/// The characters of `s` with leading white space removed.
pub open spec fn trim_start(s: Seq<char>) -> Seq<char>
    decreases s.len(),
{
    if s.len() > 0 && is_white_space(s[0]) {
        trim_start(s.drop_first())
    } else {
        s
    }
}

/// The characters of `s` with trailing white space removed.
pub open spec fn trim_end(s: Seq<char>) -> Seq<char>
    decreases s.len(),
{
    if s.len() > 0 && is_white_space(s.last()) {
        trim_end(s.drop_last())
    } else {
        s
    }
}

/// What `str::trim` leaves of `s`.
pub open spec fn trimmed(s: Seq<char>) -> Seq<char> {
    trim_end(trim_start(s))
}

/// Where leading white space ends: `trim_start(s)` is `s` from that
/// position on.
pub proof fn lemma_trim_start_cut(s: Seq<char>) -> (a: int)
    ensures
        0 <= a <= s.len(),
        trim_start(s) == s.subrange(a, s.len() as int),
        forall|i: int| 0 <= i < a ==> is_white_space(#[trigger] s[i]),
        a < s.len() ==> !is_white_space(s[a]),
    decreases s.len(),
{
    if s.len() > 0 && is_white_space(s[0]) {
        let rest = s.drop_first();
        let a1 = lemma_trim_start_cut(rest);
        assert forall|i: int| 0 <= i < a1 + 1 implies is_white_space(#[trigger] s[i]) by {
            if i > 0 {
                assert(s[i] == rest[i - 1]);
            }
        }
        assert(rest.subrange(a1, rest.len() as int) =~= s.subrange(a1 + 1, s.len() as int));
        a1 + 1
    } else {
        assert(s.subrange(0, s.len() as int) =~= s);
        0
    }
}

/// Where trailing white space begins: `trim_end(s)` is `s` up to that
/// position.
pub proof fn lemma_trim_end_cut(s: Seq<char>) -> (b: int)
    ensures
        0 <= b <= s.len(),
        trim_end(s) == s.subrange(0, b),
        forall|i: int| b <= i < s.len() ==> is_white_space(#[trigger] s[i]),
        b > 0 ==> !is_white_space(s[b - 1]),
    decreases s.len(),
{
    if s.len() > 0 && is_white_space(s.last()) {
        let rest = s.drop_last();
        let b1 = lemma_trim_end_cut(rest);
        assert forall|i: int| b1 <= i < s.len() implies is_white_space(#[trigger] s[i]) by {
            if i < s.len() - 1 {
                assert(s[i] == rest[i]);
            }
        }
        assert(rest.subrange(0, b1) =~= s.subrange(0, b1));
        b1
    } else {
        assert(s.subrange(0, s.len() as int) =~= s);
        s.len() as int
    }
}

/// The characters of a string, in order.
pub fn chars_of(s: &str) -> (v: Vec<char>)
    ensures
        v@ == s@,
{
    let mut v: Vec<char> = Vec::new();
    for c in it: s.chars()
        invariant
            v@ == it.history(),
    {
        v.push(c);
    }
    v
}

/// Bounds `(start, end)` such that `s[start..end]` is `trimmed(s)`.
pub fn trim_bounds(v: &Vec<char>) -> (r: (usize, usize))
    ensures
        r.0 <= r.1 <= v@.len(),
        v@.subrange(r.0 as int, r.1 as int) == trimmed(v@),
{
    let n = v.len();
    let mut i: usize = 0;
    assert(v@.subrange(0, n as int) =~= v@);
    while i < n && white_space(v[i])
        invariant
            n == v@.len(),
            i <= n,
            trim_start(v@) == trim_start(v@.subrange(i as int, n as int)),
        decreases n - i,
    {
        assert(v@.subrange(i as int, n as int).drop_first() =~= v@.subrange(i + 1, n as int));
        i = i + 1;
    }
    assert(trim_start(v@) == v@.subrange(i as int, n as int));
    let mut j: usize = n;
    while j > i && white_space(v[j - 1])
        invariant
            n == v@.len(),
            i <= j <= n,
            trim_end(v@.subrange(i as int, n as int)) == trim_end(v@.subrange(i as int, j as int)),
        decreases j - i,
    {
        assert(v@.subrange(i as int, j as int).drop_last() =~= v@.subrange(i as int, j - 1));
        j = j - 1;
    }
    (i, j)
}

/// `str::trim`: `s` without leading and trailing white space.
pub fn trim(s: &str) -> (r: &str)
    ensures
        r@ == trimmed(s@),
{
    let v = chars_of(s);
    let (a, b) = trim_bounds(&v);
    s.substring_char(a, b)
}

/// Whether two strings hold the same characters.
pub fn same_text(a: &str, b: &str) -> (r: bool)
    ensures
        r == (a@ == b@),
{
    let x = chars_of(a);
    let y = chars_of(b);
    if x.len() != y.len() {
        return false;
    }
    let mut i: usize = 0;
    while i < x.len()
        invariant
            x@ == a@,
            y@ == b@,
            x@.len() == y@.len(),
            i <= x@.len(),
            forall|k: int| 0 <= k < i ==> x@[k] == y@[k],
        decreases x@.len() - i,
    {
        if x[i] != y[i] {
            return false;
        }
        i = i + 1;
    }
    assert(x@ =~= y@);
    true
}

/// `String::push`: appends one character.
#[verifier::external_body]
pub(crate) fn push_char(s: &mut String, c: char)
    ensures
        final(s)@ == old(s)@.push(c),
{
    s.push(c);
}

/// What `str::to_lowercase` returns for the characters `s` (the Unicode
/// lowercase mapping, a function of the characters alone).
pub uninterp spec fn lowercased(s: Seq<char>) -> Seq<char>;

/// `str::to_lowercase`. Its result is named, not spelled out: the
/// Unicode case tables are not restated here.
#[verifier::external_body]
pub(crate) fn lowercase(s: &str) -> (r: String)
    ensures
        r@ == lowercased(s@),
{
    s.to_lowercase()
}

/// `char::to_ascii_uppercase`.
pub open spec fn ascii_upper(c: char) -> char {
    if 'a' <= c <= 'z' {
        ((c as u32) - 32) as char
    } else {
        c
    }
}

/// `str::to_ascii_uppercase`: ASCII letters upper-cased, everything else kept.
pub fn to_ascii_upper(s: &str) -> (r: String)
    ensures
        r@ == s@.map_values(|c: char| ascii_upper(c)),
{
    let v = chars_of(s);
    let mut r = String::new();
    let mut i: usize = 0;
    while i < v.len()
        invariant
            v@ == s@,
            i <= v@.len(),
            r@ == v@.subrange(0, i as int).map_values(|c: char| ascii_upper(c)),
        decreases v@.len() - i,
    {
        let c = v[i];
        let u = if 'a' <= c && c <= 'z' {
            ((c as u8) - 32) as char
        } else {
            c
        };
        assert(u == ascii_upper(c)) by {
            if 'a' <= c <= 'z' {
                assert((c as u8) as u32 == c as u32);
            }
        }
        push_char(&mut r, u);
        assert(v@.subrange(0, i + 1).map_values(|c: char| ascii_upper(c)) =~= v@.subrange(
            0,
            i as int,
        ).map_values(|c: char| ascii_upper(c)).push(ascii_upper(c)));
        i = i + 1;
    }
    assert(v@.subrange(0, v@.len() as int) =~= v@);
    r
}

/// The ASCII digit for `d < 10`.
pub open spec fn digit_char(d: nat) -> char {
    (('0' as u32) + d) as char
}

/// Decimal digits of `n`, most significant first, without leading zeros.
pub open spec fn digits(n: nat) -> Seq<char>
    decreases n,
{
    if n < 10 {
        seq![digit_char(n)]
    } else {
        digits(n / 10).push(digit_char(n % 10))
    }
}

/// How `i64::to_string` writes `n`: a minus sign for negatives, then digits.
pub open spec fn decimal(n: int) -> Seq<char> {
    if n < 0 {
        seq!['-'] + digits((-n) as nat)
    } else {
        digits(n as nat)
    }
}

fn push_digits(s: &mut String, m: u64)
    ensures
        final(s)@ == old(s)@ + digits(m as nat),
    decreases m,
{
    if m >= 10 {
        push_digits(s, m / 10);
    }
    let d = (m % 10) as u8;
    let c = (48u8 + d) as char;
    push_char(s, c);
}

/// `i64::to_string`.
pub fn decimal_string(n: i64) -> (r: String)
    ensures
        r@ == decimal(n as int),
{
    let mut s = String::new();
    if n < 0 {
        push_char(&mut s, '-');
        let m: u64 = if n == i64::MIN {
            9223372036854775808u64
        } else {
            (-n) as u64
        };
        push_digits(&mut s, m);
    } else {
        push_digits(&mut s, n as u64);
    }
    s
}

/// `pat` occurs in `s` starting at position `i`.
pub open spec fn occurs_at(s: Seq<char>, pat: Seq<char>, i: int) -> bool {
    0 <= i && i + pat.len() <= s.len() && s.subrange(i, i + pat.len()) == pat
}

/// `pat` occurs somewhere in `s` (`str::contains`).
pub open spec fn contains_text(s: Seq<char>, pat: Seq<char>) -> bool {
    exists|i: int| #[trigger] occurs_at(s, pat, i)
}

fn matches_at(v: &Vec<char>, p: &Vec<char>, i: usize) -> (r: bool)
    requires
        i + p@.len() <= v@.len(),
    ensures
        r == (v@.subrange(i as int, i + p@.len()) == p@),
{
    let mut k: usize = 0;
    while k < p.len()
        invariant
            i + p@.len() <= v@.len(),
            v@.len() == v.len(),
            k <= p@.len(),
            forall|j: int| 0 <= j < k ==> v@[i + j] == p@[j],
        decreases p@.len() - k,
    {
        if v[i + k] != p[k] {
            assert(v@.subrange(i as int, i + p@.len())[k as int] != p@[k as int]);
            return false;
        }
        k = k + 1;
    }
    assert(v@.subrange(i as int, i + p@.len()) =~= p@);
    true
}

/// `str::contains` with a text pattern.
pub fn contains(s: &str, pat: &str) -> (r: bool)
    ensures
        r == contains_text(s@, pat@),
{
    let v = chars_of(s);
    let p = chars_of(pat);
    if p.len() > v.len() {
        assert forall|i: int| !occurs_at(s@, pat@, i) by {}
        return false;
    }
    let last = v.len() - p.len();
    let mut i: usize = 0;
    loop
        invariant
            v@ == s@,
            p@ == pat@,
            last == v@.len() - p@.len(),
            i <= last,
            forall|j: int| 0 <= j < i ==> !occurs_at(s@, pat@, j),
        decreases last - i,
    {
        if matches_at(&v, &p, i) {
            assert(occurs_at(s@, pat@, i as int));
            return true;
        }
        if i == last {
            assert forall|j: int| !occurs_at(s@, pat@, j) by {
                if 0 <= j < i {
                }
            }
            return false;
        }
        i = i + 1;
    }
}

/// `str::starts_with` with a text pattern.
pub fn starts_with(s: &str, pat: &str) -> (r: bool)
    ensures
        r == pat@.is_prefix_of(s@),
{
    let v = chars_of(s);
    let p = chars_of(pat);
    if p.len() > v.len() {
        return false;
    }
    let r = matches_at(&v, &p, 0);
    assert(r == (s@.subrange(0, pat@.len() as int) == pat@));
    if r {
        assert forall|i: int| 0 <= i < pat@.len() implies pat@[i] == s@[i] by {
            assert(s@.subrange(0, pat@.len() as int)[i] == s@[i]);
        }
    } else {
        assert(pat@.is_prefix_of(s@) ==> s@.subrange(0, pat@.len() as int) =~= pat@);
    }
    r
}

/// `str::ends_with` with a text pattern.
pub fn ends_with(s: &str, pat: &str) -> (r: bool)
    ensures
        r == pat@.is_suffix_of(s@),
{
    let v = chars_of(s);
    let p = chars_of(pat);
    if p.len() > v.len() {
        return false;
    }
    let start = v.len() - p.len();
    let r = matches_at(&v, &p, start);
    let ghost tail = s@.subrange(start as int, s@.len() as int);
    if r {
        assert forall|i: int| 0 <= i < pat@.len() implies pat@[i] == s@[s@.len() - pat@.len() + i] by {
            assert(tail[i] == s@[start + i]);
        }
    } else {
        assert(pat@.is_suffix_of(s@) ==> tail =~= pat@);
    }
    r
}

/// An ASCII decimal digit.
pub open spec fn is_digit(c: char) -> bool {
    '0' <= c <= '9'
}

/// The number that a string of decimal digits spells.
pub open spec fn digits_value(s: Seq<char>) -> int
    decreases s.len(),
{
    if s.len() == 0 {
        0
    } else {
        digits_value(s.drop_last()) * 10 + (s.last() as int - '0' as int)
    }
}

proof fn lemma_digits_shape(n: nat)
    ensures
        digits(n).len() >= 1,
        forall|i: int| 0 <= i < digits(n).len() ==> is_digit(#[trigger] digits(n)[i]),
        digits_value(digits(n)) == n,
    decreases n,
{
    assert(digit_char(n % 10) as int == '0' as int + n % 10);
    if n < 10 {
        assert(digits(n).drop_last() =~= Seq::<char>::empty());
        assert(digits_value(digits(n)) == digits_value(Seq::<char>::empty()) * 10 + (digit_char(n) as int - '0' as int));
    } else {
        lemma_digits_shape(n / 10);
        let d = digits(n / 10);
        assert(digits(n) == d.push(digit_char(n % 10)));
        assert(digits(n).drop_last() =~= d);
        assert(digits_value(digits(n)) == digits_value(d) * 10 + (digit_char(n % 10) as int - '0' as int));
        assert((n / 10) * 10 + n % 10 == n);
        assert forall|i: int| 0 <= i < digits(n).len() implies is_digit(#[trigger] digits(n)[i]) by {
            if i < d.len() {
                assert(digits(n)[i] == d[i]);
            }
        }
    }
}

/// Digit strings followed by a non-digit are uniquely decodable.
proof fn lemma_digits_unique(a: nat, b: nat, x: Seq<char>, y: Seq<char>)
    requires
        digits(a) + x == digits(b) + y,
        x.len() > 0 ==> !is_digit(x[0]),
        y.len() > 0 ==> !is_digit(y[0]),
    ensures
        a == b,
        x == y,
{
    lemma_digits_shape(a);
    lemma_digits_shape(b);
    let da = digits(a);
    let db = digits(b);
    let l = da + x;
    let r = db + y;
    if da.len() < db.len() {
        assert(r[da.len() as int] == db[da.len() as int]);
        assert(l.len() == r.len());
        assert(l[da.len() as int] == x[0]);
    } else if db.len() < da.len() {
        assert(l[db.len() as int] == da[db.len() as int]);
        assert(r[db.len() as int] == y[0]);
    }
    assert(da =~= l.subrange(0, da.len() as int));
    assert(db =~= r.subrange(0, db.len() as int));
    assert(x =~= l.subrange(da.len() as int, l.len() as int));
    assert(y =~= r.subrange(db.len() as int, r.len() as int));
}

/// Decimal numbers followed by a character that is neither a digit nor a
/// minus sign are uniquely decodable.
pub proof fn lemma_decimal_unique(a: int, b: int, x: Seq<char>, y: Seq<char>)
    requires
        decimal(a) + x == decimal(b) + y,
        x.len() > 0,
        y.len() > 0,
        !is_digit(x[0]),
        !is_digit(y[0]),
    ensures
        a == b,
        x == y,
{
    let l = decimal(a) + x;
    let r = decimal(b) + y;
    if a < 0 {
        lemma_digits_shape((-a) as nat);
    } else {
        lemma_digits_shape(a as nat);
    }
    if b < 0 {
        lemma_digits_shape((-b) as nat);
    } else {
        lemma_digits_shape(b as nat);
    }
    assert(l[0] == decimal(a)[0]);
    assert(r[0] == decimal(b)[0]);
    if a < 0 {
        assert(decimal(a)[0] == '-');
        assert(b < 0);
        assert(l.drop_first() =~= digits((-a) as nat) + x);
        assert(r.drop_first() =~= digits((-b) as nat) + y);
        lemma_digits_unique((-a) as nat, (-b) as nat, x, y);
    } else {
        assert(b >= 0);
        lemma_digits_unique(a as nat, b as nat, x, y);
    }
}

} // verus!
