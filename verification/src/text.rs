//! Character-level text helpers shared by the library: decimal rendering and
//! parsing of `u64` amounts, and small string utilities over `char` sequences.
use vstd::prelude::*;
use vstd::string::*;

verus! {

/// The kind of failure when a string is read as a `u64`.
#[derive(Clone, Copy, Debug, PartialEq, Eq, Structural)]
pub enum IntErrorKind {
    Empty,
    InvalidDigit,
    PosOverflow,
}

pub open spec fn is_digit(c: char) -> bool {
    '0' <= c && c <= '9'
}

pub open spec fn digit_value(c: char) -> int {
    c as int - '0' as int
}

pub open spec fn digit_char(d: nat) -> char {
    (d + '0' as int) as char
}

/// The canonical decimal rendering of `n` (no sign, no leading zeros).
pub open spec fn decimal(n: nat) -> Seq<char>
    decreases n,
{
    if n < 10 {
        seq![digit_char(n)]
    } else {
        decimal(n / 10).push(digit_char(n % 10))
    }
}

/// Left-to-right scan of a digit string, as `u64::from_str` performs it: the
/// first non-digit gives `InvalidDigit`, the first step past `u64::MAX` gives
/// `PosOverflow`.
pub open spec fn scan_digits(d: Seq<char>) -> Result<nat, IntErrorKind>
    decreases d.len(),
{
    if d.len() == 0 {
        Ok(0)
    } else {
        match scan_digits(d.drop_last()) {
            Err(e) => Err(e),
            Ok(v) => if !is_digit(d.last()) {
                Err(IntErrorKind::InvalidDigit)
            } else if v * 10 + digit_value(d.last()) > u64::MAX {
                Err(IntErrorKind::PosOverflow)
            } else {
                Ok((v * 10 + digit_value(d.last())) as nat)
            },
        }
    }
}

/// What `u64::from_str` returns for the text `s`.
pub open spec fn parse_u64_spec(s: Seq<char>) -> Result<u64, IntErrorKind> {
    if s.len() == 0 {
        Err(IntErrorKind::Empty)
    } else {
        let d = if s[0] == '+' { s.drop_first() } else { s };
        if d.len() == 0 {
            Err(IntErrorKind::InvalidDigit)
        } else {
            match scan_digits(d) {
                Ok(v) => Ok(v as u64),
                Err(e) => Err(e),
            }
        }
    }
}

/// The message that std's `ParseIntError` displays for each kind.
pub open spec fn int_error_message(k: IntErrorKind) -> Seq<char> {
    match k {
        IntErrorKind::Empty => "cannot parse integer from empty string"@,
        IntErrorKind::InvalidDigit => "invalid digit found in string"@,
        IntErrorKind::PosOverflow => "number too large to fit in target type"@,
    }
}

/// A character with the Unicode `White_Space` property, which is what
/// `char::is_whitespace` tests.
pub open spec fn is_white_space(c: char) -> bool {
    ('\u{9}' <= c && c <= '\u{d}') || c == ' ' || c == '\u{85}' || c == '\u{a0}' || c == '\u{1680}'
        || ('\u{2000}' <= c && c <= '\u{200a}') || c == '\u{2028}' || c == '\u{2029}' || c == '\u{202f}'
        || c == '\u{205f}' || c == '\u{3000}'
}

/// `s` without leading and trailing white space, as `str::trim` gives it.
pub open spec fn trimmed(s: Seq<char>) -> Seq<char>
    decreases s.len(),
{
    if s.len() == 0 {
        s
    } else if is_white_space(s[0]) {
        trimmed(s.drop_first())
    } else if is_white_space(s.last()) {
        trimmed(s.drop_last())
    } else {
        s
    }
}

fn char_is_white_space(c: char) -> (r: bool)
    ensures
        r == is_white_space(c),
{
    ('\u{9}' <= c && c <= '\u{d}') || c == ' ' || c == '\u{85}' || c == '\u{a0}' || c == '\u{1680}'
        || ('\u{2000}' <= c && c <= '\u{200a}') || c == '\u{2028}' || c == '\u{2029}' || c == '\u{202f}'
        || c == '\u{205f}' || c == '\u{3000}'
}

/// `s` without leading and trailing white space.
pub fn trim(s: &str) -> (r: String)
    ensures
        r@ == trimmed(s@),
{
    let cs = str_chars(s);
    let n = cs.len();
    let mut lo: usize = 0;
    assert(s@.subrange(0, n as int) == s@);
    while lo < n && char_is_white_space(cs[lo])
        invariant
            cs@ == s@,
            n == cs@.len(),
            lo <= n,
            trimmed(s@) == trimmed(s@.subrange(lo as int, n as int)),
        decreases n - lo,
    {
        let ghost t = s@.subrange(lo as int, n as int);
        assert(t.drop_first() == s@.subrange(lo + 1, n as int));
        lo = lo + 1;
    }
    let mut hi: usize = n;
    while hi > lo && char_is_white_space(cs[hi - 1])
        invariant
            cs@ == s@,
            n == cs@.len(),
            lo <= hi <= n,
            lo < n ==> !is_white_space(s@[lo as int]),
            trimmed(s@) == trimmed(s@.subrange(lo as int, hi as int)),
        decreases hi - lo,
    {
        let ghost t = s@.subrange(lo as int, hi as int);
        assert(t.drop_last() == s@.subrange(lo as int, hi - 1));
        assert(t[0] == s@[lo as int]);
        hi = hi - 1;
    }
    let ghost t = s@.subrange(lo as int, hi as int);
    assert(t.len() > 0 ==> t[0] == s@[lo as int] && t.last() == s@[hi - 1]);
    let mut out: Vec<char> = Vec::new();
    let mut i: usize = lo;
    while i < hi
        invariant
            cs@ == s@,
            lo <= i <= hi <= n,
            n == cs@.len(),
            out@ == s@.subrange(lo as int, i as int),
        decreases hi - i,
    {
        out.push(cs[i]);
        i = i + 1;
    }
    string_from_chars(&out)
}

/// Appends one character to a `String` (std's `String::push`).
#[verifier::external_body]
pub(crate) fn push_char(s: &mut String, c: char)
    ensures
        final(s)@ == old(s)@.push(c),
{
    s.push(c)
}

/// The characters of `s`, in order.
pub fn str_chars(s: &str) -> (v: Vec<char>)
    ensures
        v@ == s@,
{
    let n = s.unicode_len();
    let mut v: Vec<char> = Vec::new();
    let mut i: usize = 0;
    while i < n
        invariant
            n == s@.len(),
            i <= n,
            v@ == s@.subrange(0, i as int),
        decreases n - i,
    {
        v.push(s.get_char(i));
        i = i + 1;
    }
    assert(v@ == s@);
    v
}

/// A `String` holding exactly the characters of `v`.
pub fn string_from_chars(v: &Vec<char>) -> (s: String)
    ensures
        s@ == v@,
{
    let mut s = String::new();
    let mut i: usize = 0;
    while i < v.len()
        invariant
            i <= v.len(),
            s@ == v@.subrange(0, i as int),
        decreases v.len() - i,
    {
        push_char(&mut s, v[i]);
        i = i + 1;
    }
    assert(s@ == v@);
    s
}

/// `p` occurs in `s` starting at position `i`.
pub open spec fn occurs_at(s: Seq<char>, p: Seq<char>, i: int) -> bool {
    0 <= i && i + p.len() <= s.len() && s.subrange(i, i + p.len()) == p
}

/// `p` occurs somewhere in `s`.
pub open spec fn has_substring(s: Seq<char>, p: Seq<char>) -> bool {
    exists|i: int| occurs_at(s, p, i)
}

fn chars_occur_at(s: &Vec<char>, p: &Vec<char>, i: usize) -> (r: bool)
    requires
        i + p@.len() <= s@.len(),
    ensures
        r == occurs_at(s@, p@, i as int),
{
    let n = s.len();
    let mut j: usize = 0;
    while j < p.len()
        invariant
            n == s@.len(),
            i + p@.len() <= s@.len(),
            j <= p@.len(),
            s@.subrange(i as int, i + j) == p@.subrange(0, j as int),
        decreases p.len() - j,
    {
        if s[i + j] != p[j] {
            assert(s@.subrange(i as int, i + p@.len())[j as int] == s@[i + j]);
            return false;
        }
        assert(s@.subrange(i as int, i + j + 1) == s@.subrange(i as int, i + j).push(s@[i + j]));
        assert(p@.subrange(0, j + 1) == p@.subrange(0, j as int).push(p@[j as int]));
        j = j + 1;
    }
    assert(p@.subrange(0, p@.len() as int) == p@);
    true
}

/// Whether `p` occurs in `s`, as `str::contains` decides it.
pub fn str_contains(s: &str, p: &str) -> (r: bool)
    ensures
        r == has_substring(s@, p@),
{
    let cs = str_chars(s);
    let ps = str_chars(p);
    if ps.len() > cs.len() {
        assert forall|i: int| !occurs_at(s@, p@, i) by {}
        return false;
    }
    let last = cs.len() - ps.len();
    let mut i: usize = 0;
    while i < last
        invariant
            cs@ == s@,
            ps@ == p@,
            last == cs@.len() - ps@.len(),
            i <= last,
            forall|k: int| 0 <= k < i ==> !occurs_at(s@, p@, k),
        decreases last - i,
    {
        if chars_occur_at(&cs, &ps, i) {
            return true;
        }
        i = i + 1;
    }
    let r = chars_occur_at(&cs, &ps, last);
    assert(!r ==> forall|k: int| !occurs_at(s@, p@, k)) by {
        assert forall|k: int| !r implies !occurs_at(s@, p@, k) by {
            if 0 <= k < i {
            }
        }
    }
    r
}

/// Whether `s` begins with `p`.
pub fn str_starts_with(s: &str, p: &str) -> (r: bool)
    ensures
        r == occurs_at(s@, p@, 0),
{
    let cs = str_chars(s);
    let ps = str_chars(p);
    if ps.len() > cs.len() {
        return false;
    }
    chars_occur_at(&cs, &ps, 0)
}

/// Whether `s` ends with `p`.
pub fn str_ends_with(s: &str, p: &str) -> (r: bool)
    ensures
        r == (p@.len() <= s@.len() && occurs_at(s@, p@, s@.len() - p@.len())),
{
    let cs = str_chars(s);
    let ps = str_chars(p);
    if ps.len() > cs.len() {
        return false;
    }
    chars_occur_at(&cs, &ps, cs.len() - ps.len())
}

/// The first `n` characters of `s`.
pub fn str_take(s: &str, n: usize) -> (r: String)
    requires
        n <= s@.len(),
    ensures
        r@ == s@.subrange(0, n as int),
{
    let cs = str_chars(s);
    let mut out: Vec<char> = Vec::new();
    let mut i: usize = 0;
    while i < n
        invariant
            cs@ == s@,
            n <= cs@.len(),
            i <= n,
            out@ == s@.subrange(0, i as int),
        decreases n - i,
    {
        out.push(cs[i]);
        i = i + 1;
    }
    string_from_chars(&out)
}

/// Character-wise equality of two strings.
pub fn str_eq(a: &str, b: &str) -> (r: bool)
    ensures
        r == (a@ == b@),
{
    let n = a.unicode_len();
    let m = b.unicode_len();
    if n != m {
        return false;
    }
    let mut i: usize = 0;
    while i < n
        invariant
            n == a@.len(),
            m == b@.len(),
            n == m,
            i <= n,
            a@.subrange(0, i as int) == b@.subrange(0, i as int),
        decreases n - i,
    {
        if a.get_char(i) != b.get_char(i) {
            assert(a@[i as int] != b@[i as int]);
            return false;
        }
        assert(a@.subrange(0, i + 1) == a@.subrange(0, i as int).push(a@[i as int]));
        assert(b@.subrange(0, i + 1) == b@.subrange(0, i as int).push(b@[i as int]));
        i = i + 1;
    }
    assert(a@ == a@.subrange(0, n as int));
    assert(b@ == b@.subrange(0, n as int));
    true
}

/// `s` joined with `t`.
pub fn concat_str(s: &str, t: &str) -> (r: String)
    ensures
        r@ == s@ + t@,
{
    let mut r = String::from_str(s);
    r.append(t);
    r
}

fn digit_to_char(d: u64) -> (c: char)
    requires
        d < 10,
    ensures
        c == digit_char(d as nat),
        is_digit(c),
{
    let b: u8 = 48u8 + (d as u8);
    b as char
}

/// The decimal rendering of `n`, as `n.to_string()` writes it.
pub fn u64_to_decimal(n: u64) -> (s: String)
    ensures
        s@ == decimal(n as nat),
    decreases n,
{
    if n < 10 {
        let mut s = String::new();
        push_char(&mut s, digit_to_char(n));
        s
    } else {
        let mut s = u64_to_decimal(n / 10);
        push_char(&mut s, digit_to_char(n % 10));
        s
    }
}

/// Reads `s` as a `u64` the way `u64::from_str` does.
pub fn parse_u64(s: &str) -> (r: Result<u64, IntErrorKind>)
    ensures
        r == parse_u64_spec(s@),
{
    let cs = str_chars(s);
    let n = cs.len();
    if n == 0 {
        return Err(IntErrorKind::Empty);
    }
    let start: usize = if cs[0] == '+' { 1 } else { 0 };
    let ghost d = if s@[0] == '+' { s@.drop_first() } else { s@ };
    assert(d == s@.subrange(start as int, n as int));
    if start == n {
        return Err(IntErrorKind::InvalidDigit);
    }
    assert(parse_u64_spec(s@) == match scan_digits(d) {
        Ok(v) => Ok::<u64, IntErrorKind>(v as u64),
        Err(e) => Err(e),
    });
    let mut acc: u64 = 0;
    let mut i: usize = start;
    while i < n
        invariant
            cs@ == s@,
            d.len() > 0,
            parse_u64_spec(s@) == match scan_digits(d) {
                Ok(v) => Ok::<u64, IntErrorKind>(v as u64),
                Err(e) => Err(e),
            },
            n == cs@.len(),
            start <= i <= n,
            d == s@.subrange(start as int, n as int),
            scan_digits(s@.subrange(start as int, i as int)) == Ok::<nat, IntErrorKind>(acc as nat),
        decreases n - i,
    {
        let c = cs[i];
        let ghost pre = s@.subrange(start as int, i as int);
        let ghost next = s@.subrange(start as int, i + 1);
        assert(next.drop_last() == pre);
        assert(next.last() == c);
        if !('0' <= c && c <= '9') {
            assert(d.subrange(0, (i + 1 - start) as int) == next);
            assert(scan_digits(next) == Err::<nat, IntErrorKind>(IntErrorKind::InvalidDigit));
            proof { lemma_scan_error_persists(d, (i + 1 - start) as nat); }
            return Err(IntErrorKind::InvalidDigit);
        }
        let dv: u64 = (c as u32 - 48u32) as u64;
        assert(dv == digit_value(c));
        match acc.checked_mul(10) {
            None => {
                assert(d.subrange(0, (i + 1 - start) as int) == next);
                assert(scan_digits(next) == Err::<nat, IntErrorKind>(IntErrorKind::PosOverflow));
                proof { lemma_scan_error_persists(d, (i + 1 - start) as nat); }
                return Err(IntErrorKind::PosOverflow);
            },
            Some(m) => match m.checked_add(dv) {
                None => {
                    assert(d.subrange(0, (i + 1 - start) as int) == next);
                    assert(scan_digits(next) == Err::<nat, IntErrorKind>(IntErrorKind::PosOverflow));
                    proof { lemma_scan_error_persists(d, (i + 1 - start) as nat); }
                    return Err(IntErrorKind::PosOverflow);
                },
                Some(v) => {
                    acc = v;
                },
            },
        }
        i = i + 1;
    }
    assert(s@.subrange(start as int, n as int) == d);
    Ok(acc)
}

/// Once the scan of a prefix of `d` fails, the scan of `d` fails the same way.
pub proof fn lemma_scan_error_persists(d: Seq<char>, k: nat)
    requires
        k <= d.len(),
        scan_digits(d.subrange(0, k as int)) is Err,
    ensures
        scan_digits(d) == scan_digits(d.subrange(0, k as int)),
    decreases d.len() - k,
{
    if k < d.len() {
        let p = d.subrange(0, k as int);
        let q = d.subrange(0, (k + 1) as int);
        assert(q.drop_last() == p);
        lemma_scan_error_persists(d, k + 1);
    } else {
        assert(d.subrange(0, k as int) == d);
    }
}

/// A digit value below ten renders as a digit character of that value.
pub proof fn lemma_digit_char(d: nat)
    requires
        d < 10,
    ensures
        is_digit(digit_char(d)),
        digit_value(digit_char(d)) == d,
{
    assert(digit_char(d) as int == d + 48);
}

/// Every character of a decimal rendering is a digit, and the rendering is
/// never empty.
pub proof fn lemma_decimal_digits(n: nat)
    ensures
        decimal(n).len() > 0,
        forall|i: int| 0 <= i < decimal(n).len() ==> is_digit(#[trigger] decimal(n)[i]),
    decreases n,
{
    lemma_digit_char(n % 10);
    if n >= 10 {
        lemma_decimal_digits(n / 10);
    }
}

/// Scanning a decimal rendering gives back the number.
pub proof fn lemma_scan_decimal(n: nat)
    requires
        n <= u64::MAX,
    ensures
        scan_digits(decimal(n)) == Ok::<nat, IntErrorKind>(n),
    decreases n,
{
    lemma_digit_char(n % 10);
    if n < 10 {
        let s = decimal(n);
        assert(s.drop_last() =~= Seq::<char>::empty());
        assert(scan_digits(s.drop_last()) == Ok::<nat, IntErrorKind>(0));
    } else {
        lemma_scan_decimal(n / 10);
        let s = decimal(n);
        assert(s.drop_last() == decimal(n / 10));
    }
}

/// Rendering an amount in decimal and reading it back gives the same amount.
pub proof fn lemma_decimal_round_trip(n: u64)
    ensures
        parse_u64_spec(decimal(n as nat)) == Ok::<u64, IntErrorKind>(n),
{
    lemma_decimal_digits(n as nat);
    lemma_scan_decimal(n as nat);
    assert(is_digit(decimal(n as nat)[0]));
}

} // verus!
