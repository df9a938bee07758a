//! Character-level helpers shared by the configuration, validation and
//! setup code.
use vstd::prelude::*;

verus! {

/// The character for a decimal digit `d < 10`.
pub open spec fn digit_char(d: nat) -> char {
    (48 + d) as char
}

/// Decimal representation of `n`, most significant digit first, no sign.
pub open spec fn decimal(n: nat) -> Seq<char>
    decreases n,
{
    if n < 10 {
        seq![digit_char(n)]
    } else {
        decimal(n / 10) + seq![digit_char(n % 10)]
    }
}

/// The decimal text of `n` is a non-empty run of ASCII digits, without a
/// leading zero unless it is `0`, whose value is `n`.
pub proof fn decimal_spells_the_number(n: nat)
    ensures
        decimal(n).len() > 0,
        forall|i: int| 0 <= i < decimal(n).len() ==> is_ascii_digit(#[trigger] decimal(n)[i]),
        digits_value(decimal(n)) == n,
        decimal(n)[0] == '0' ==> n == 0,
    decreases n,
{
    let d = (n % 10) as nat;
    assert((digit_char(d) as int) == 48 + d);
    if n >= 10 {
        decimal_spells_the_number(n / 10);
        let s = decimal(n);
        let h = decimal(n / 10);
        assert(s.drop_last() =~= h);
        assert(s.last() == digit_char(d));
        assert forall|i: int| 0 <= i < s.len() implies is_ascii_digit(#[trigger] s[i]) by {
            if i < h.len() {
                assert(s[i] == h[i]);
            }
        }
        assert(s[0] == h[0]);
        assert(digits_value(s) == digits_value(h) * 10 + (s.last() as int - 48));
        assert((n / 10) * 10 + n % 10 == n);
    } else {
        assert(decimal(n).drop_last() =~= Seq::<char>::empty());
        assert(digits_value(decimal(n)) == digits_value(decimal(n).drop_last()) * 10 + (decimal(n).last() as int - 48));
    }
}

fn push_decimal(n: u64, out: &mut Vec<char>)
    ensures
        final(out)@ == old(out)@ + decimal(n as nat),
    decreases n,
{
    if n >= 10 {
        push_decimal(n / 10, out);
    }
    let d: u8 = (n % 10) as u8;
    let c = (48u8 + d) as char;
    assert(c == digit_char((n % 10) as nat));
    out.push(c);
}

/// The decimal digits of `n`, as `u64`'s `Display` writes them.
pub fn u64_to_decimal(n: u64) -> (s: String)
    ensures
        s@ == decimal(n as nat),
{
    let mut digits: Vec<char> = Vec::new();
    push_decimal(n, &mut digits);
    assert(digits@ =~= decimal(n as nat));
    string_from_chars(&digits)
}

/// The characters of `s`, in order.
pub fn chars_of(s: &str) -> (v: Vec<char>)
    ensures
        v@ == s@,
{
    let n = s.unicode_len();
    let mut v: Vec<char> = Vec::new();
    let mut i: usize = 0;
    while i < n
        invariant
            n == s@.len(),
            i <= n,
            v@ == s@.subrange(0, i as int),
        decreases n - i,
    {
        let c = s.get_char(i);
        v.push(c);
        i = i + 1;
    }
    v
}

/// `String: FromIterator<&char>` collects the characters in order.
#[verifier::external_body]
pub(crate) fn string_from_chars(v: &Vec<char>) -> (s: String)
    ensures
        s@ == v@,
{
    String::from_iter(v)
}

/// Length in bytes of the UTF-8 encoding of `s`.
pub open spec fn utf8_len(s: Seq<char>) -> nat {
    vstd::utf8::encode_utf8(s).len()
}

/// An ASCII decimal digit.
pub open spec fn is_ascii_digit(c: char) -> bool {
    '0' <= c && c <= '9'
}

/// `char::is_ascii_digit`.
pub fn is_digit(c: char) -> (b: bool)
    ensures
        b == is_ascii_digit(c),
{
    let u = c as u32;
    48 <= u && u <= 57
}

/// The value of a sequence of ASCII decimal digits.
pub open spec fn digits_value(s: Seq<char>) -> nat
    decreases s.len(),
{
    if s.len() == 0 {
        0
    } else {
        digits_value(s.drop_last()) * 10 + ((s.last() as int - 48) as nat)
    }
}

/// What `str::parse` accepts as an unsigned integer: an optional `+`
/// followed by one or more ASCII digits, and nothing else.  Gives the value.
pub open spec fn unsigned_literal(s: Seq<char>) -> Option<nat> {
    let body = if s.len() > 0 && s[0] == '+' { s.drop_first() } else { s };
    if body.len() > 0 && (forall|i: int| 0 <= i < body.len() ==> is_ascii_digit(#[trigger] body[i])) {
        Some(digits_value(body))
    } else {
        None
    }
}

/// What the `Display` of the `ParseIntError` that `<u16 as FromStr>::from_str`
/// returns for `s` says.
pub uninterp spec fn u16_parse_error(s: Seq<char>) -> Seq<char>;

/// `<u16 as FromStr>::from_str`: accepts exactly the unsigned literals whose
/// value fits; the error is rendered with its `Display`.
#[verifier::external_body]
pub(crate) fn parse_u16(s: &str) -> (r: Result<u16, String>)
    ensures
        match r {
            Ok(v) => unsigned_literal(s@) == Some(v as nat),
            Err(m) => !(unsigned_literal(s@) matches Some(n) && n <= u16::MAX) && m@ == u16_parse_error(s@),
        },
{
    s.parse::<u16>().map_err(|e| e.to_string())
}

/// What the `Display` of the `ParseIntError` that `<u32 as FromStr>::from_str`
/// returns for `s` says.
pub uninterp spec fn u32_parse_error(s: Seq<char>) -> Seq<char>;

/// `<u32 as FromStr>::from_str`, as `parse_u16`.
#[verifier::external_body]
pub(crate) fn parse_u32(s: &str) -> (r: Result<u32, String>)
    ensures
        match r {
            Ok(v) => unsigned_literal(s@) == Some(v as nat),
            Err(m) => !(unsigned_literal(s@) matches Some(n) && n <= u32::MAX) && m@ == u32_parse_error(s@),
        },
{
    s.parse::<u32>().map_err(|e| e.to_string())
}

/// What the `Display` of the `ParseIntError` that `<u64 as FromStr>::from_str`
/// returns for `s` says.
pub uninterp spec fn u64_parse_error(s: Seq<char>) -> Seq<char>;

/// `<u64 as FromStr>::from_str`, as `parse_u16`.
#[verifier::external_body]
pub(crate) fn parse_u64(s: &str) -> (r: Result<u64, String>)
    ensures
        match r {
            Ok(v) => unsigned_literal(s@) == Some(v as nat),
            Err(m) => !(unsigned_literal(s@) matches Some(n) && n <= u64::MAX) && m@ == u64_parse_error(s@),
        },
{
    s.parse::<u64>().map_err(|e| e.to_string())
}

/// What the `Display` of the `ParseIntError` that `<usize as FromStr>::from_str`
/// returns for `s` says.
pub uninterp spec fn usize_parse_error(s: Seq<char>) -> Seq<char>;

/// `<usize as FromStr>::from_str`, as `parse_u16`.
#[verifier::external_body]
pub(crate) fn parse_usize(s: &str) -> (r: Result<usize, String>)
    ensures
        match r {
            Ok(v) => unsigned_literal(s@) == Some(v as nat),
            Err(m) => !(unsigned_literal(s@) matches Some(n) && n <= usize::MAX) && m@ == usize_parse_error(s@),
        },
{
    s.parse::<usize>().map_err(|e| e.to_string())
}

/// Whether `char::is_uppercase` holds of `c` (the Unicode `Uppercase`
/// property).
pub uninterp spec fn unicode_uppercase(c: char) -> bool;

/// `char::is_uppercase`.
#[verifier::external_body]
pub(crate) fn is_uppercase(c: char) -> (b: bool)
    ensures
        b == unicode_uppercase(c),
{
    c.is_uppercase()
}

/// The Unicode `White_Space` property (`char::is_whitespace`): U+0009 to
/// U+000D, U+0020, U+0085, U+00A0, U+1680, U+2000 to U+200A, U+2028,
/// U+2029, U+202F, U+205F and U+3000.
pub open spec fn unicode_whitespace(c: char) -> bool {
    let u = c as u32;
    ||| 0x9 <= u <= 0xD
    ||| u == 0x20
    ||| u == 0x85
    ||| u == 0xA0
    ||| u == 0x1680
    ||| 0x2000 <= u <= 0x200A
    ||| u == 0x2028
    ||| u == 0x2029
    ||| u == 0x202F
    ||| u == 0x205F
    ||| u == 0x3000
}

/// `char::is_whitespace`.
pub fn is_whitespace(c: char) -> (b: bool)
    ensures
        b == unicode_whitespace(c),
{
    let u = c as u32;
    (0x9 <= u && u <= 0xD) || u == 0x20 || u == 0x85 || u == 0xA0 || u == 0x1680 || (0x2000 <= u
        && u <= 0x200A) || u == 0x2028 || u == 0x2029 || u == 0x202F || u == 0x205F || u == 0x3000
}

/// The index of the first `c` in `s` at or after `from`, if any.
pub fn find_char(s: &Vec<char>, c: char, from: usize) -> (r: Option<usize>)
    requires
        from <= s@.len(),
    ensures
        match r {
            Some(i) => from <= i < s@.len() && s@[i as int] == c
                && forall|j: int| from <= j < i ==> s@[j] != c,
            None => forall|j: int| from <= j < s@.len() ==> s@[j] != c,
        },
{
    let mut i = from;
    while i < s.len()
        invariant
            from <= i <= s@.len(),
            forall|j: int| from <= j < i ==> s@[j] != c,
        decreases s.len() - i,
    {
        if s[i] == c {
            return Some(i);
        }
        i = i + 1;
    }
    None
}

/// `needle` occurs in `hay` starting at position `i`.
pub open spec fn occurs_at(hay: Seq<char>, needle: Seq<char>, i: int) -> bool {
    0 <= i && i + needle.len() <= hay.len() && hay.subrange(i, i + needle.len()) == needle
}

/// `needle` occurs somewhere in `hay` (`str::contains` with a string pattern).
pub open spec fn contains_seq(hay: Seq<char>, needle: Seq<char>) -> bool {
    exists|i: int| #[trigger] occurs_at(hay, needle, i)
}

/// Whether `needle` occurs in `hay` at `i`.
fn matches_at(hay: &Vec<char>, needle: &Vec<char>, i: usize) -> (b: bool)
    requires
        i + needle@.len() <= hay@.len(),
    ensures
        b == occurs_at(hay@, needle@, i as int),
{
    let hl = hay.len();
    let mut k: usize = 0;
    while k < needle.len()
        invariant
            i + needle@.len() <= hay@.len(),
            hl == hay@.len(),
            k <= needle@.len(),
            forall|j: int| 0 <= j < k ==> hay@[i + j] == needle@[j],
        decreases needle.len() - k,
    {
        if hay[i + k] != needle[k] {
            assert(hay@.subrange(i as int, i + needle@.len())[k as int] != needle@[k as int]);
            return false;
        }
        k = k + 1;
    }
    assert(hay@.subrange(i as int, i + needle@.len()) =~= needle@);
    true
}

/// `str::contains` with a string pattern.
pub fn contains_str(hay: &str, needle: &str) -> (b: bool)
    ensures
        b == contains_seq(hay@, needle@),
{
    let h = chars_of(hay);
    let n = chars_of(needle);
    if n.len() == 0 {
        assert(hay@.subrange(0, 0) =~= needle@);
        assert(occurs_at(hay@, needle@, 0));
        return true;
    }
    if n.len() > h.len() {
        return false;
    }
    let hl = h.len();
    let last = hl - n.len();
    let mut i: usize = 0;
    while i <= last
        invariant
            h@ == hay@,
            n@ == needle@,
            last == h@.len() - n@.len(),
            hl == h@.len(),
            last < h@.len(),
            i <= last + 1,
            forall|j: int| 0 <= j < i ==> !occurs_at(hay@, needle@, j),
        decreases last + 1 - i,
    {
        if matches_at(&h, &n, i) {
            return true;
        }
        i = i + 1;
    }
    assert forall|j: int| #[trigger] occurs_at(hay@, needle@, j) implies false by {
        assert(0 <= j <= last);
    }
    false
}

// ── Character classes, trimming, splitting, joining ───────────────────────────

/// The characters a trim or split acts on.
pub enum CharClass {
    /// Unicode white space, as `char::is_whitespace`.
    Whitespace,
    /// One given character.
    Is(char),
}

pub open spec fn in_class(k: CharClass, c: char) -> bool {
    match k {
        CharClass::Whitespace => unicode_whitespace(c),
        CharClass::Is(d) => c == d,
    }
}

pub fn class_has(k: &CharClass, c: char) -> (b: bool)
    ensures
        b == in_class(*k, c),
{
    match k {
        CharClass::Whitespace => is_whitespace(c),
        CharClass::Is(d) => c == *d,
    }
}

/// `s` without its leading characters of class `k`.
pub open spec fn trim_start_by(s: Seq<char>, k: CharClass) -> Seq<char>
    decreases s.len(),
{
    if s.len() > 0 && in_class(k, s[0]) {
        trim_start_by(s.drop_first(), k)
    } else {
        s
    }
}

/// `s` without its trailing characters of class `k`.
pub open spec fn trim_end_by(s: Seq<char>, k: CharClass) -> Seq<char>
    decreases s.len(),
{
    if s.len() > 0 && in_class(k, s.last()) {
        trim_end_by(s.drop_last(), k)
    } else {
        s
    }
}

/// `s` without its leading and trailing characters of class `k`
/// (`str::trim` for white space, `str::trim_matches` for one character).
pub open spec fn trim_by(s: Seq<char>, k: CharClass) -> Seq<char> {
    trim_end_by(trim_start_by(s, k), k)
}

/// The elements `a..b` of `v`.
pub fn slice_chars(v: &Vec<char>, a: usize, b: usize) -> (r: Vec<char>)
    requires
        a <= b <= v@.len(),
    ensures
        r@ == v@.subrange(a as int, b as int),
{
    let mut r: Vec<char> = Vec::new();
    let mut i = a;
    while i < b
        invariant
            a <= i <= b <= v@.len(),
            r@ == v@.subrange(a as int, i as int),
        decreases b - i,
    {
        r.push(v[i]);
        i = i + 1;
        assert(r@ =~= v@.subrange(a as int, i as int));
    }
    r
}

/// Trim the characters of class `k` from both ends.
pub fn trim_chars(v: &Vec<char>, k: &CharClass) -> (r: Vec<char>)
    ensures
        r@ == trim_by(v@, *k),
{
    let n = v.len();
    let mut a: usize = 0;
    assert(v@.subrange(0, n as int) =~= v@);
    while a < n && class_has(k, v[a])
        invariant
            n == v@.len(),
            a <= n,
            trim_start_by(v@, *k) == trim_start_by(v@.subrange(a as int, n as int), *k),
        decreases n - a,
    {
        assert(v@.subrange(a as int, n as int).drop_first() =~= v@.subrange(a + 1, n as int));
        a = a + 1;
    }
    assert(trim_start_by(v@, *k) == v@.subrange(a as int, n as int));
    let mut b: usize = n;
    while b > a && class_has(k, v[b - 1])
        invariant
            n == v@.len(),
            a <= b <= n,
            trim_by(v@, *k) == trim_end_by(v@.subrange(a as int, b as int), *k),
        decreases b - a,
    {
        assert(v@.subrange(a as int, b as int).drop_last() =~= v@.subrange(a as int, b - 1));
        b = b - 1;
    }
    slice_chars(v, a, b)
}

/// The pieces of `s` between the characters of class `k` (`str::split`);
/// always at least one piece.
pub open spec fn split_by(s: Seq<char>, k: CharClass) -> Seq<Seq<char>>
    decreases s.len(),
{
    if s.len() == 0 {
        seq![Seq::empty()]
    } else {
        let r = split_by(s.drop_last(), k);
        if in_class(k, s.last()) {
            r.push(Seq::empty())
        } else {
            r.update(r.len() - 1, r.last().push(s.last()))
        }
    }
}

pub proof fn lemma_split_by_nonempty(s: Seq<char>, k: CharClass)
    ensures
        split_by(s, k).len() >= 1,
    decreases s.len(),
{
    if s.len() > 0 {
        lemma_split_by_nonempty(s.drop_last(), k);
    }
}

/// No piece of a split holds a character of the splitting class.
pub proof fn lemma_split_by_pieces(s: Seq<char>, k: CharClass)
    ensures
        forall|i: int, j: int|
            0 <= i < split_by(s, k).len() && 0 <= j < split_by(s, k)[i].len() ==> !in_class(
                k,
                #[trigger] split_by(s, k)[i][j],
            ),
    decreases s.len(),
{
    if s.len() > 0 {
        lemma_split_by_pieces(s.drop_last(), k);
        lemma_split_by_nonempty(s.drop_last(), k);
        let r = split_by(s.drop_last(), k);
        if !in_class(k, s.last()) {
            let r2 = split_by(s, k);
            assert forall|i: int, j: int| 0 <= i < r2.len() && 0 <= j < r2[i].len() implies !in_class(
                k,
                #[trigger] r2[i][j],
            ) by {
                if i == r.len() - 1 && j == r.last().len() {
                    assert(r2[i][j] == s.last());
                } else if i == r.len() - 1 {
                    assert(r2[i][j] == r[i][j]);
                } else {
                    assert(r2[i] == r[i]);
                }
            }
        } else {
            let r2 = split_by(s, k);
            assert forall|i: int, j: int| 0 <= i < r2.len() && 0 <= j < r2[i].len() implies !in_class(
                k,
                #[trigger] r2[i][j],
            ) by {
                assert(i < r.len());
                assert(r2[i] == r[i]);
            }
        }
    }
}

/// Trimming keeps a contiguous part of `s`, which, when not empty, neither
/// starts nor ends with a character of the class.
pub proof fn lemma_trim_by(s: Seq<char>, k: CharClass)
    ensures
        exists|a: int, b: int| 0 <= a <= b <= s.len() && trim_by(s, k) == s.subrange(a, b),
        trim_by(s, k).len() > 0 ==> !in_class(k, trim_by(s, k)[0]) && !in_class(
            k,
            trim_by(s, k).last(),
        ),
{
    lemma_trim_start_by(s, k);
    let t = trim_start_by(s, k);
    let a = choose|a: int| 0 <= a <= s.len() && t == s.subrange(a, s.len() as int);
    lemma_trim_end_by(t, k);
    let b = choose|b: int| 0 <= b <= t.len() && trim_end_by(t, k) == t.subrange(0, b);
    assert(trim_by(s, k) == s.subrange(a, a + b));
    if trim_by(s, k).len() > 0 {
        assert(trim_by(s, k)[0] == t[0]);
    }
}

proof fn lemma_trim_start_by(s: Seq<char>, k: CharClass)
    ensures
        exists|a: int| 0 <= a <= s.len() && trim_start_by(s, k) == s.subrange(a, s.len() as int),
        trim_start_by(s, k).len() > 0 ==> !in_class(k, trim_start_by(s, k)[0]),
    decreases s.len(),
{
    if s.len() > 0 && in_class(k, s[0]) {
        lemma_trim_start_by(s.drop_first(), k);
        let a = choose|a: int|
            0 <= a <= s.drop_first().len() && trim_start_by(s.drop_first(), k) == s.drop_first().subrange(
                a,
                s.drop_first().len() as int,
            );
        assert(trim_start_by(s, k) == s.subrange(a + 1, s.len() as int));
    } else {
        assert(trim_start_by(s, k) == s.subrange(0, s.len() as int));
    }
}

proof fn lemma_trim_end_by(s: Seq<char>, k: CharClass)
    ensures
        exists|b: int| 0 <= b <= s.len() && trim_end_by(s, k) == s.subrange(0, b),
        trim_end_by(s, k).len() > 0 ==> !in_class(k, trim_end_by(s, k).last()),
    decreases s.len(),
{
    if s.len() > 0 && in_class(k, s.last()) {
        lemma_trim_end_by(s.drop_last(), k);
        let b = choose|b: int| 0 <= b <= s.drop_last().len() && trim_end_by(s.drop_last(), k) == s.drop_last().subrange(0, b);
        assert(trim_end_by(s, k) == s.subrange(0, b));
    } else {
        assert(trim_end_by(s, k) == s.subrange(0, s.len() as int));
    }
}

/// Each trimmed piece is the trim of the piece at the same place.
pub proof fn lemma_trim_each(ps: Seq<Seq<char>>, k: CharClass)
    ensures
        trim_each(ps, k).len() == ps.len(),
        forall|i: int| 0 <= i < ps.len() ==> #[trigger] trim_each(ps, k)[i] == trim_by(ps[i], k),
    decreases ps.len(),
{
    if ps.len() > 0 {
        lemma_trim_each(ps.drop_last(), k);
    }
}

/// What `nonempty_only` keeps is non-empty and was among the pieces.
pub proof fn lemma_nonempty_only(ps: Seq<Seq<char>>)
    ensures
        forall|i: int|
            0 <= i < nonempty_only(ps).len() ==> #[trigger] nonempty_only(ps)[i].len() > 0
                && ps.contains(nonempty_only(ps)[i]),
    decreases ps.len(),
{
    if ps.len() > 0 {
        lemma_nonempty_only(ps.drop_last());
        let r = nonempty_only(ps.drop_last());
        assert forall|i: int| 0 <= i < nonempty_only(ps).len() implies #[trigger] nonempty_only(ps)[i].len() > 0
            && ps.contains(nonempty_only(ps)[i]) by {
            if i < r.len() {
                assert(nonempty_only(ps)[i] == r[i]);
                let j = choose|j: int| 0 <= j < ps.drop_last().len() && ps.drop_last()[j] == r[i];
                assert(ps[j] == r[i]);
            } else {
                assert(nonempty_only(ps)[i] == ps.last());
                assert(ps[ps.len() - 1] == ps.last());
            }
        }
    }
}

/// The views of a sequence of character vectors.
pub open spec fn views(ps: Seq<Vec<char>>) -> Seq<Seq<char>> {
    ps.map_values(|p: Vec<char>| p@)
}

/// Split `v` at the characters of class `k`.
pub fn split_chars(v: &Vec<char>, k: &CharClass) -> (r: Vec<Vec<char>>)
    ensures
        views(r@) == split_by(v@, *k),
{
    let n = v.len();
    let mut pieces: Vec<Vec<char>> = Vec::new();
    let mut cur: Vec<char> = Vec::new();
    let mut i: usize = 0;
    assert(views(pieces@).push(cur@) =~= split_by(v@.subrange(0, 0), *k));
    while i < n
        invariant
            n == v@.len(),
            i <= n,
            views(pieces@).push(cur@) == split_by(v@.subrange(0, i as int), *k),
        decreases n - i,
    {
        let c = v[i];
        let ghost pre = v@.subrange(0, i as int);
        assert(v@.subrange(0, i + 1).drop_last() =~= pre);
        assert(v@.subrange(0, i + 1).last() == c);
        proof {
            lemma_split_by_nonempty(pre, *k);
        }
        if class_has(k, c) {
            let done = cur;
            pieces.push(done);
            cur = Vec::new();
            assert(views(pieces@).push(cur@) =~= split_by(v@.subrange(0, i + 1), *k));
        } else {
            cur.push(c);
            assert(views(pieces@).push(cur@) =~= split_by(v@.subrange(0, i + 1), *k));
        }
        i = i + 1;
    }
    assert(v@.subrange(0, n as int) =~= v@);
    pieces.push(cur);
    assert(views(pieces@) =~= split_by(v@, *k));
    pieces
}

/// The pieces joined with `sep` between consecutive ones (`[T]::join`).
pub open spec fn join_with(ps: Seq<Seq<char>>, sep: Seq<char>) -> Seq<char>
    decreases ps.len(),
{
    if ps.len() == 0 {
        Seq::empty()
    } else if ps.len() == 1 {
        ps[0]
    } else {
        join_with(ps.drop_last(), sep) + sep + ps.last()
    }
}

fn append_chars(out: &mut Vec<char>, more: &Vec<char>)
    ensures
        final(out)@ == old(out)@ + more@,
{
    let mut i: usize = 0;
    while i < more.len()
        invariant
            i <= more@.len(),
            out@ == old(out)@ + more@.subrange(0, i as int),
        decreases more.len() - i,
    {
        out.push(more[i]);
        i = i + 1;
        assert(out@ =~= old(out)@ + more@.subrange(0, i as int));
    }
    assert(more@.subrange(0, more@.len() as int) =~= more@);
}

/// Join the pieces with the separator character `sep`.
pub fn join_chars(ps: &Vec<Vec<char>>, sep: char) -> (r: Vec<char>)
    ensures
        r@ == join_with(views(ps@), seq![sep]),
{
    let mut out: Vec<char> = Vec::new();
    let mut i: usize = 0;
    while i < ps.len()
        invariant
            i <= ps@.len(),
            out@ == join_with(views(ps@.subrange(0, i as int)), seq![sep]),
        decreases ps.len() - i,
    {
        let ghost before = views(ps@.subrange(0, i as int));
        assert(views(ps@.subrange(0, i + 1)).drop_last() =~= before);
        if i > 0 {
            out.push(sep);
        }
        append_chars(&mut out, &ps[i]);
        i = i + 1;
        assert(out@ =~= join_with(views(ps@.subrange(0, i as int)), seq![sep]));
    }
    assert(ps@.subrange(0, ps@.len() as int) =~= ps@);
    out
}

/// The pieces that are not empty, in order.
pub open spec fn nonempty_only(ps: Seq<Seq<char>>) -> Seq<Seq<char>>
    decreases ps.len(),
{
    if ps.len() == 0 {
        ps
    } else if ps.last().len() > 0 {
        nonempty_only(ps.drop_last()).push(ps.last())
    } else {
        nonempty_only(ps.drop_last())
    }
}

/// Each piece trimmed of class `k`.
pub open spec fn trim_each(ps: Seq<Seq<char>>, k: CharClass) -> Seq<Seq<char>>
    decreases ps.len(),
{
    if ps.len() == 0 {
        ps
    } else {
        trim_each(ps.drop_last(), k).push(trim_by(ps.last(), k))
    }
}

/// Keep the non-empty pieces.
pub fn drop_empty(ps: &Vec<Vec<char>>) -> (r: Vec<Vec<char>>)
    ensures
        views(r@) == nonempty_only(views(ps@)),
{
    let mut out: Vec<Vec<char>> = Vec::new();
    let mut i: usize = 0;
    while i < ps.len()
        invariant
            i <= ps@.len(),
            views(out@) == nonempty_only(views(ps@.subrange(0, i as int))),
        decreases ps.len() - i,
    {
        assert(views(ps@.subrange(0, i + 1)).drop_last() =~= views(ps@.subrange(0, i as int)));
        let p = &ps[i];
        if p.len() > 0 {
            out.push(slice_chars(p, 0, p.len()));
            assert(p@.subrange(0, p@.len() as int) =~= p@);
        }
        i = i + 1;
        assert(views(out@) =~= nonempty_only(views(ps@.subrange(0, i as int))));
    }
    assert(ps@.subrange(0, ps@.len() as int) =~= ps@);
    out
}

/// Trim every piece with class `k` and keep the non-empty results.
pub fn trim_and_drop_empty(ps: &Vec<Vec<char>>, k: &CharClass) -> (r: Vec<Vec<char>>)
    ensures
        views(r@) == nonempty_only(trim_each(views(ps@), *k)),
{
    let mut out: Vec<Vec<char>> = Vec::new();
    let mut i: usize = 0;
    while i < ps.len()
        invariant
            i <= ps@.len(),
            views(out@) == nonempty_only(trim_each(views(ps@.subrange(0, i as int)), *k)),
        decreases ps.len() - i,
    {
        let ghost before = views(ps@.subrange(0, i as int));
        assert(views(ps@.subrange(0, i + 1)).drop_last() =~= before);
        assert(trim_each(views(ps@.subrange(0, i + 1)), *k).drop_last() =~= trim_each(before, *k));
        let t = trim_chars(&ps[i], k);
        if t.len() > 0 {
            out.push(t);
        }
        i = i + 1;
        assert(views(out@) =~= nonempty_only(trim_each(views(ps@.subrange(0, i as int)), *k)));
    }
    assert(ps@.subrange(0, ps@.len() as int) =~= ps@);
    out
}

// ── Lines ─────────────────────────────────────────────────────────────────────

/// A piece without one trailing carriage return.
pub open spec fn strip_cr(p: Seq<char>) -> Seq<char> {
    if p.len() > 0 && p.last() == '\r' {
        p.drop_last()
    } else {
        p
    }
}

pub open spec fn strip_cr_each(ps: Seq<Seq<char>>) -> Seq<Seq<char>>
    decreases ps.len(),
{
    if ps.len() == 0 {
        ps
    } else {
        strip_cr_each(ps.drop_last()).push(strip_cr(ps.last()))
    }
}

/// The lines of `s`, as `str::lines` gives them: split at `\n`, a `\r`
/// before a `\n` dropped, and no empty line after a final `\n`.
pub open spec fn lines_of(s: Seq<char>) -> Seq<Seq<char>> {
    let parts = split_by(s, CharClass::Is('\n'));
    let body = strip_cr_each(parts.drop_last());
    if parts.last().len() == 0 {
        body
    } else {
        body.push(parts.last())
    }
}

/// `str::lines`.
pub fn lines_chars(v: &Vec<char>) -> (r: Vec<Vec<char>>)
    ensures
        views(r@) == lines_of(v@),
{
    let parts = split_chars(v, &CharClass::Is('\n'));
    proof {
        lemma_split_by_nonempty(v@, CharClass::Is('\n'));
    }
    let n = parts.len();
    let mut out: Vec<Vec<char>> = Vec::new();
    let mut i: usize = 0;
    while i + 1 < n
        invariant
            n == parts@.len(),
            n >= 1,
            i + 1 <= n,
            views(parts@) == split_by(v@, CharClass::Is('\n')),
            views(out@) == strip_cr_each(views(parts@.subrange(0, i as int))),
        decreases n - i,
    {
        let p = &parts[i];
        let q = if p.len() > 0 && p[p.len() - 1] == '\r' {
            slice_chars(p, 0, p.len() - 1)
        } else {
            slice_chars(p, 0, p.len())
        };
        assert(p@.subrange(0, p@.len() as int) =~= p@);
        assert(views(parts@.subrange(0, i + 1)).drop_last() =~= views(parts@.subrange(0, i as int)));
        out.push(q);
        i = i + 1;
        assert(views(out@) =~= strip_cr_each(views(parts@.subrange(0, i as int))));
    }
    assert(views(parts@).drop_last() =~= views(parts@.subrange(0, n - 1)));
    let last = &parts[n - 1];
    if last.len() > 0 {
        let l = slice_chars(last, 0, last.len());
        assert(last@.subrange(0, last@.len() as int) =~= last@);
        out.push(l);
        assert(views(out@) =~= lines_of(v@));
    }
    out
}

// ── Substring search ──────────────────────────────────────────────────────────

/// `i` is where `needle` first occurs in `hay`.
pub open spec fn is_first_occurrence(hay: Seq<char>, needle: Seq<char>, i: int) -> bool {
    occurs_at(hay, needle, i) && forall|j: int| 0 <= j < i ==> !#[trigger] occurs_at(hay, needle, j)
}

/// Where `needle` first occurs in `hay` (meaningful when it occurs).
pub open spec fn first_occurrence(hay: Seq<char>, needle: Seq<char>) -> int {
    choose|i: int| is_first_occurrence(hay, needle, i)
}

/// `str::find` with a string pattern.
pub fn find_chars(h: &Vec<char>, n: &Vec<char>) -> (r: Option<usize>)
    ensures
        match r {
            Some(i) => is_first_occurrence(h@, n@, i as int) && first_occurrence(h@, n@) == i,
            None => !contains_seq(h@, n@),
        },
{
    if n.len() > h.len() {
        return None;
    }
    let hl = h.len();
    let last = hl - n.len();
    let mut i: usize = 0;
    while i <= last
        invariant
            hl == h@.len(),
            last == h@.len() - n@.len(),
            i <= last + 1,
            forall|j: int| 0 <= j < i ==> !occurs_at(h@, n@, j),
        decreases last + 1 - i,
    {
        if matches_at(h, n, i) {
            assert(is_first_occurrence(h@, n@, i as int));
            let ghost k = first_occurrence(h@, n@);
            assert(is_first_occurrence(h@, n@, k));
            assert(k == i) by {
                if k < i {
                    assert(!occurs_at(h@, n@, k));
                } else if k > i {
                    assert(!occurs_at(h@, n@, i as int));
                }
            }
            return Some(i);
        }
        if i == last {
            assert forall|j: int| #[trigger] occurs_at(h@, n@, j) implies false by {
                assert(0 <= j <= last);
            }
            return None;
        }
        i = i + 1;
    }
    None
}

/// The characters of each string, as vectors.
pub open spec fn string_views(ss: Seq<String>) -> Seq<Seq<char>> {
    ss.map_values(|s: String| s@)
}

/// Turn character vectors into strings.
pub fn strings_of(ps: &Vec<Vec<char>>) -> (r: Vec<String>)
    ensures
        string_views(r@) == views(ps@),
{
    let mut out: Vec<String> = Vec::new();
    let mut i: usize = 0;
    while i < ps.len()
        invariant
            i <= ps@.len(),
            out@.len() == i,
            string_views(out@) == views(ps@.subrange(0, i as int)),
        decreases ps.len() - i,
    {
        let ghost prev = out@;
        let s = string_from_chars(&ps[i]);
        out.push(s);
        assert forall|k: int| 0 <= k <= i implies #[trigger] string_views(out@)[k] == views(
            ps@.subrange(0, i + 1),
        )[k] by {
            if k < i {
                assert(string_views(prev)[k] == views(ps@.subrange(0, i as int))[k]);
            }
        }
        i = i + 1;
        assert(string_views(out@) =~= views(ps@.subrange(0, i as int)));
    }
    assert(ps@.subrange(0, ps@.len() as int) =~= ps@);
    out
}

/// `i` is the position of the first `c` in `s`.
pub open spec fn is_first_char(s: Seq<char>, c: char, i: int) -> bool {
    0 <= i < s.len() && s[i] == c && forall|j: int| 0 <= j < i ==> s[j] != c
}

/// The position of the first `c` in `s` (meaningful when `s` contains `c`).
pub open spec fn first_index(s: Seq<char>, c: char) -> int {
    choose|i: int| is_first_char(s, c, i)
}

/// The first position of `c` in `v`, pinned to `first_index`.
pub fn position_of(v: &Vec<char>, c: char) -> (r: Option<usize>)
    ensures
        match r {
            Some(i) => is_first_char(v@, c, i as int) && first_index(v@, c) == i,
            None => !v@.contains(c),
        },
{
    match find_char(v, c, 0) {
        Some(i) => {
            assert(is_first_char(v@, c, i as int));
            let ghost k = first_index(v@, c);
            assert(k == i) by {
                assert(is_first_char(v@, c, k));
                if k < i {
                    assert(v@[k] != c);
                } else if k > i {
                    assert(v@[i as int] != c);
                }
            }
            Some(i)
        },
        None => None,
    }
}

/// The Unicode lowercase mapping of a string (`str::to_lowercase`).
pub uninterp spec fn unicode_lowercase(s: Seq<char>) -> Seq<char>;

/// `str::to_lowercase`.
#[verifier::external_body]
pub(crate) fn to_lowercase(s: &str) -> (r: String)
    ensures
        r@ == unicode_lowercase(s@),
{
    s.to_lowercase()
}

} // verus!
