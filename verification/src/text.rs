//! Character-level text helpers shared by the parsers of this crate.
//!
//! Text is handled as a vector of `char`s; a piece of it is a half-open range
//! `lo..hi` of positions. Each helper is specified over the mathematical
//! sequence of characters, with the meaning that the corresponding method of
//! `str` has (`trim`, `lines`, `find`, `starts_with`, `parse::<u32>` ...).

use vstd::prelude::*;
use vstd::std_specs::iter::IteratorSpec;
use vstd::string::StrSliceExecFns;
use vstd::string::StringExecFns;

verus! {

broadcast use vstd::string::group_string_axioms;

/// Unicode `White_Space`, the set that `char::is_whitespace` tests.
pub open spec fn is_ws(c: char) -> bool {
    ||| ('\u{9}' <= c && c <= '\u{d}')
    ||| c == ' '
    ||| c == '\u{85}'
    ||| c == '\u{a0}'
    ||| c == '\u{1680}'
    ||| ('\u{2000}' <= c && c <= '\u{200a}')
    ||| c == '\u{2028}'
    ||| c == '\u{2029}'
    ||| c == '\u{202f}'
    ||| c == '\u{205f}'
    ||| c == '\u{3000}'
}

/// `s` without its leading whitespace.
pub open spec fn trim_start(s: Seq<char>) -> Seq<char>
    decreases s.len(),
{
    if s.len() > 0 && is_ws(s[0]) {
        trim_start(s.drop_first())
    } else {
        s
    }
}

/// `s` without its trailing whitespace.
pub open spec fn trim_end(s: Seq<char>) -> Seq<char>
    decreases s.len(),
{
    if s.len() > 0 && is_ws(s.last()) {
        trim_end(s.drop_last())
    } else {
        s
    }
}

/// `str::trim`: `s` without leading and trailing whitespace.
pub open spec fn trim(s: Seq<char>) -> Seq<char> {
    trim_end(trim_start(s))
}

/// `str::starts_with` for a sequence of characters.
pub open spec fn starts_with(s: Seq<char>, p: Seq<char>) -> bool {
    p.len() <= s.len() && s.take(p.len() as int) == p
}

/// `str::find` for one character: the position of its first occurrence.
pub open spec fn find_char(s: Seq<char>, c: char) -> Option<int>
    decreases s.len(),
{
    if s.len() == 0 {
        None
    } else if s[0] == c {
        Some(0)
    } else {
        match find_char(s.drop_first(), c) {
            Some(i) => Some(i + 1),
            None => None,
        }
    }
}

/// `str::rfind` for one character: the position of its last occurrence.
pub open spec fn rfind_char(s: Seq<char>, c: char) -> Option<int>
    decreases s.len(),
{
    if s.len() == 0 {
        None
    } else if s.last() == c {
        Some(s.len() - 1)
    } else {
        rfind_char(s.drop_last(), c)
    }
}

/// `str::contains` for a pattern of characters.
pub open spec fn contains_seq(s: Seq<char>, p: Seq<char>) -> bool {
    exists|i: int| 0 <= i && i + p.len() <= s.len() && #[trigger] s.subrange(i, i + p.len()) == p
}

/// The position of the first whitespace character of `s`, or its length.
pub open spec fn first_ws(s: Seq<char>) -> int
    decreases s.len(),
{
    if s.len() == 0 {
        0
    } else if is_ws(s[0]) {
        0
    } else {
        first_ws(s.drop_first()) + 1
    }
}

/// The first whitespace-separated word of `s`, as `split_whitespace`
/// yields it first.
pub open spec fn first_word(s: Seq<char>) -> Option<Seq<char>> {
    let t = trim_start(s);
    if t.len() == 0 {
        None
    } else {
        Some(t.take(first_ws(t)))
    }
}

/// Whether `split_whitespace` yields at least two words of `s`.
pub open spec fn has_two_words(s: Seq<char>) -> bool {
    let t = trim_start(s);
    t.len() > 0 && trim_start(t.skip(first_ws(t))).len() > 0
}

/// The line `cur` as `str::lines` yields it when a `'\n'` ends it: one
/// carriage return before the newline is dropped too.
pub open spec fn strip_cr(cur: Seq<char>) -> Seq<char> {
    if cur.len() > 0 && cur.last() == '\r' {
        cur.drop_last()
    } else {
        cur
    }
}

/// The lines of `s`, given that `cur` has been read of the current line.
pub open spec fn lines_from(s: Seq<char>, cur: Seq<char>) -> Seq<Seq<char>>
    decreases s.len(),
{
    if s.len() == 0 {
        if cur.len() == 0 {
            Seq::empty()
        } else {
            seq![cur]
        }
    } else if s[0] == '\n' {
        seq![strip_cr(cur)] + lines_from(s.drop_first(), Seq::empty())
    } else {
        lines_from(s.drop_first(), cur.push(s[0]))
    }
}

/// `str::lines`: the lines of `s`, split at `"\n"` and `"\r\n"`; a final
/// empty line is not yielded.
pub open spec fn lines(s: Seq<char>) -> Seq<Seq<char>> {
    lines_from(s, Seq::empty())
}

/// `char::to_digit(radix)` for the radixes 10 and 16.
pub open spec fn digit_value(c: char, radix: nat) -> Option<nat> {
    if '0' <= c && c <= '9' && (c as nat) - ('0' as nat) < radix {
        Some(((c as nat) - ('0' as nat)) as nat)
    } else if radix == 16 && 'a' <= c && c <= 'f' {
        Some(((c as nat) - ('a' as nat) + 10) as nat)
    } else if radix == 16 && 'A' <= c && c <= 'F' {
        Some(((c as nat) - ('A' as nat) + 10) as nat)
    } else {
        None
    }
}

/// Every character of `s` is a digit in `radix`.
pub open spec fn all_digits(s: Seq<char>, radix: nat) -> bool {
    forall|i: int| 0 <= i < s.len() ==> (#[trigger] digit_value(s[i], radix)) is Some
}

/// The number that the digits `s` write in `radix`.
pub open spec fn digits_value(s: Seq<char>, radix: nat) -> nat
    decreases s.len(),
{
    if s.len() == 0 {
        0
    } else {
        digits_value(s.drop_last(), radix) * radix + match digit_value(s.last(), radix) {
            Some(d) => d,
            None => 0,
        }
    }
}

/// The digits of `s`, once an optional leading `'+'` is removed.
pub open spec fn unsigned_digits(s: Seq<char>) -> Seq<char> {
    if s.len() > 0 && s[0] == '+' {
        s.drop_first()
    } else {
        s
    }
}

/// `from_str_radix` of an unsigned integer type whose largest value is
/// `max`: an optional `'+'`, then one or more digits whose value is at most
/// `max`.
pub open spec fn parse_unsigned(s: Seq<char>, radix: nat, max: nat) -> Option<nat> {
    let d = unsigned_digits(s);
    if d.len() > 0 && all_digits(d, radix) && digits_value(d, radix) <= max {
        Some(digits_value(d, radix))
    } else {
        None
    }
}

/// `s.parse::<u32>()`, with `None` for every error.
pub open spec fn parse_u32(s: Seq<char>) -> Option<u32> {
    match parse_unsigned(s, 10, u32::MAX as nat) {
        Some(n) => Some(n as u32),
        None => None,
    }
}

/// The decimal digits of `n`, as `n.to_string()` writes them.
pub open spec fn decimal(n: nat) -> Seq<char>
    decreases n,
{
    if n < 10 {
        seq![digit_char(n)]
    } else {
        decimal(n / 10).push(digit_char(n % 10))
    }
}

/// The character of the decimal digit `d`.
pub open spec fn digit_char(d: nat) -> char {
    if d == 0 {
        '0'
    } else if d == 1 {
        '1'
    } else if d == 2 {
        '2'
    } else if d == 3 {
        '3'
    } else if d == 4 {
        '4'
    } else if d == 5 {
        '5'
    } else if d == 6 {
        '6'
    } else if d == 7 {
        '7'
    } else if d == 8 {
        '8'
    } else {
        '9'
    }
}

// ---------------------------------------------------------------------------
// Lemmas
// ---------------------------------------------------------------------------

/// The digit value of a prefix never exceeds that of the whole.
pub proof fn lemma_digits_value_prefix(s: Seq<char>, k: int, radix: nat)
    requires
        0 <= k <= s.len(),
        radix >= 1,
    ensures
        digits_value(s.take(k), radix) <= digits_value(s, radix),
    decreases s.len(),
{
    if k < s.len() {
        assert(s.drop_last().take(k) =~= s.take(k));
        lemma_digits_value_prefix(s.drop_last(), k, radix);
        let p = digits_value(s.drop_last(), radix);
        assert(p * radix >= p) by (nonlinear_arith)
            requires
                radix >= 1,
                p >= 0,
        ;
    } else {
        assert(s.take(k) =~= s);
    }
}

// ---------------------------------------------------------------------------
// Executable helpers
// ---------------------------------------------------------------------------

/// The characters of `s`, in order.
pub fn chars_of(s: &str) -> (v: Vec<char>)
    ensures
        v@ == s@,
{
    let mut v: Vec<char> = Vec::new();
    let chars_it = s.chars();
    for c in it: chars_it
        invariant
            it.seq() == s@,
            v@ == it.seq().take(it.index()),
    {
        v.push(c);
    }
    v
}

/// `char::is_whitespace`.
pub fn is_whitespace(c: char) -> (b: bool)
    ensures
        b == is_ws(c),
{
    ('\u{9}' <= c && c <= '\u{d}') || c == ' ' || c == '\u{85}' || c == '\u{a0}' || c
        == '\u{1680}' || ('\u{2000}' <= c && c <= '\u{200a}') || c == '\u{2028}' || c
        == '\u{2029}' || c == '\u{202f}' || c == '\u{205f}' || c == '\u{3000}'
}

/// The range of `v[lo..hi]` that `str::trim` keeps.
pub fn trim_range(v: &Vec<char>, lo: usize, hi: usize) -> (r: (usize, usize))
    requires
        lo <= hi <= v.len(),
    ensures
        lo <= r.0 <= r.1 <= hi,
        v@.subrange(r.0 as int, r.1 as int) == trim(v@.subrange(lo as int, hi as int)),
{
    let mut i = lo;
    while i < hi && is_whitespace(v[i])
        invariant
            lo <= i <= hi <= v.len(),
            trim_start(v@.subrange(lo as int, hi as int)) == trim_start(
                v@.subrange(i as int, hi as int),
            ),
        decreases hi - i,
    {
        assert(v@.subrange(i as int, hi as int).drop_first() =~= v@.subrange(
            i + 1,
            hi as int,
        ));
        i = i + 1;
    }
    let mut j = hi;
    while j > i && is_whitespace(v[j - 1])
        invariant
            lo <= i <= j <= hi <= v.len(),
            trim_end(v@.subrange(i as int, hi as int)) == trim_end(
                v@.subrange(i as int, j as int),
            ),
        decreases j - i,
    {
        assert(v@.subrange(i as int, j as int).drop_last() =~= v@.subrange(
            i as int,
            j - 1,
        ));
        j = j - 1;
    }
    (i, j)
}

/// The first position of `v[lo..hi]` that `str::trim_start` keeps.
pub fn skip_ws(v: &Vec<char>, lo: usize, hi: usize) -> (i: usize)
    requires
        lo <= hi <= v.len(),
    ensures
        lo <= i <= hi,
        v@.subrange(i as int, hi as int) == trim_start(v@.subrange(lo as int, hi as int)),
{
    let mut i = lo;
    while i < hi && is_whitespace(v[i])
        invariant
            lo <= i <= hi <= v.len(),
            trim_start(v@.subrange(lo as int, hi as int)) == trim_start(
                v@.subrange(i as int, hi as int),
            ),
        decreases hi - i,
    {
        assert(v@.subrange(i as int, hi as int).drop_first() =~= v@.subrange(
            i + 1,
            hi as int,
        ));
        i = i + 1;
    }
    i
}

/// The end of the word that starts `v[lo..hi]`: the first whitespace
/// position, or `hi`.
pub fn word_end(v: &Vec<char>, lo: usize, hi: usize) -> (j: usize)
    requires
        lo <= hi <= v.len(),
    ensures
        lo <= j <= hi,
        j - lo == first_ws(v@.subrange(lo as int, hi as int)),
{
    let mut j = lo;
    while j < hi && !is_whitespace(v[j])
        invariant
            lo <= j <= hi <= v.len(),
            first_ws(v@.subrange(lo as int, hi as int)) == (j - lo) + first_ws(
                v@.subrange(j as int, hi as int),
            ),
        decreases hi - j,
    {
        assert(v@.subrange(j as int, hi as int).drop_first() =~= v@.subrange(
            j + 1,
            hi as int,
        ));
        j = j + 1;
    }
    j
}

/// Whether `v[lo..hi]` is exactly `p`.
pub fn range_eq(v: &Vec<char>, lo: usize, hi: usize, p: &Vec<char>) -> (b: bool)
    requires
        lo <= hi <= v.len(),
    ensures
        b == (v@.subrange(lo as int, hi as int) == p@),
{
    if hi - lo != p.len() {
        return false;
    }
    let mut k: usize = 0;
    while k < p.len()
        invariant
            lo <= hi <= v.len(),
            hi - lo == p.len(),
            k <= p.len(),
            forall|m: int| 0 <= m < k ==> v@[lo + m] == p@[m],
        decreases p.len() - k,
    {
        if v[lo + k] != p[k] {
            assert(v@.subrange(lo as int, hi as int)[k as int] != p@[k as int]);
            return false;
        }
        k = k + 1;
    }
    assert(v@.subrange(lo as int, hi as int) =~= p@);
    true
}

/// Whether `v[lo..hi]` begins with `p`.
pub fn range_starts_with(v: &Vec<char>, lo: usize, hi: usize, p: &Vec<char>) -> (b: bool)
    requires
        lo <= hi <= v.len(),
    ensures
        b == starts_with(v@.subrange(lo as int, hi as int), p@),
{
    if hi - lo < p.len() {
        return false;
    }
    let r = range_eq(v, lo, lo + p.len(), p);
    assert(v@.subrange(lo as int, hi as int).take(p.len() as int) =~= v@.subrange(
        lo as int,
        lo + p.len(),
    ));
    r
}

/// Whether `v[lo..hi]` holds `p` somewhere.
pub fn range_contains(v: &Vec<char>, lo: usize, hi: usize, p: &Vec<char>) -> (b: bool)
    requires
        lo <= hi <= v.len(),
    ensures
        b == contains_seq(v@.subrange(lo as int, hi as int), p@),
{
    let ghost s = v@.subrange(lo as int, hi as int);
    if p.len() == 0 {
        assert(s.subrange(0, 0 + p@.len() as int) =~= p@);
        return true;
    }
    if hi - lo < p.len() {
        assert forall|i: int| 0 <= i && i + p@.len() <= s.len() implies #[trigger] s.subrange(
            i,
            i + p@.len(),
        ) != p@ by {}
        return false;
    }
    let last = hi - p.len();
    let mut start = lo;
    while start <= last
        invariant
            lo <= start,
            last + p.len() == hi,
            hi <= v.len(),
            lo <= last,
            p.len() > 0,
            s == v@.subrange(lo as int, hi as int),
            forall|i: int| 0 <= i < start - lo ==> #[trigger] s.subrange(i, i + p@.len()) != p@,
        decreases last + 1 - start,
    {
        if range_eq(v, start, start + p.len(), p) {
            assert(s.subrange(start - lo, start - lo + p@.len()) =~= v@.subrange(
                start as int,
                start + p.len(),
            ));
            return true;
        }
        assert(s.subrange(start - lo, start - lo + p@.len()) =~= v@.subrange(
            start as int,
            start + p.len(),
        ));
        start = start + 1;
    }
    assert forall|i: int| 0 <= i && i + p@.len() <= s.len() implies #[trigger] s.subrange(
        i,
        i + p@.len(),
    ) != p@ by {
        assert(i < start - lo);
    }
    false
}

/// The position of the first `c` in `v[lo..hi]`, counted from `lo`.
pub fn find_in_range(v: &Vec<char>, lo: usize, hi: usize, c: char) -> (r: Option<usize>)
    requires
        lo <= hi <= v.len(),
    ensures
        match find_char(v@.subrange(lo as int, hi as int), c) {
            Some(i) => r matches Some(k) && k == lo + i,
            None => r is None,
        },
        match r {
            Some(k) => lo <= k < hi && v@[k as int] == c,
            None => true,
        },
{
    let mut i = lo;
    while i < hi
        invariant
            lo <= i <= hi <= v.len(),
            find_char(v@.subrange(lo as int, hi as int), c) == match find_char(
                v@.subrange(i as int, hi as int),
                c,
            ) {
                Some(k) => Some(k + (i - lo)),
                None => None::<int>,
            },
        decreases hi - i,
    {
        if v[i] == c {
            return Some(i);
        }
        assert(v@.subrange(i as int, hi as int).drop_first() =~= v@.subrange(
            i + 1,
            hi as int,
        ));
        i = i + 1;
    }
    None
}

/// The position of the last `c` in `v[lo..hi]`, counted from `lo`.
pub fn rfind_in_range(v: &Vec<char>, lo: usize, hi: usize, c: char) -> (r: Option<usize>)
    requires
        lo <= hi <= v.len(),
    ensures
        match rfind_char(v@.subrange(lo as int, hi as int), c) {
            Some(i) => r matches Some(k) && k == lo + i,
            None => r is None,
        },
        match r {
            Some(k) => lo <= k < hi && v@[k as int] == c,
            None => true,
        },
{
    let mut j = hi;
    while j > lo
        invariant
            lo <= j <= hi <= v.len(),
            rfind_char(v@.subrange(lo as int, hi as int), c) == rfind_char(
                v@.subrange(lo as int, j as int),
                c,
            ),
        decreases j - lo,
    {
        if v[j - 1] == c {
            return Some(j - 1);
        }
        assert(v@.subrange(lo as int, j as int).drop_last() =~= v@.subrange(
            lo as int,
            j - 1,
        ));
        j = j - 1;
    }
    None
}

/// `char::to_digit(radix)` for the radixes 10 and 16.
pub fn to_digit(c: char, radix: u32) -> (r: Option<u32>)
    requires
        radix == 10 || radix == 16,
    ensures
        match digit_value(c, radix as nat) {
            Some(d) => r == Some(d as u32),
            None => r is None,
        },
{
    if '0' <= c && c <= '9' && (c as u32) - ('0' as u32) < radix {
        Some((c as u32) - ('0' as u32))
    } else if radix == 16 && 'a' <= c && c <= 'f' {
        Some((c as u32) - ('a' as u32) + 10)
    } else if radix == 16 && 'A' <= c && c <= 'F' {
        Some((c as u32) - ('A' as u32) + 10)
    } else {
        None
    }
}

/// `v[lo..hi]` read as an unsigned number in `radix` no larger than `max`,
/// as `from_str_radix` of an unsigned integer type reads it.
pub fn parse_unsigned_range(v: &Vec<char>, lo: usize, hi: usize, radix: u32, max: u32) -> (r:
    Option<u32>)
    requires
        lo <= hi <= v.len(),
        radix == 10 || radix == 16,
    ensures
        match parse_unsigned(v@.subrange(lo as int, hi as int), radix as nat, max as nat) {
            Some(n) => r == Some(n as u32),
            None => r is None,
        },
{
    let ghost s = v@.subrange(lo as int, hi as int);
    let mut start = lo;
    if lo < hi && v[lo] == '+' {
        start = lo + 1;
    }
    let ghost d = v@.subrange(start as int, hi as int);
    assert(d =~= unsigned_digits(s));
    if start == hi {
        return None;
    }
    let mut acc: u64 = 0;
    let mut k = start;
    while k < hi
        invariant
            lo <= start <= k <= hi <= v.len(),
            radix == 10 || radix == 16,
            d == v@.subrange(start as int, hi as int),
            s == v@.subrange(lo as int, hi as int),
            d == unsigned_digits(s),
            all_digits(v@.subrange(start as int, k as int), radix as nat),
            acc == digits_value(v@.subrange(start as int, k as int), radix as nat),
            acc <= max,
        decreases hi - k,
    {
        let ghost prefix = v@.subrange(start as int, (k + 1) as int);
        assert(prefix.drop_last() =~= v@.subrange(start as int, k as int));
        match to_digit(v[k], radix) {
            None => {
                assert(digit_value(d[k - start], radix as nat) is None);
                return None;
            },
            Some(dv) => {
                assert(acc * (radix as u64) <= 0xffff_ffffu64 * 16) by (nonlinear_arith)
                    requires
                        acc <= 0xffff_ffffu64,
                        radix <= 16,
                ;
                let next: u64 = acc * (radix as u64) + (dv as u64);
                assert(next == digits_value(prefix, radix as nat));
                assert(all_digits(prefix, radix as nat)) by {
                    assert forall|m: int| 0 <= m < prefix.len() implies (#[trigger] digit_value(
                        prefix[m],
                        radix as nat,
                    )) is Some by {
                        if m < prefix.len() - 1 {
                            assert(prefix[m] == v@.subrange(start as int, k as int)[m]);
                        }
                    }
                }
                if next > max as u64 {
                    proof {
                        assert(d.take(k + 1 - start) =~= prefix);
                        lemma_digits_value_prefix(d, k + 1 - start, radix as nat);
                    }
                    return None;
                }
                acc = next;
            },
        }
        k = k + 1;
    }
    Some(acc as u32)
}

/// `v[lo..hi].parse::<u32>()`, with `None` for every error.
pub fn parse_u32_range(v: &Vec<char>, lo: usize, hi: usize) -> (r: Option<u32>)
    requires
        lo <= hi <= v.len(),
    ensures
        r == parse_u32(v@.subrange(lo as int, hi as int)),
{
    let r = parse_unsigned_range(v, lo, hi, 10, u32::MAX);
    assert((10u32) as nat == 10nat);
    assert((u32::MAX) as nat == u32::MAX as nat);
    r
}

/// The ranges of the lines of `v`, as `str::lines` splits them.
pub fn line_ranges(v: &Vec<char>) -> (r: Vec<(usize, usize)>)
    ensures
        r@.len() == lines(v@).len(),
        forall|k: int|
            #![trigger r@[k]]
            0 <= k < r@.len() ==> {
                &&& r@[k].0 <= r@[k].1 <= v.len()
                &&& v@.subrange(r@[k].0 as int, r@[k].1 as int) == lines(v@)[k]
            },
{
    let mut r: Vec<(usize, usize)> = Vec::new();
    let mut start: usize = 0;
    let mut i: usize = 0;
    assert(v@.skip(0) =~= v@);
    assert(v@.subrange(0, 0) =~= Seq::<char>::empty());
    assert(Seq::new(0, |k: int| v@.subrange(r@[k].0 as int, r@[k].1 as int)) + lines_from(
        v@,
        Seq::empty(),
    ) =~= lines_from(v@, Seq::empty()));
    while i < v.len()
        invariant
            start <= i <= v.len(),
            forall|k: int| 0 <= k < r@.len() ==> (#[trigger] r@[k]).0 <= r@[k].1 <= v.len(),
            lines(v@) == Seq::new(
                r@.len(),
                |k: int| v@.subrange(r@[k].0 as int, r@[k].1 as int),
            ) + lines_from(v@.skip(i as int), v@.subrange(start as int, i as int)),
        decreases v.len() - i,
    {
        let ghost before = Seq::new(
            r@.len(),
            |k: int| v@.subrange(r@[k].0 as int, r@[k].1 as int),
        );
        let ghost cur = v@.subrange(start as int, i as int);
        assert(v@.skip(i as int).drop_first() =~= v@.skip(i + 1));
        if v[i] == '\n' {
            let end = if i > start && v[i - 1] == '\r' {
                i - 1
            } else {
                i
            };
            assert(v@.subrange(start as int, end as int) =~= strip_cr(cur));
            r.push((start, end));
            let ghost after = Seq::new(
                r@.len(),
                |k: int| v@.subrange(r@[k].0 as int, r@[k].1 as int),
            );
            assert(after =~= before.push(strip_cr(cur)));
            start = i + 1;
            assert(v@.subrange(start as int, (i + 1) as int) =~= Seq::<char>::empty());
            assert(lines_from(v@.skip(i as int), cur) == seq![strip_cr(cur)] + lines_from(
                v@.skip(i + 1),
                Seq::empty(),
            ));
            assert(before + (seq![strip_cr(cur)] + lines_from(v@.skip(i + 1), Seq::empty()))
                =~= after + lines_from(v@.skip(i + 1), Seq::empty()));
        } else {
            assert(cur.push(v@[i as int]) =~= v@.subrange(start as int, i + 1));
        }
        i = i + 1;
    }
    let ghost before = Seq::new(r@.len(), |k: int| v@.subrange(r@[k].0 as int, r@[k].1 as int));
    assert(v@.skip(i as int) =~= Seq::<char>::empty());
    if start < i {
        r.push((start, i));
        let ghost after = Seq::new(
            r@.len(),
            |k: int| v@.subrange(r@[k].0 as int, r@[k].1 as int),
        );
        assert(after =~= before + seq![v@.subrange(start as int, i as int)]);
    } else {
        assert(v@.subrange(start as int, i as int) =~= Seq::<char>::empty());
        assert(before + Seq::<Seq<char>>::empty() =~= before);
    }
    let ghost fin = Seq::new(r@.len(), |k: int| v@.subrange(r@[k].0 as int, r@[k].1 as int));
    assert(lines(v@) =~= fin);
    assert forall|k: int| 0 <= k < r@.len() implies v@.subrange(
        (#[trigger] r@[k]).0 as int,
        r@[k].1 as int,
    ) == lines(v@)[k] by {
        assert(fin[k] == v@.subrange(r@[k].0 as int, r@[k].1 as int));
    }
    r
}

/// A `String` holding the characters `s[lo..hi]`, where `v` holds those of `s`.
pub fn substring(s: &str, v: &Vec<char>, lo: usize, hi: usize) -> (r: String)
    requires
        v@ == s@,
        lo <= hi <= v.len(),
    ensures
        r@ == v@.subrange(lo as int, hi as int),
{
    let piece = s.substring_char(lo, hi);
    piece.to_owned()
}

/// Whether two strings hold the same characters.
pub fn str_eq(a: &str, b: &str) -> (r: bool)
    ensures
        r == (a@ == b@),
{
    let va = chars_of(a);
    let vb = chars_of(b);
    assert(va@.subrange(0, va.len() as int) =~= va@);
    range_eq(&va, 0, va.len(), &vb)
}

/// The decimal digit `d` as a one-character string.
fn digit_str(d: u64) -> (r: &'static str)
    requires
        d < 10,
    ensures
        r@ == seq![digit_char(d as nat)],
{
    proof {
        reveal_strlit("0");
        reveal_strlit("1");
        reveal_strlit("2");
        reveal_strlit("3");
        reveal_strlit("4");
        reveal_strlit("5");
        reveal_strlit("6");
        reveal_strlit("7");
        reveal_strlit("8");
        reveal_strlit("9");
    }
    if d == 0 {
        "0"
    } else if d == 1 {
        "1"
    } else if d == 2 {
        "2"
    } else if d == 3 {
        "3"
    } else if d == 4 {
        "4"
    } else if d == 5 {
        "5"
    } else if d == 6 {
        "6"
    } else if d == 7 {
        "7"
    } else if d == 8 {
        "8"
    } else {
        "9"
    }
}

/// Appends the decimal digits of `n` to `out`, as `write!(out, "{n}")` does.
pub fn push_decimal(out: &mut String, n: u64)
    ensures
        final(out)@ == old(out)@ + decimal(n as nat),
    decreases n,
{
    if n < 10 {
        out.append(digit_str(n));
    } else {
        push_decimal(out, n / 10);
        out.append(digit_str(n % 10));
        assert(decimal(n as nat) == decimal((n / 10) as nat).push(digit_char((n % 10) as nat)));
    }
}

} // verus!
