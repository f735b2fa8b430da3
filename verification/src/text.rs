//! Character-level utilities shared by the parsers: decimal numerals,
//! searching for a character class, and whitespace trimming.

use vstd::prelude::*;

verus! {

/// A decimal digit.
pub open spec fn is_ascii_digit(c: char) -> bool {
    '0' <= c && c <= '9'
}

/// The numeric value of a decimal digit.
pub open spec fn digit_value(c: char) -> nat
    recommends
        is_ascii_digit(c),
{
    (c as int - '0' as int) as nat
}

/// Every character of `s` is a decimal digit.
pub open spec fn all_digits(s: Seq<char>) -> bool {
    forall|i: int| 0 <= i < s.len() ==> is_ascii_digit(s[i])
}

/// The value of a digit string read as a decimal numeral.
pub open spec fn dec_val(s: Seq<char>) -> nat
    recommends
        all_digits(s),
    decreases s.len(),
{
    if s.len() == 0 {
        0
    } else {
        dec_val(s.drop_last()) * 10 + digit_value(s.last())
    }
}

/// A numeral is at least as large as the numeral of any of its prefixes.
pub proof fn lemma_dec_val_prefix_le(s: Seq<char>, k: int)
    requires
        0 <= k <= s.len(),
    ensures
        dec_val(s.subrange(0, k)) <= dec_val(s),
    decreases s.len() - k,
{
    if k == s.len() {
        assert(s.subrange(0, k) =~= s);
    } else {
        lemma_dec_val_prefix_le(s, k + 1);
        let longer = s.subrange(0, k + 1);
        assert(longer.drop_last() =~= s.subrange(0, k));
        assert(dec_val(longer) == dec_val(s.subrange(0, k)) * 10 + digit_value(s[k]));
        assert(dec_val(s.subrange(0, k)) <= dec_val(s.subrange(0, k)) * 10);
    }
}

/// What `parse_u32` returns: the numeral's value when `s` is a non-empty
/// digit string whose value fits in a `u32`, and nothing otherwise.
pub open spec fn spec_parse_u32(s: Seq<char>) -> Option<u32> {
    if s.len() > 0 && all_digits(s) && dec_val(s) <= u32::MAX {
        Some(dec_val(s) as u32)
    } else {
        None
    }
}

/// What `parse_u8` returns, as `spec_parse_u32` with the narrower bound.
pub open spec fn spec_parse_u8(s: Seq<char>) -> Option<u8> {
    if s.len() > 0 && all_digits(s) && dec_val(s) <= u8::MAX {
        Some(dec_val(s) as u8)
    } else {
        None
    }
}

/// Parse a decimal numeral, rejecting empty input, non-digit characters
/// and values over `u32::MAX`.
pub fn parse_u32(s: &str) -> (r: Option<u32>)
    ensures
        r == spec_parse_u32(s@),
{
    let n = s.unicode_len();
    if n == 0 {
        return None;
    }
    let mut acc: u32 = 0;
    let mut i: usize = 0;
    while i < n
        invariant
            0 < n == s@.len(),
            0 <= i <= n,
            all_digits(s@.subrange(0, i as int)),
            dec_val(s@.subrange(0, i as int)) <= u32::MAX,
            acc == dec_val(s@.subrange(0, i as int)),
        decreases n - i,
    {
        let c = s.get_char(i);
        if c < '0' || c > '9' {
            return None;
        }
        let d: u32 = (c as u32) - ('0' as u32);
        proof {
            assert(s@.subrange(0, i + 1).drop_last() =~= s@.subrange(0, i as int));
            assert(dec_val(s@.subrange(0, i + 1)) == acc * 10 + d);
        }
        if acc > u32::MAX / 10 || (acc == u32::MAX / 10 && d > u32::MAX % 10) {
            proof {
                lemma_dec_val_prefix_le(s@, i + 1);
            }
            return None;
        }
        acc = acc * 10 + d;
        i = i + 1;
    }
    proof {
        assert(s@.subrange(0, n as int) =~= s@);
    }
    Some(acc)
}

/// Parse a decimal numeral, rejecting empty input, non-digit characters
/// and values over `u8::MAX`.
pub fn parse_u8(s: &str) -> (r: Option<u8>)
    ensures
        r == spec_parse_u8(s@),
{
    match parse_u32(s) {
        Some(v) => {
            if v <= u8::MAX as u32 {
                Some(v as u8)
            } else {
                None
            }
        },
        None => {
            proof {
                if s@.len() > 0 && all_digits(s@) && dec_val(s@) <= u8::MAX {
                    assert(dec_val(s@) <= u32::MAX);
                }
            }
            None
        },
    }
}

/// The digit character for a value below ten.
pub open spec fn digit_char(d: nat) -> char
    recommends
        d < 10,
{
    if d == 0 {
        '0'
    } else if d == 1 {
        '1'
    } else if d == 2 {
        '2'
    } else if d == 3 {
        '3'
    } else if d == 4 {
        '4'
    } else if d == 5 {
        '5'
    } else if d == 6 {
        '6'
    } else if d == 7 {
        '7'
    } else if d == 8 {
        '8'
    } else {
        '9'
    }
}

/// The decimal numeral of `n`, without leading zeros.
pub open spec fn dec_str(n: nat) -> Seq<char>
    decreases n,
{
    if n < 10 {
        seq![digit_char(n)]
    } else {
        dec_str(n / 10).push(digit_char(n % 10))
    }
}

/// Writing a number as a numeral and reading the numeral back yields the
/// number: `dec_str` and `dec_val` are inverses, and `dec_str` emits
/// digits only.
pub proof fn lemma_dec_str_val(n: nat)
    ensures
        all_digits(dec_str(n)),
        dec_str(n).len() > 0,
        dec_val(dec_str(n)) == n,
    decreases n,
{
    if n < 10 {
        let s = dec_str(n);
        assert(s.len() == 1 && s.last() == digit_char(n));
        assert(s.drop_last() =~= Seq::<char>::empty());
        assert(dec_val(s) == dec_val(s.drop_last()) * 10 + digit_value(s.last()));
        assert(dec_val(Seq::<char>::empty()) == 0);
        assert(digit_value(digit_char(n)) == n);
    } else {
        lemma_dec_str_val(n / 10);
        let s = dec_str(n);
        assert(s.drop_last() =~= dec_str(n / 10));
        assert(forall|i: int|
            0 <= i < s.len() ==> s[i] == if i < s.len() - 1 {
                dec_str(n / 10)[i]
            } else {
                digit_char(n % 10)
            });
        assert(dec_val(s) == dec_val(dec_str(n / 10)) * 10 + digit_value(digit_char(n % 10)));
        assert(n / 10 * 10 + n % 10 == n) by (nonlinear_arith);
    }
}

/// The digit character of a value below ten, as a string slice.
fn digit_str(d: u32) -> (r: &'static str)
    requires
        d < 10,
    ensures
        r@ =~= seq![digit_char(d as nat)],
{
    proof {
        reveal_strlit("0");
        reveal_strlit("1");
        reveal_strlit("2");
        reveal_strlit("3");
        reveal_strlit("4");
        reveal_strlit("5");
        reveal_strlit("6");
        reveal_strlit("7");
        reveal_strlit("8");
        reveal_strlit("9");
    }
    if d == 0 {
        "0"
    } else if d == 1 {
        "1"
    } else if d == 2 {
        "2"
    } else if d == 3 {
        "3"
    } else if d == 4 {
        "4"
    } else if d == 5 {
        "5"
    } else if d == 6 {
        "6"
    } else if d == 7 {
        "7"
    } else if d == 8 {
        "8"
    } else {
        "9"
    }
}

/// Write `n` as a decimal numeral.
pub fn u32_to_string(n: u32) -> (r: String)
    ensures
        r@ == dec_str(n as nat),
    decreases n,
{
    let d = n % 10;
    let ds = digit_str(d);
    if n < 10 {
        String::from_str(ds)
    } else {
        let mut s = u32_to_string(n / 10);
        s.append(ds);
        proof {
            assert(s@ =~= dec_str((n / 10) as nat).push(digit_char((n % 10) as nat)));
        }
        s
    }
}
/// The first index at or after `from` holding character `c`, or the
/// length of `s` when `c` does not occur there.
pub open spec fn find_char_from(s: Seq<char>, from: int, c: char) -> int
    decreases s.len() - from,
{
    if from < 0 || from >= s.len() {
        s.len() as int
    } else if s[from] == c {
        from
    } else {
        find_char_from(s, from + 1, c)
    }
}

/// `find_char_from` lands on the first occurrence of `c`: nothing before
/// it (from `from` on) is `c`, and the found character, if the end was
/// not reached, is `c`.
pub proof fn lemma_find_char_from(s: Seq<char>, from: int, c: char)
    requires
        0 <= from <= s.len(),
    ensures
        from <= find_char_from(s, from, c) <= s.len(),
        forall|j: int| from <= j < find_char_from(s, from, c) ==> s[j] != c,
        find_char_from(s, from, c) < s.len() ==> s[find_char_from(s, from, c)] == c,
    decreases s.len() - from,
{
    if from < s.len() && s[from] != c {
        lemma_find_char_from(s, from + 1, c);
    }
}

/// An index characterized as the first occurrence of `c` is what
/// `find_char_from` finds.
pub proof fn lemma_find_char_from_is(s: Seq<char>, from: int, c: char, k: int)
    requires
        0 <= from <= k <= s.len(),
        forall|j: int| from <= j < k ==> s[j] != c,
        k < s.len() ==> s[k] == c,
    ensures
        find_char_from(s, from, c) == k,
    decreases k - from,
{
    if from < k {
        lemma_find_char_from_is(s, from + 1, c, k);
    }
}

/// The end of the digit run starting at `from`: the first index at or
/// after it that does not hold a digit, or the length of `s`.
pub open spec fn digit_run_end(s: Seq<char>, from: int) -> int
    decreases s.len() - from,
{
    if from < 0 || from >= s.len() {
        s.len() as int
    } else if !is_ascii_digit(s[from]) {
        from
    } else {
        digit_run_end(s, from + 1)
    }
}

/// Everything between `from` and `digit_run_end` is a digit, and the
/// character there, if the end was not reached, is not.
pub proof fn lemma_digit_run_end(s: Seq<char>, from: int)
    requires
        0 <= from <= s.len(),
    ensures
        from <= digit_run_end(s, from) <= s.len(),
        forall|j: int| from <= j < digit_run_end(s, from) ==> is_ascii_digit(s[j]),
        digit_run_end(s, from) < s.len() ==> !is_ascii_digit(s[digit_run_end(s, from)]),
    decreases s.len() - from,
{
    if from < s.len() && is_ascii_digit(s[from]) {
        lemma_digit_run_end(s, from + 1);
    }
}

/// An index characterized as ending the digit run is what
/// `digit_run_end` computes.
pub proof fn lemma_digit_run_end_is(s: Seq<char>, from: int, k: int)
    requires
        0 <= from <= k <= s.len(),
        forall|j: int| from <= j < k ==> is_ascii_digit(s[j]),
        k < s.len() ==> !is_ascii_digit(s[k]),
    ensures
        digit_run_end(s, from) == k,
    decreases k - from,
{
    if from < k {
        lemma_digit_run_end_is(s, from + 1, k);
    }
}

/// A space, tab, carriage return or line feed: the whitespace that
/// surrounds values in headers and tool output.
pub open spec fn is_space(c: char) -> bool {
    c == ' ' || c == '\t' || c == '\r' || c == '\n'
}

/// The first index at or after `from` holding a non-whitespace
/// character, or the length of `s`.
pub open spec fn nonspace_start(s: Seq<char>, from: int) -> int
    decreases s.len() - from,
{
    if from < 0 || from >= s.len() {
        s.len() as int
    } else if !is_space(s[from]) {
        from
    } else {
        nonspace_start(s, from + 1)
    }
}

pub proof fn lemma_nonspace_start(s: Seq<char>, from: int)
    requires
        0 <= from <= s.len(),
    ensures
        from <= nonspace_start(s, from) <= s.len(),
        forall|j: int| from <= j < nonspace_start(s, from) ==> is_space(s[j]),
        nonspace_start(s, from) < s.len() ==> !is_space(s[nonspace_start(s, from)]),
    decreases s.len() - from,
{
    if from < s.len() && is_space(s[from]) {
        lemma_nonspace_start(s, from + 1);
    }
}

/// One past the last non-whitespace character below `from`, or 0 when
/// everything below `from` is whitespace.
pub open spec fn nonspace_end(s: Seq<char>, from: int) -> int
    decreases from,
{
    if from <= 0 || from > s.len() {
        0
    } else if !is_space(s[from - 1]) {
        from
    } else {
        nonspace_end(s, from - 1)
    }
}

pub proof fn lemma_nonspace_end(s: Seq<char>, from: int)
    requires
        0 <= from <= s.len(),
    ensures
        0 <= nonspace_end(s, from) <= from,
        forall|j: int| nonspace_end(s, from) <= j < from ==> is_space(s[j]),
        nonspace_end(s, from) > 0 ==> !is_space(s[nonspace_end(s, from) - 1]),
    decreases from,
{
    if from > 0 && is_space(s[from - 1]) {
        lemma_nonspace_end(s, from - 1);
    }
}

/// What `trim` returns: the contents of `s` between its leading and its
/// trailing whitespace.
pub open spec fn spec_trim(s: Seq<char>) -> Seq<char> {
    let lo = nonspace_start(s, 0);
    let hi = nonspace_end(s, s.len() as int);
    if lo <= hi {
        s.subrange(lo, hi)
    } else {
        Seq::empty()
    }
}

/// Trimming is idempotent: a trimmed string has no whitespace left at
/// either end.
pub proof fn lemma_spec_trim_idempotent(s: Seq<char>)
    ensures
        spec_trim(spec_trim(s)) == spec_trim(s),
{
    lemma_nonspace_start(s, 0);
    lemma_nonspace_end(s, s.len() as int);
    let lo = nonspace_start(s, 0);
    let hi = nonspace_end(s, s.len() as int);
    let t = spec_trim(s);
    if lo <= hi && lo < s.len() && hi > 0 {
        if t.len() > 0 {
            assert(t[0] == s[lo] && !is_space(t[0]));
            assert(t[t.len() - 1] == s[hi - 1] && !is_space(t[t.len() - 1]));
            assert(nonspace_start(t, 0) == 0);
            assert(nonspace_end(t, t.len() as int) == t.len());
            assert(t.subrange(0, t.len() as int) =~= t);
        } else {
            assert(spec_trim(t) =~= t);
        }
    } else {
        assert(t =~= Seq::<char>::empty());
        assert(spec_trim(t) =~= t);
    }
}

fn is_space_exec(c: char) -> (r: bool)
    ensures
        r == is_space(c),
{
    c == ' ' || c == '\t' || c == '\r' || c == '\n'
}

/// The first index at or after `from` holding character `c`, or the
/// length of `s` when `c` does not occur there.
pub fn find_char(s: &str, from: usize, c: char) -> (r: usize)
    requires
        from <= s@.len(),
    ensures
        r == find_char_from(s@, from as int, c),
{
    let n = s.unicode_len();
    let mut i = from;
    while i < n
        invariant
            from <= i <= n == s@.len(),
            find_char_from(s@, from as int, c) == find_char_from(s@, i as int, c),
        decreases n - i,
    {
        if s.get_char(i) == c {
            return i;
        }
        i = i + 1;
    }
    n
}

/// The end of the digit run starting at `from`.
pub fn skip_digits(s: &str, from: usize) -> (r: usize)
    requires
        from <= s@.len(),
    ensures
        r == digit_run_end(s@, from as int),
{
    let n = s.unicode_len();
    let mut i = from;
    while i < n
        invariant
            from <= i <= n == s@.len(),
            digit_run_end(s@, from as int) == digit_run_end(s@, i as int),
        decreases n - i,
    {
        let c = s.get_char(i);
        if c < '0' || c > '9' {
            return i;
        }
        i = i + 1;
    }
    n
}

/// Strip leading and trailing whitespace.
pub fn trim(s: &str) -> (r: &str)
    ensures
        r@ == spec_trim(s@),
{
    let n = s.unicode_len();
    let mut lo: usize = 0;
    while lo < n && is_space_exec(s.get_char(lo))
        invariant
            0 <= lo <= n == s@.len(),
            nonspace_start(s@, 0) == nonspace_start(s@, lo as int),
        decreases n - lo,
    {
        lo = lo + 1;
    }
    let mut hi: usize = n;
    while hi > lo && is_space_exec(s.get_char(hi - 1))
        invariant
            lo <= hi <= n == s@.len(),
            nonspace_end(s@, n as int) == nonspace_end(s@, hi as int),
        decreases hi,
    {
        hi = hi - 1;
    }
    proof {
        lemma_nonspace_start(s@, 0);
        if hi == lo {
            // Everything below `lo` is whitespace, so the backward search
            // runs all the way down to 0 and the spec's bounds meet or cross.
            lemma_nonspace_end(s@, lo as int);
            assert(s@.subrange(lo as int, hi as int) =~= Seq::<char>::empty());
        }
    }
    s.substring_char(lo, hi)
}

/// The items laid end to end with `sep` between neighbours.
pub open spec fn spec_join(items: Seq<Seq<char>>, sep: Seq<char>) -> Seq<char>
    decreases items.len(),
{
    if items.len() == 0 {
        Seq::empty()
    } else if items.len() == 1 {
        items[0]
    } else {
        spec_join(items.drop_last(), sep) + sep + items.last()
    }
}

/// Join the items with `sep` between neighbours.
pub fn join_strings(items: &Vec<String>, sep: &str) -> (r: String)
    ensures
        r@ == spec_join(items.deep_view(), sep@),
{
    let mut out = String::new();
    let mut i: usize = 0;
    while i < items.len()
        invariant
            0 <= i <= items@.len(),
            items.deep_view().len() == items@.len(),
            out@ == spec_join(items.deep_view().subrange(0, i as int), sep@),
        decreases items@.len() - i,
    {
        if i > 0 {
            out.append(sep);
        }
        out.append(items[i].as_str());
        proof {
            let dv = items.deep_view();
            assert(dv.subrange(0, i + 1).drop_last() =~= dv.subrange(0, i as int));
            assert(dv.subrange(0, i + 1).last() == dv[i as int]);
            assert(dv[i as int] == items@[i as int]@);
            if i == 0 {
                assert(out@ =~= dv.subrange(0, 1)[0]);
            }
        }
        i = i + 1;
    }
    proof {
        assert(items.deep_view().subrange(0, items.deep_view().len() as int)
            =~= items.deep_view());
    }
    out
}

/// One past the last character below `from` that is not `c`, or 0 when
/// everything below `from` is `c`.
pub open spec fn non_char_end(s: Seq<char>, from: int, c: char) -> int
    decreases from,
{
    if from <= 0 || from > s.len() {
        0
    } else if s[from - 1] != c {
        from
    } else {
        non_char_end(s, from - 1, c)
    }
}

pub proof fn lemma_non_char_end(s: Seq<char>, from: int, c: char)
    requires
        0 <= from <= s.len(),
    ensures
        0 <= non_char_end(s, from, c) <= from,
        forall|j: int| non_char_end(s, from, c) <= j < from ==> s[j] == c,
        non_char_end(s, from, c) > 0 ==> s[non_char_end(s, from, c) - 1] != c,
    decreases from,
{
    if from > 0 && s[from - 1] == c {
        lemma_non_char_end(s, from - 1, c);
    }
}

/// Does `s` start with `prefix`?
pub fn str_has_prefix(s: &str, prefix: &str) -> (r: bool)
    ensures
        r == prefix@.is_prefix_of(s@),
{
    let n = s.unicode_len();
    let p = prefix.unicode_len();
    if p > n {
        return false;
    }
    let mut i: usize = 0;
    while i < p
        invariant
            0 <= i <= p <= n == s@.len(),
            p == prefix@.len(),
            forall|j: int| 0 <= j < i ==> prefix@[j] == s@[j],
        decreases p - i,
    {
        if s.get_char(i) != prefix.get_char(i) {
            proof {
                assert(prefix@[i as int] != s@.subrange(0, p as int)[i as int]);
            }
            return false;
        }
        i = i + 1;
    }
    proof {
        assert(prefix@ =~= s@.subrange(0, p as int));
    }
    true
}

/// Strip every trailing occurrence of `c`.
pub fn trim_end_char(s: &str, c: char) -> (r: &str)
    ensures
        r@ == s@.subrange(0, non_char_end(s@, s@.len() as int, c)),
{
    let n = s.unicode_len();
    let mut hi: usize = n;
    while hi > 0 && s.get_char(hi - 1) == c
        invariant
            0 <= hi <= n == s@.len(),
            non_char_end(s@, n as int, c) == non_char_end(s@, hi as int, c),
        decreases hi,
    {
        hi = hi - 1;
    }
    s.substring_char(0, hi)
}

} // verus!
