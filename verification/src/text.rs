//! Character-level text handling: conversions between `str`, `String` and
//! character vectors, decimal numbers, ASCII case folding, trimming,
//! searching and splitting, each with the meaning Rust's `str` gives it.

use vstd::prelude::*;

verus! {

/// `String::push` appends one character.
pub assume_specification[ String::push ](s: &mut String, ch: char)
    ensures
        final(s)@ == old(s)@.push(ch),
;

/// The characters of `s`.
pub fn str_chars(s: &str) -> (v: Vec<char>)
    ensures
        v@ == s@,
{
    let n = s.unicode_len();
    let mut v: Vec<char> = Vec::new();
    let mut i: usize = 0;
    while i < n
        invariant
            n == s@.len(),
            i <= n,
            v@ == s@.subrange(0, i as int),
        decreases n - i,
    {
        let c = s.get_char(i);
        v.push(c);
        i = i + 1;
        assert(v@ =~= s@.subrange(0, i as int));
    }
    assert(s@.subrange(0, n as int) =~= s@);
    v
}

/// Appends `v[lo..hi]` to `out`.
pub fn push_range(out: &mut String, v: &Vec<char>, lo: usize, hi: usize)
    requires
        lo <= hi <= v@.len(),
    ensures
        final(out)@ == old(out)@ + v@.subrange(lo as int, hi as int),
{
    let ghost start = out@;
    let mut i = lo;
    while i < hi
        invariant
            lo <= i <= hi,
            hi <= v@.len(),
            out@ == start + v@.subrange(lo as int, i as int),
        decreases hi - i,
    {
        out.push(v[i]);
        i = i + 1;
        assert(out@ =~= start + v@.subrange(lo as int, i as int));
    }
}

/// A new string holding `v[lo..hi]`.
pub fn string_from_range(v: &Vec<char>, lo: usize, hi: usize) -> (s: String)
    requires
        lo <= hi <= v@.len(),
    ensures
        s@ == v@.subrange(lo as int, hi as int),
{
    let mut s = String::new();
    push_range(&mut s, v, lo, hi);
    assert(s@ =~= v@.subrange(lo as int, hi as int));
    s
}

/// Appends the characters of `t`.
pub fn push_str(out: &mut String, t: &str)
    ensures
        final(out)@ == old(out)@ + t@,
{
    out.append(t);
}

// ---------------------------------------------------------------------------
// Decimal numbers

/// The character of a decimal digit.
pub open spec fn digit_char(d: nat) -> char {
    ((d % 10) + 48) as char
}

/// The decimal representation of `n`, without sign or leading zeros.
pub open spec fn decimal(n: nat) -> Seq<char>
    decreases n,
{
    if n < 10 {
        seq![digit_char(n)]
    } else {
        decimal(n / 10).push(digit_char(n % 10))
    }
}

fn digit_to_char(d: u64) -> (c: char)
    requires
        d < 10,
    ensures
        c == digit_char(d as nat),
{
    let b: u8 = (d as u8) + 48;
    b as char
}

/// Appends the decimal representation of `n`.
pub fn push_decimal(out: &mut String, n: u64)
    ensures
        final(out)@ == old(out)@ + decimal(n as nat),
    decreases n,
{
    if n >= 10 {
        push_decimal(out, n / 10);
    }
    let c = digit_to_char(n % 10);
    out.push(c);
    assert(final(out)@ =~= old(out)@ + decimal(n as nat));
}

/// The decimal representation of `n` as a new string.
pub fn decimal_string(n: u64) -> (s: String)
    ensures
        s@ == decimal(n as nat),
{
    let mut s = String::new();
    push_decimal(&mut s, n);
    assert(s@ =~= decimal(n as nat));
    s
}

/// Whether `c` is an ASCII decimal digit.
pub open spec fn is_digit(c: char) -> bool {
    48 <= (c as u32) <= 57
}

/// The value of a decimal digit.
pub open spec fn digit_value(c: char) -> nat {
    ((c as u32) - 48) as nat
}

/// The value of a sequence of decimal digits, most significant first.
pub open spec fn digits_value(s: Seq<char>) -> nat
    decreases s.len(),
{
    if s.len() == 0 {
        0
    } else {
        digits_value(s.drop_last()) * 10 + digit_value(s.last())
    }
}

/// What `str::parse` gives for an unsigned integer type whose largest
/// value is `max`: an optional `+`, then at least one decimal digit and
/// nothing else, with a value that fits.
pub open spec fn parse_unsigned(s: Seq<char>, max: nat) -> Option<nat> {
    let digits = unsigned_digits(s);
    if digits.len() == 0 || !(forall|i: int| 0 <= i < digits.len() ==> is_digit(#[trigger] digits[i])) {
        None
    } else if digits_value(digits) > max {
        None
    } else {
        Some(digits_value(digits))
    }
}

/// The digits `parse_unsigned` reads: `s` without a leading `+`.
pub open spec fn unsigned_digits(s: Seq<char>) -> Seq<char> {
    if s.len() > 0 && s[0] == '+' {
        s.drop_first()
    } else {
        s
    }
}

proof fn lemma_parse_unsigned_rejects(s: Seq<char>, max: nat, k: int)
    requires
        0 <= k < unsigned_digits(s).len(),
        !is_digit(unsigned_digits(s)[k]) || (
            (forall|i: int| 0 <= i < unsigned_digits(s).len() ==> is_digit(#[trigger] unsigned_digits(s)[i]))
            && digits_value(unsigned_digits(s).subrange(0, k + 1)) > max),
    ensures
        parse_unsigned(s, max) is None,
{
    let d = unsigned_digits(s);
    if !is_digit(d[k]) {
        assert(!(forall|i: int| 0 <= i < d.len() ==> is_digit(#[trigger] d[i])));
    } else {
        lemma_digits_value_prefix_monotone(d, k + 1);
    }
}

proof fn lemma_digits_value_prefix_monotone(s: Seq<char>, k: int)
    requires
        0 <= k <= s.len(),
        forall|i: int| 0 <= i < s.len() ==> is_digit(#[trigger] s[i]),
    ensures
        digits_value(s.subrange(0, k)) <= digits_value(s),
    decreases s.len() - k,
{
    if k < s.len() {
        lemma_digits_value_prefix_monotone(s, k + 1);
        assert(s.subrange(0, k + 1).drop_last() =~= s.subrange(0, k));
    } else {
        assert(s.subrange(0, k) =~= s);
    }
}

/// Parses `v[lo..hi]` as `str::parse` does for an unsigned integer type
/// whose largest value is `max`.
pub fn parse_unsigned_range(v: &Vec<char>, lo: usize, hi: usize, max: u64) -> (r: Option<u64>)
    requires
        lo <= hi <= v@.len(),
    ensures
        r matches Some(x) ==> parse_unsigned(v@.subrange(lo as int, hi as int), max as nat) == Some(
            x as nat,
        ),
        r is None ==> parse_unsigned(v@.subrange(lo as int, hi as int), max as nat) is None,
{
    let ghost s = v@.subrange(lo as int, hi as int);
    let mut start = lo;
    if lo < hi && v[lo] == '+' {
        start = lo + 1;
    }
    let ghost digits = v@.subrange(start as int, hi as int);
    assert(digits =~= unsigned_digits(s));
    if start == hi {
        return None;
    }
    let mut acc: u64 = 0;
    let mut i = start;
    while i < hi
        invariant
            lo <= start <= i <= hi <= v@.len(),
            digits == v@.subrange(start as int, hi as int),
            s == v@.subrange(lo as int, hi as int),
            digits == unsigned_digits(s),
            forall|j: int| start <= j < i ==> is_digit(#[trigger] v@[j]),
            acc as nat == digits_value(v@.subrange(start as int, i as int)),
            acc <= max,
        decreases hi - i,
    {
        let c = v[i];
        let u = c as u32;
        if !(48 <= u && u <= 57) {
            assert(digits[i - start] == v@[i as int]);
            proof {
                lemma_parse_unsigned_rejects(s, max as nat, i - start);
            }
            return None;
        }
        let d: u64 = (u - 48) as u64;
        assert(v@.subrange(start as int, i + 1).drop_last() =~= v@.subrange(start as int, i as int));
        let next: u128 = acc as u128 * 10 + d as u128;
        if next > max as u128 {
            proof {
                let k = i - start;
                assert(digits_value(v@.subrange(start as int, i + 1)) == acc * 10 + d);
                assert(digits.subrange(0, k + 1) =~= v@.subrange(start as int, i + 1));
                assert(digits[k] == v@[i as int]);
                if forall|j: int| 0 <= j < digits.len() ==> is_digit(#[trigger] digits[j]) {
                    lemma_parse_unsigned_rejects(s, max as nat, k);
                } else {
                    let j = choose|j: int| 0 <= j < digits.len() && !is_digit(#[trigger] digits[j]);
                    lemma_parse_unsigned_rejects(s, max as nat, j);
                }
            }
            return None;
        }
        acc = next as u64;
        i = i + 1;
    }
    assert(v@.subrange(start as int, i as int) =~= digits);
    assert(forall|j: int| 0 <= j < digits.len() ==> is_digit(#[trigger] digits[j])) by {
        assert(forall|j: int| 0 <= j < digits.len() ==> digits[j] == v@[start + j]);
    }
    Some(acc)
}

// ---------------------------------------------------------------------------
// ASCII case

/// ASCII lowercase of one character; other characters are unchanged.
pub open spec fn ascii_lower(c: char) -> char {
    if 65 <= (c as u32) <= 90 {
        ((c as u32) + 32) as char
    } else {
        c
    }
}

/// ASCII lowercase of a character sequence.
pub open spec fn ascii_lower_seq(s: Seq<char>) -> Seq<char> {
    s.map_values(|c: char| ascii_lower(c))
}

/// `str::eq_ignore_ascii_case` on characters.
pub open spec fn eq_ignore_ascii_case(a: Seq<char>, b: Seq<char>) -> bool {
    ascii_lower_seq(a) == ascii_lower_seq(b)
}

/// ASCII lowercase of one character.
pub fn to_ascii_lower(c: char) -> (r: char)
    ensures
        r == ascii_lower(c),
{
    if c >= 'A' && c <= 'Z' {
        let b: u8 = (c as u32 + 32) as u8;
        b as char
    } else {
        c
    }
}

/// Whether `a` and `b` are equal up to ASCII case.
pub fn chars_eq_ignore_ascii_case(a: &Vec<char>, b: &Vec<char>) -> (r: bool)
    ensures
        r == eq_ignore_ascii_case(a@, b@),
{
    if a.len() != b.len() {
        assert(ascii_lower_seq(a@).len() != ascii_lower_seq(b@).len());
        return false;
    }
    let mut i: usize = 0;
    while i < a.len()
        invariant
            a@.len() == b@.len(),
            i <= a@.len(),
            forall|j: int| 0 <= j < i ==> ascii_lower(#[trigger] a@[j]) == ascii_lower(b@[j]),
        decreases a@.len() - i,
    {
        if to_ascii_lower(a[i]) != to_ascii_lower(b[i]) {
            assert(ascii_lower_seq(a@)[i as int] != ascii_lower_seq(b@)[i as int]);
            return false;
        }
        i = i + 1;
    }
    assert(ascii_lower_seq(a@) =~= ascii_lower_seq(b@));
    true
}

/// Whether `a` and `b` hold the same characters.
pub fn chars_eq(a: &Vec<char>, b: &Vec<char>) -> (r: bool)
    ensures
        r == (a@ == b@),
{
    if a.len() != b.len() {
        return false;
    }
    let mut i: usize = 0;
    while i < a.len()
        invariant
            a@.len() == b@.len(),
            i <= a@.len(),
            forall|j: int| 0 <= j < i ==> a@[j] == b@[j],
        decreases a@.len() - i,
    {
        if a[i] != b[i] {
            return false;
        }
        i = i + 1;
    }
    assert(a@ =~= b@);
    true
}

/// Whether `a` and `b` are the same string.
pub fn str_eq(a: &str, b: &str) -> (r: bool)
    ensures
        r == (a@ == b@),
{
    let va = str_chars(a);
    let vb = str_chars(b);
    chars_eq(&va, &vb)
}

// ---------------------------------------------------------------------------
// Whitespace and trimming

/// The characters Rust's `char::is_whitespace` accepts (Unicode White_Space).
pub open spec fn is_whitespace(c: char) -> bool {
    let u = c as u32;
    (9 <= u <= 13) || u == 32 || u == 0x85 || u == 0xA0 || u == 0x1680 || (0x2000 <= u <= 0x200A)
        || u == 0x2028 || u == 0x2029 || u == 0x202F || u == 0x205F || u == 0x3000
}

fn char_is_whitespace(c: char) -> (r: bool)
    ensures
        r == is_whitespace(c),
{
    let u = c as u32;
    (9 <= u && u <= 13) || u == 32 || u == 0x85 || u == 0xA0 || u == 0x1680 || (0x2000 <= u && u
        <= 0x200A) || u == 0x2028 || u == 0x2029 || u == 0x202F || u == 0x205F || u == 0x3000
}

/// `str::trim_start`.
pub open spec fn trim_start(s: Seq<char>) -> Seq<char>
    decreases s.len(),
{
    if s.len() > 0 && is_whitespace(s[0]) {
        trim_start(s.drop_first())
    } else {
        s
    }
}

/// `str::trim_end`.
pub open spec fn trim_end(s: Seq<char>) -> Seq<char>
    decreases s.len(),
{
    if s.len() > 0 && is_whitespace(s.last()) {
        trim_end(s.drop_last())
    } else {
        s
    }
}

/// `str::trim`.
pub open spec fn trim(s: Seq<char>) -> Seq<char> {
    trim_end(trim_start(s))
}

/// The bounds of `v[lo..hi]` once trimmed.
pub fn trim_range(v: &Vec<char>, lo: usize, hi: usize) -> (r: (usize, usize))
    requires
        lo <= hi <= v@.len(),
    ensures
        lo <= r.0 <= r.1 <= hi,
        v@.subrange(r.0 as int, r.1 as int) == trim(v@.subrange(lo as int, hi as int)),
{
    let ghost s = v@.subrange(lo as int, hi as int);
    let mut a = lo;
    while a < hi && char_is_whitespace(v[a])
        invariant
            lo <= a <= hi <= v@.len(),
            trim_start(v@.subrange(a as int, hi as int)) == trim_start(s),
        decreases hi - a,
    {
        assert(v@.subrange(a as int, hi as int).drop_first() =~= v@.subrange(a + 1, hi as int));
        a = a + 1;
    }
    assert(trim_start(v@.subrange(a as int, hi as int)) == v@.subrange(a as int, hi as int));
    let ghost t = v@.subrange(a as int, hi as int);
    let mut b = hi;
    while b > a && char_is_whitespace(v[b - 1])
        invariant
            lo <= a <= b <= hi <= v@.len(),
            trim_end(v@.subrange(a as int, b as int)) == trim_end(t),
        decreases b - a,
    {
        assert(v@.subrange(a as int, b as int).drop_last() =~= v@.subrange(a as int, b - 1));
        b = b - 1;
    }
    (a, b)
}

// ---------------------------------------------------------------------------
// Searching and splitting

/// The first position at or after `i` where `pat` occurs in `s`.
pub open spec fn find_from(s: Seq<char>, pat: Seq<char>, i: int) -> Option<int>
    decreases s.len() + 1 - i,
{
    if i < 0 || i + pat.len() > s.len() {
        None
    } else if s.subrange(i, i + pat.len()) == pat {
        Some(i)
    } else {
        find_from(s, pat, i + 1)
    }
}

pub proof fn lemma_find_from_bounds(s: Seq<char>, pat: Seq<char>, i: int)
    ensures
        find_from(s, pat, i) matches Some(j) ==> i <= j && j + pat.len() <= s.len() && s.subrange(
            j,
            j + pat.len(),
        ) == pat,
    decreases s.len() - i,
{
    if 0 <= i && i + pat.len() <= s.len() && s.subrange(i, i + pat.len()) != pat {
        assert(pat.len() > 0) by {
            if pat.len() == 0 {
                assert(s.subrange(i, i + pat.len()) =~= pat);
            }
        }
        lemma_find_from_bounds(s, pat, i + 1);
    }
}

/// The first occurrence of `pat` in `v` at or after `from`.
pub fn find_chars(v: &Vec<char>, pat: &Vec<char>, from: usize) -> (r: Option<usize>)
    requires
        from <= v@.len(),
    ensures
        r matches Some(j) ==> find_from(v@, pat@, from as int) == Some(j as int),
        r is None ==> find_from(v@, pat@, from as int) is None,
{
    let n = v.len();
    let m = pat.len();
    let mut i = from;
    while m <= n && i <= n - m
        invariant
            n == v@.len(),
            m == pat@.len(),
            from <= i <= v@.len(),
            find_from(v@, pat@, i as int) == find_from(v@, pat@, from as int),
        decreases v@.len() - i,
    {
        let mut k: usize = 0;
        let mut same = true;
        while k < m
            invariant
                n == v@.len(),
                m == pat@.len(),
                i + m <= n,
                k <= pat@.len(),
                same == (forall|m: int| 0 <= m < k ==> v@[i + m] == pat@[m]),
            decreases pat@.len() - k,
        {
            if v[i + k] != pat[k] {
                same = false;
            }
            k = k + 1;
        }
        if same {
            assert(v@.subrange(i as int, i + pat@.len()) =~= pat@);
            return Some(i);
        }
        assert(v@.subrange(i as int, i + pat@.len()) != pat@) by {
            let m = choose|m: int| 0 <= m < pat@.len() && v@[i + m] != pat@[m];
            assert(v@.subrange(i as int, i + pat@.len())[m] != pat@[m]);
        }
        i = i + 1;
    }
    None
}

/// The pieces `str::split` gives for `s[i..]` and a non-empty separator.
pub open spec fn split_from(s: Seq<char>, sep: Seq<char>, i: int) -> Seq<Seq<char>>
    decreases s.len() - i,
{
    if sep.len() == 0 || i < 0 || i > s.len() {
        seq![]
    } else {
        match find_from(s, sep, i) {
            Some(j) => if i <= j && j + sep.len() <= s.len() {
                seq![s.subrange(i, j)] + split_from(s, sep, j + sep.len())
            } else {
                seq![]
            },
            None => seq![s.subrange(i, s.len() as int)],
        }
    }
}

/// `str::split` with a non-empty separator.
pub open spec fn split(s: Seq<char>, sep: Seq<char>) -> Seq<Seq<char>> {
    split_from(s, sep, 0)
}

/// `str::split_once`: the text before and after the first separator.
pub open spec fn split_once(s: Seq<char>, sep: Seq<char>) -> Option<(Seq<char>, Seq<char>)> {
    match find_from(s, sep, 0) {
        Some(j) => Some((s.subrange(0, j), s.subrange(j + sep.len(), s.len() as int))),
        None => None,
    }
}

/// The bounds of the pieces of `v[..]` split at `sep`, in order.
pub fn split_ranges(v: &Vec<char>, sep: &Vec<char>) -> (r: Vec<(usize, usize)>)
    requires
        sep@.len() > 0,
    ensures
        r@.len() == split(v@, sep@).len(),
        forall|k: int|
            0 <= k < r@.len() ==> {
                &&& (#[trigger] r@[k]).0 <= r@[k].1 <= v@.len()
                &&& v@.subrange(r@[k].0 as int, r@[k].1 as int) == split(v@, sep@)[k]
            },
{
    let mut r: Vec<(usize, usize)> = Vec::new();
    let mut pos: usize = 0;
    let n = v.len();
    loop
        invariant
            n == v@.len(),
            sep@.len() > 0,
            pos <= v@.len(),
            split(v@, sep@) == r@.map_values(
                |p: (usize, usize)| v@.subrange(p.0 as int, p.1 as int),
            ) + split_from(v@, sep@, pos as int),
            forall|k: int| 0 <= k < r@.len() ==> (#[trigger] r@[k]).0 <= r@[k].1 <= v@.len(),
        decreases v@.len() - pos,
    {
        let ghost before = r@;
        match find_chars(v, sep, pos) {
            Some(j) => {
                proof {
                    lemma_find_from_bounds(v@, sep@, pos as int);
                }
                r.push((pos, j));
                assert(r@.map_values(|p: (usize, usize)| v@.subrange(p.0 as int, p.1 as int))
                    =~= before.map_values(|p: (usize, usize)| v@.subrange(p.0 as int, p.1 as int))
                    + seq![v@.subrange(pos as int, j as int)]);
                assert(split_from(v@, sep@, pos as int) == seq![v@.subrange(pos as int, j as int)]
                    + split_from(v@, sep@, j + sep@.len()));
                pos = j + sep.len();
            },
            None => {
                r.push((pos, v.len()));
                assert(r@.map_values(|p: (usize, usize)| v@.subrange(p.0 as int, p.1 as int))
                    =~= before.map_values(|p: (usize, usize)| v@.subrange(p.0 as int, p.1 as int))
                    + seq![v@.subrange(pos as int, v@.len() as int)]);
                assert(split_from(v@, sep@, pos as int) == seq![
                    v@.subrange(pos as int, v@.len() as int),
                ]);
                assert(split(v@, sep@) =~= r@.map_values(
                    |p: (usize, usize)| v@.subrange(p.0 as int, p.1 as int),
                ));
                return r;
            },
        }
    }
}

} // verus!
