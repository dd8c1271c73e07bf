use vstd::prelude::*;

verus! {

/// `needle` occurs in `haystack` starting at position `i`.
pub open spec fn spec_occurs_at(haystack: Seq<char>, needle: Seq<char>, i: int) -> bool {
    0 <= i && i + needle.len() <= haystack.len() && haystack.subrange(i, i + needle.len())
        == needle
}

/// `needle` occurs somewhere in `haystack`.
pub open spec fn spec_contains_seq(haystack: Seq<char>, needle: Seq<char>) -> bool {
    exists|i: int| spec_occurs_at(haystack, needle, i)
}

fn matches_at(haystack: &str, needle: &str, i: usize) -> (r: bool)
    requires
        i + needle@.len() <= haystack@.len(),
    ensures
        r == spec_occurs_at(haystack@, needle@, i as int),
{
    let h = haystack.unicode_len();
    let n = needle.unicode_len();
    let mut j: usize = 0;
    while j < n
        invariant
            0 <= j <= n,
            h == haystack@.len(),
            n == needle@.len(),
            i + n <= h,
            forall|k: int| 0 <= k < j ==> haystack@[i + k] == needle@[k],
        decreases n - j,
    {
        if haystack.get_char(i + j) != needle.get_char(j) {
            proof {
                let sub = haystack@.subrange(i as int, i + needle@.len());
                assert(sub[j as int] != needle@[j as int]);
            }
            return false;
        }
        j = j + 1;
    }
    proof {
        assert(haystack@.subrange(i as int, i + needle@.len()) =~= needle@);
    }
    true
}

/// The decimal digit character for `d`.
pub open spec fn spec_dec_digit(d: nat) -> char {
    if d == 0 {
        '0'
    } else if d == 1 {
        '1'
    } else if d == 2 {
        '2'
    } else if d == 3 {
        '3'
    } else if d == 4 {
        '4'
    } else if d == 5 {
        '5'
    } else if d == 6 {
        '6'
    } else if d == 7 {
        '7'
    } else if d == 8 {
        '8'
    } else {
        '9'
    }
}

/// The decimal rendering of `n`, most significant digit first, no sign and
/// no leading zeroes (a single `'0'` for zero).
pub open spec fn spec_dec_nat(n: nat) -> Seq<char>
    decreases n,
{
    if n < 10 {
        seq![spec_dec_digit(n)]
    } else {
        spec_dec_nat(n / 10).push(spec_dec_digit(n % 10))
    }
}

/// The decimal rendering of `i`, with a leading `'-'` when negative.
pub open spec fn spec_dec_int(i: int) -> Seq<char> {
    if i < 0 {
        seq!['-'] + spec_dec_nat((-i) as nat)
    } else {
        spec_dec_nat(i as nat)
    }
}

/// The one-character text of a decimal digit.
fn digit_literal(d: u64) -> (r: &'static str)
    requires
        d <= 9,
    ensures
        r@.len() == 1,
        r@[0] == spec_dec_digit(d as nat),
{
    proof {
        reveal_strlit("0");
        reveal_strlit("1");
        reveal_strlit("2");
        reveal_strlit("3");
        reveal_strlit("4");
        reveal_strlit("5");
        reveal_strlit("6");
        reveal_strlit("7");
        reveal_strlit("8");
        reveal_strlit("9");
    }
    match d {
        0 => "0",
        1 => "1",
        2 => "2",
        3 => "3",
        4 => "4",
        5 => "5",
        6 => "6",
        7 => "7",
        8 => "8",
        _ => "9",
    }
}

/// Renders `n` in decimal, most significant digit first: exactly
/// `spec_dec_nat`.
pub fn u64_to_string(n: u64) -> (r: String)
    ensures
        r@ == spec_dec_nat(n as nat),
    decreases n,
{
    if n < 10 {
        let r = String::from_str(digit_literal(n));
        proof {
            assert(r@ =~= seq![spec_dec_digit(n as nat)]);
        }
        r
    } else {
        let mut r = u64_to_string(n / 10);
        r.append(digit_literal(n % 10));
        proof {
            assert((n / 10) as nat == (n as nat) / 10);
            assert((n % 10) as nat == (n as nat) % 10);
            assert(r@ =~= spec_dec_nat((n as nat) / 10).push(spec_dec_digit((n as nat) % 10)));
        }
        r
    }
}

/// Renders `i` in decimal with a `-` sign when negative: exactly
/// `spec_dec_int`.
pub fn i64_to_string(i: i64) -> (r: String)
    ensures
        r@ == spec_dec_int(i as int),
{
    if i >= 0 {
        u64_to_string(i as u64)
    } else {
        let magnitude: u64 = if i == i64::MIN {
            9223372036854775808u64
        } else {
            (-i) as u64
        };
        proof {
            reveal_strlit("-");
        }
        let mut r = String::from_str("-");
        let digits = u64_to_string(magnitude);
        r.append(digits.as_str());
        proof {
            assert(magnitude as nat == (-(i as int)) as nat);
            assert("-"@ =~= seq!['-']);
            assert(r@ =~= seq!['-'] + spec_dec_nat((-(i as int)) as nat));
        }
        r
    }
}

/// Renders `i` in decimal with a `-` sign when negative: exactly
/// `spec_dec_int`.
pub fn i32_to_string(i: i32) -> (r: String)
    ensures
        r@ == spec_dec_int(i as int),
{
    i64_to_string(i as i64)
}

pub open spec fn spec_is_digit(c: char) -> bool {
    '0' <= c && c <= '9'
}

pub open spec fn spec_digit_val(c: char) -> int {
    c as int - 48
}

/// The number a run of decimal digits denotes, most significant first.
pub open spec fn spec_digits_value(s: Seq<char>) -> int
    decreases s.len(),
{
    if s.len() == 0 {
        0
    } else {
        spec_digits_value(s.drop_last()) * 10 + spec_digit_val(s.last())
    }
}

/// How many decimal digits `s` starts with.
pub open spec fn spec_digits_prefix_len(s: Seq<char>) -> int
    decreases s.len(),
{
    if s.len() == 0 || !spec_is_digit(s[0]) {
        0
    } else {
        1 + spec_digits_prefix_len(s.skip(1))
    }
}

pub proof fn lemma_digits_value_nonneg(s: Seq<char>)
    requires
        forall|k: int| 0 <= k < s.len() ==> spec_is_digit(s[k]),
    ensures
        spec_digits_value(s) >= 0,
    decreases s.len(),
{
    if s.len() > 0 {
        assert(forall|k: int| 0 <= k < s.drop_last().len() ==> spec_is_digit(s.drop_last()[k]));
        lemma_digits_value_nonneg(s.drop_last());
    }
}

/// Along a run of digits, a longer prefix denotes at least as large a number.
pub proof fn lemma_digits_value_monotone(s: Seq<char>, a: int, i: int, j: int)
    requires
        0 <= a <= i <= j <= s.len(),
        forall|k: int| a <= k < j ==> spec_is_digit(s[k]),
    ensures
        spec_digits_value(s.subrange(a, i)) <= spec_digits_value(s.subrange(a, j)),
    decreases j - i,
{
    if i < j {
        lemma_digits_value_monotone(s, a, i, j - 1);
        let shorter = s.subrange(a, j - 1);
        let longer = s.subrange(a, j);
        assert(longer.drop_last() =~= shorter);
        assert(forall|k: int| 0 <= k < shorter.len() ==> spec_is_digit(shorter[k]));
        lemma_digits_value_nonneg(shorter);
        assert(spec_digit_val(longer.last()) >= 0);
        assert(spec_digits_value(longer) == spec_digits_value(shorter) * 10 + spec_digit_val(
            longer.last(),
        ));
        assert(spec_digits_value(shorter) * 10 >= spec_digits_value(shorter)) by (nonlinear_arith)
            requires
                spec_digits_value(shorter) >= 0,
        ;
    }
}

/// Reads the run of decimal digits starting at `from`: its value and where
/// it ends. `None` when no digit starts there or the run's value does not
/// fit in a `u64`.
pub fn parse_u64_prefix(s: &str, from: usize) -> (r: Option<(u64, usize)>)
    requires
        from <= s@.len(),
    ensures
        r matches Some(t) ==> {
            &&& from < t.1 <= s@.len()
            &&& (forall|k: int| from <= k < t.1 ==> spec_is_digit(s@[k]))
            &&& (t.1 < s@.len() ==> !spec_is_digit(s@[t.1 as int]))
            &&& t.0 == spec_digits_value(s@.subrange(from as int, t.1 as int))
        },
        r is None ==> (from == s@.len() || !spec_is_digit(s@[from as int]) || spec_digits_value(
            s@.subrange(from as int, from + spec_digits_prefix_len(s@.skip(from as int))),
        ) > u64::MAX),
{
    let h = s.unicode_len();
    if from == h || !is_ascii_digit(s.get_char(from)) {
        return None;
    }
    let first = digit_value(s.get_char(from));
    let mut acc: u64 = first;
    let mut i: usize = from + 1;
    proof {
        let one = s@.subrange(from as int, from as int + 1);
        assert(one.drop_last() =~= Seq::<char>::empty());
        assert(one.last() == s@[from as int]);
        assert(spec_digits_value(one) == spec_digits_value(Seq::<char>::empty()) * 10
            + spec_digit_val(one.last()));
        assert(acc == spec_digits_value(one));
    }
    while i < h
        invariant
            from < i <= h,
            h == s@.len(),
            forall|k: int| from <= k < i ==> spec_is_digit(s@[k]),
            acc == spec_digits_value(s@.subrange(from as int, i as int)),
        decreases h - i,
    {
        let c = s.get_char(i);
        if !is_ascii_digit(c) {
            return Some((acc, i));
        }
        let d = digit_value(c);
        if acc > u64::MAX / 10 || (acc == u64::MAX / 10 && d > 5) {
            proof {
                let run = from + spec_digits_prefix_len(s@.skip(from as int));
                lemma_digits_prefix_len_bounds(s@, from as int);
                assert(spec_is_digit(s@[i as int]));
                lemma_digits_prefix_covers(s@, from as int, i as int + 1);
                let next = s@.subrange(from as int, i as int + 1);
                assert(next.drop_last() =~= s@.subrange(from as int, i as int));
                assert(spec_digits_value(next) == acc * 10 + spec_digit_val(c));
                assert(acc * 10 + spec_digit_val(c) > u64::MAX) by (nonlinear_arith)
                    requires
                        acc > u64::MAX / 10 || (acc == u64::MAX / 10 && spec_digit_val(c) > 5),
                        spec_is_digit(c),
                        spec_digit_val(c) == c as int - 48,
                        acc >= 0,
                ;
                assert(forall|k: int| from <= k < run ==> spec_is_digit(s@[k]));
                lemma_digits_value_monotone(s@, from as int, i as int + 1, run);
            }
            return None;
        }
        proof {
            let next = s@.subrange(from as int, i as int + 1);
            assert(next.drop_last() =~= s@.subrange(from as int, i as int));
        }
        acc = acc * 10 + d;
        i = i + 1;
    }
    Some((acc, i))
}

/// The digit run starting at `from` ends exactly at
/// `from + spec_digits_prefix_len`, and every position covered by a known
/// digit run lies within it.
pub proof fn lemma_digits_prefix_len_bounds(s: Seq<char>, from: int)
    requires
        0 <= from <= s.len(),
    ensures
        from + spec_digits_prefix_len(s.skip(from)) <= s.len(),
        spec_digits_prefix_len(s.skip(from)) >= 0,
        forall|k: int|
            from <= k < from + spec_digits_prefix_len(s.skip(from)) ==> spec_is_digit(s[k]),
    decreases s.len() - from,
{
    let rest = s.skip(from);
    if rest.len() > 0 && spec_is_digit(rest[0]) {
        lemma_digits_prefix_len_bounds(s, from + 1);
        assert(rest.skip(1) =~= s.skip(from + 1));
        assert forall|k: int|
            from <= k < from + spec_digits_prefix_len(s.skip(from)) implies spec_is_digit(
            s[k],
        ) by {
            if k == from {
                assert(s[from] == rest[0]);
            }
        }
    }
}

/// If positions `from..j` all hold digits, the digit run starting at `from`
/// reaches at least `j`.
pub proof fn lemma_digits_prefix_covers(s: Seq<char>, from: int, j: int)
    requires
        0 <= from <= j <= s.len(),
        forall|k: int| from <= k < j ==> spec_is_digit(s[k]),
    ensures
        from + spec_digits_prefix_len(s.skip(from)) >= j,
    decreases j - from,
{
    lemma_digits_prefix_len_bounds(s, from);
    if from < j {
        let rest = s.skip(from);
        assert(rest[0] == s[from]);
        assert(spec_is_digit(rest[0]));
        assert(rest.skip(1) =~= s.skip(from + 1));
        lemma_digits_prefix_covers(s, from + 1, j);
    }
}

/// A maximal digit run: all of `from..end` digits, nothing after, so the
/// digit-prefix length at `from` is exactly `end - from`.
pub proof fn lemma_digits_prefix_exact(s: Seq<char>, from: int, end: int)
    requires
        0 <= from < end <= s.len(),
        forall|k: int| from <= k < end ==> spec_is_digit(s[k]),
        end == s.len() || !spec_is_digit(s[end]),
    ensures
        spec_digits_prefix_len(s.skip(from)) == end - from,
{
    lemma_digits_prefix_covers(s, from, end);
    lemma_digits_prefix_len_bounds(s, from);
    let dl = spec_digits_prefix_len(s.skip(from));
    if from + dl > end {
        assert(spec_is_digit(s[end]));
        assert(false);
    }
}

fn is_ascii_digit(c: char) -> (r: bool)
    ensures
        r == spec_is_digit(c),
{
    c >= '0' && c <= '9'
}

fn digit_value(c: char) -> (r: u64)
    requires
        spec_is_digit(c),
    ensures
        r == spec_digit_val(c),
        r <= 9,
{
    (c as u32 - 48) as u64
}

/// Whether `v` holds `x`.
pub fn contains_u64(v: &Vec<u64>, x: u64) -> (r: bool)
    ensures
        r == v@.contains(x),
{
    let n = v.len();
    let mut i: usize = 0;
    while i < n
        invariant
            0 <= i <= n,
            n == v@.len(),
            forall|k: int| 0 <= k < i ==> v@[k] != x,
        decreases n - i,
    {
        if v[i] == x {
            return true;
        }
        i = i + 1;
    }
    proof {
        assert(forall|k: int| 0 <= k < v@.len() ==> v@[k] != x);
    }
    false
}

/// Relies on std's HashMap iteration: hands the entries out as owned
/// pairs, in the map's own (unspecified) order. Nothing is promised: the
/// order is seeded per process, and the engine treats the result as an
/// arbitrary listing.
#[verifier::external_body]
pub fn hash_map_entries(map: &std::collections::HashMap<String, String>) -> Vec<
    (String, String),
> {
    map.iter().map(|(key, value)| (key.clone(), value.clone())).collect()
}

/// The position of the first `wanted` character at or after `i`, or the
/// end.
pub open spec fn spec_find_char(s: Seq<char>, i: int, wanted: char) -> int
    decreases s.len() - i,
{
    if i < 0 || i >= s.len() {
        s.len() as int
    } else if s[i] == wanted {
        i
    } else {
        spec_find_char(s, i + 1, wanted)
    }
}

/// Finds the first occurrence of `wanted` at or after `from`.
pub fn find_char(s: &str, from: usize, wanted: char) -> (r: usize)
    requires
        from <= s@.len(),
    ensures
        r == spec_find_char(s@, from as int, wanted),
        from <= r <= s@.len(),
        r < s@.len() ==> s@[r as int] == wanted,
        forall|k: int| from <= k < r ==> s@[k] != wanted,
    decreases s@.len() - from,
{
    let h = s.unicode_len();
    let mut i: usize = from;
    while i < h
        invariant
            from <= i <= h,
            h == s@.len(),
            spec_find_char(s@, from as int, wanted) == spec_find_char(s@, i as int, wanted),
            forall|k: int| from <= k < i ==> s@[k] != wanted,
        decreases h - i,
    {
        if s.get_char(i) == wanted {
            return i;
        }
        i = i + 1;
    }
    h
}

/// Whether two strings hold the same characters.
pub fn str_eq(a: &str, b: &str) -> (r: bool)
    ensures
        r == (a@ == b@),
{
    let n = a.unicode_len();
    let m = b.unicode_len();
    if n != m {
        return false;
    }
    let mut i: usize = 0;
    while i < n
        invariant
            0 <= i <= n,
            n == a@.len(),
            n == b@.len(),
            forall|k: int| 0 <= k < i ==> a@[k] == b@[k],
        decreases n - i,
    {
        if a.get_char(i) != b.get_char(i) {
            return false;
        }
        i = i + 1;
    }
    proof {
        assert(a@ =~= b@);
    }
    true
}

/// Whether `needle` occurs in `haystack`, by characters.
pub fn string_contains(haystack: &str, needle: &str) -> (r: bool)
    ensures
        r == spec_contains_seq(haystack@, needle@),
{
    let h = haystack.unicode_len();
    let n = needle.unicode_len();
    if n > h {
        proof {
            assert(forall|i: int| !spec_occurs_at(haystack@, needle@, i));
        }
        return false;
    }
    if n == 0 {
        proof {
            assert(haystack@.subrange(0, 0) =~= needle@);
            assert(spec_occurs_at(haystack@, needle@, 0));
        }
        return true;
    }
    let mut i: usize = 0;
    while i <= h - n
        invariant
            1 <= n <= h,
            h == haystack@.len(),
            n == needle@.len(),
            0 <= i <= h - n + 1,
            forall|k: int| 0 <= k < i ==> !spec_occurs_at(haystack@, needle@, k),
        decreases h - i,
    {
        if matches_at(haystack, needle, i) {
            return true;
        }
        i = i + 1;
    }
    proof {
        assert(forall|k: int| i <= k ==> !spec_occurs_at(haystack@, needle@, k));
    }
    false
}

} // verus!
