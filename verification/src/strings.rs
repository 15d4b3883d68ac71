//! Verified string building blocks.
//!
//! Path construction, host detection and version parsing all reduce to a
//! handful of character-level operations: rendering a number in decimal,
//! substring search, prefix tests, splitting, trimming and digit parsing.
//! Each executable function here is specified against a direct mathematical
//! definition over `Seq<char>`.

use vstd::prelude::*;

verus! {

/// The decimal digit character for a value below ten.
pub open spec fn digit_char(d: nat) -> char {
    if d == 0 {
        '0'
    } else if d == 1 {
        '1'
    } else if d == 2 {
        '2'
    } else if d == 3 {
        '3'
    } else if d == 4 {
        '4'
    } else if d == 5 {
        '5'
    } else if d == 6 {
        '6'
    } else if d == 7 {
        '7'
    } else if d == 8 {
        '8'
    } else {
        '9'
    }
}

/// The decimal rendering of `n`, most significant digit first, with no
/// leading zeros (`0` renders as `"0"`).
pub open spec fn dec_digits(n: nat) -> Seq<char>
    decreases n,
{
    if n < 10 {
        seq![digit_char(n)]
    } else {
        dec_digits(n / 10).push(digit_char(n % 10))
    }
}

/// Relies on `String::push`: appends the given character to the end of the
/// string.
#[verifier::external_body]
pub fn push_char(s: &mut String, c: char)
    ensures
        final(s)@ == old(s)@.push(c),
{
    s.push(c);
}

fn digit_char_exec(d: u32) -> (c: char)
    requires
        d < 10,
    ensures
        c == digit_char(d as nat),
{
    match d {
        0 => '0',
        1 => '1',
        2 => '2',
        3 => '3',
        4 => '4',
        5 => '5',
        6 => '6',
        7 => '7',
        8 => '8',
        _ => '9',
    }
}

/// Renders `n` in decimal.
pub fn u32_to_dec(n: u32) -> (s: String)
    ensures
        s@ == dec_digits(n as nat),
    decreases n,
{
    if n < 10 {
        let mut s = String::new();
        push_char(&mut s, digit_char_exec(n));
        assert(s@ =~= dec_digits(n as nat));
        s
    } else {
        let mut s = u32_to_dec(n / 10);
        push_char(&mut s, digit_char_exec(n % 10));
        s
    }
}

/// `needle` occurs in `hay` starting at position `i`.
pub open spec fn matches_at(hay: Seq<char>, needle: Seq<char>, i: int) -> bool {
    &&& 0 <= i
    &&& i + needle.len() <= hay.len()
    &&& hay.subrange(i, i + needle.len() as int) == needle
}

/// `needle` occurs somewhere in `hay`.
pub open spec fn contains_seq(hay: Seq<char>, needle: Seq<char>) -> bool {
    exists|i: int| matches_at(hay, needle, i)
}

fn matches_at_exec(hay: &str, needle: &str, i: usize) -> (r: bool)
    requires
        i + needle@.len() <= hay@.len(),
    ensures
        r == matches_at(hay@, needle@, i as int),
{
    let h = hay.unicode_len();
    let n = needle.unicode_len();
    let mut j: usize = 0;
    while j < n
        invariant
            j <= n,
            h == hay@.len(),
            n == needle@.len(),
            i + n <= h,
            forall|k: int| 0 <= k < j ==> hay@[i + k] == needle@[k],
        decreases n - j,
    {
        if hay.get_char(i + j) != needle.get_char(j) {
            assert(hay@.subrange(i as int, i + n) != needle@) by {
                assert(hay@.subrange(i as int, i + n)[j as int] != needle@[j as int]);
            }
            return false;
        }
        j += 1;
    }
    assert(hay@.subrange(i as int, i + n) =~= needle@);
    true
}

/// Substring search: does `needle` occur anywhere in `hay`?
pub fn str_contains(hay: &str, needle: &str) -> (r: bool)
    ensures
        r == contains_seq(hay@, needle@),
{
    let h = hay.unicode_len();
    let n = needle.unicode_len();
    if n > h {
        assert(!contains_seq(hay@, needle@)) by {
            assert(forall|i: int| !matches_at(hay@, needle@, i));
        }
        return false;
    }
    if n == 0 {
        assert(matches_at(hay@, needle@, 0)) by {
            assert(hay@.subrange(0, 0) =~= needle@);
        }
        return true;
    }
    let mut i: usize = 0;
    while i <= h - n
        invariant
            1 <= n <= h,
            h == hay@.len(),
            n == needle@.len(),
            i <= h - n + 1,
            forall|k: int| 0 <= k < i ==> !matches_at(hay@, needle@, k),
        decreases h - n + 1 - i,
    {
        if matches_at_exec(hay, needle, i) {
            assert(contains_seq(hay@, needle@));
            return true;
        }
        i += 1;
    }
    assert(!contains_seq(hay@, needle@)) by {
        assert(forall|k: int| matches_at(hay@, needle@, k) ==> 0 <= k <= h - n);
    }
    false
}

/// `p` is a prefix of `s`.
pub open spec fn is_prefix(s: Seq<char>, p: Seq<char>) -> bool {
    p.len() <= s.len() && s.subrange(0, p.len() as int) == p
}

/// Prefix test.
pub fn str_starts_with(s: &str, p: &str) -> (r: bool)
    ensures
        r == is_prefix(s@, p@),
{
    let n = p.unicode_len();
    if n > s.unicode_len() {
        return false;
    }
    matches_at_exec(s, p, 0)
}

/// The pieces of `s` between occurrences of the separator `sep`.
///
/// Mirrors the usual splitting convention: there is always at least one
/// piece, the empty string splits into one empty piece, and a separator at
/// either end contributes an empty piece on that side.
pub open spec fn split_on(s: Seq<char>, sep: char) -> Seq<Seq<char>>
    decreases s.len(),
{
    if s.len() == 0 {
        seq![Seq::<char>::empty()]
    } else if s[0] == sep {
        seq![Seq::<char>::empty()] + split_on(s.skip(1), sep)
    } else {
        let rest = split_on(s.skip(1), sep);
        seq![seq![s[0]] + rest[0]] + rest.skip(1)
    }
}

pub proof fn lemma_split_on_len(s: Seq<char>, sep: char)
    ensures
        split_on(s, sep).len() >= 1,
    decreases s.len(),
{
    if s.len() > 0 {
        lemma_split_on_len(s.skip(1), sep);
    }
}

/// Splits `s` at every occurrence of `sep`.
pub fn split_string(s: &str, sep: char) -> (r: Vec<String>)
    ensures
        r@.map_values(|p: String| p@) == split_on(s@, sep),
        r@.len() >= 1,
{
    let len = s.unicode_len();
    let mut done: Vec<String> = Vec::new();
    let mut cur = String::new();
    let mut i: usize = 0;
    proof {
        lemma_split_on_len(s@, sep);
        let rest0 = split_on(s@, sep);
        assert(s@.skip(0) =~= s@);
        assert(cur@ + rest0[0] =~= rest0[0]);
        assert(seq![rest0[0]] + rest0.skip(1) =~= rest0);
        assert(done@.map_values(|p: String| p@) + rest0 =~= rest0);
    }
    while i < len
        invariant
            i <= len,
            len == s@.len(),
            split_on(s@, sep) == done@.map_values(|p: String| p@) + ({
                let rest = split_on(s@.skip(i as int), sep);
                seq![cur@ + rest[0]] + rest.skip(1)
            }),
        decreases len - i,
    {
        let c = s.get_char(i);
        proof {
            assert(s@.skip(i as int).skip(1) =~= s@.skip(i + 1));
            assert(s@.skip(i as int)[0] == s@[i as int]);
            lemma_split_on_len(s@.skip(i + 1), sep);
        }
        let ghost rest_next = split_on(s@.skip(i + 1), sep);
        if c == sep {
            let ghost old_done = done@;
            let ghost old_cur = cur@;
            done.push(cur);
            cur = String::new();
            proof {
                assert(done@.map_values(|p: String| p@) =~= old_done.map_values(|p: String| p@)
                    + seq![old_cur]);
                assert(old_cur + seq![Seq::<char>::empty(), rest_next[0]][0] =~= old_cur);
                assert((seq![Seq::<char>::empty()] + rest_next).skip(1) =~= rest_next);
                assert(cur@ + rest_next[0] =~= rest_next[0]);
                assert(seq![rest_next[0]] + rest_next.skip(1) =~= rest_next);
                assert(old_done.map_values(|p: String| p@) + (seq![old_cur] + rest_next)
                    =~= done@.map_values(|p: String| p@) + (seq![cur@ + rest_next[0]]
                    + rest_next.skip(1)));
                assert(seq![old_cur + (seq![Seq::<char>::empty()] + rest_next)[0]]
                    + (seq![Seq::<char>::empty()] + rest_next).skip(1) =~= seq![old_cur]
                    + rest_next);
            }
        } else {
            let ghost old_cur = cur@;
            push_char(&mut cur, c);
            proof {
                let combined = seq![s@[i as int]] + rest_next[0];
                assert((seq![combined] + rest_next.skip(1))[0] == combined);
                assert(old_cur + combined =~= cur@ + rest_next[0]);
                assert((seq![combined] + rest_next.skip(1)).skip(1) =~= rest_next.skip(1));
                assert(seq![old_cur + (seq![combined] + rest_next.skip(1))[0]]
                    + (seq![combined] + rest_next.skip(1)).skip(1) =~= seq![cur@ + rest_next[0]]
                    + rest_next.skip(1));
            }
        }
        i += 1;
    }
    proof {
        assert(s@.skip(len as int) =~= Seq::<char>::empty());
        assert(split_on(s@.skip(len as int), sep) =~= seq![Seq::<char>::empty()]);
    }
    let ghost old_done = done@;
    let ghost old_cur = cur@;
    done.push(cur);
    proof {
        assert(old_cur + Seq::<char>::empty() =~= old_cur);
        assert(seq![old_cur + seq![Seq::<char>::empty()][0]]
            + seq![Seq::<char>::empty()].skip(1) =~= seq![old_cur]);
        assert(done@.map_values(|p: String| p@) =~= old_done.map_values(|p: String| p@)
            + seq![old_cur]);
    }
    done
}

/// ASCII whitespace, as it occurs in the tool output this crate scans.
pub open spec fn is_space(c: char) -> bool {
    c == ' ' || c == '\t' || c == '\r' || c == '\n'
}

/// `s` with leading whitespace removed.
pub open spec fn trim_left(s: Seq<char>) -> Seq<char>
    decreases s.len(),
{
    if s.len() > 0 && is_space(s[0]) {
        trim_left(s.skip(1))
    } else {
        s
    }
}

/// `s` with trailing whitespace removed.
pub open spec fn trim_right(s: Seq<char>) -> Seq<char>
    decreases s.len(),
{
    if s.len() > 0 && is_space(s.last()) {
        trim_right(s.drop_last())
    } else {
        s
    }
}

/// `s` with both leading and trailing whitespace removed.
pub open spec fn trimmed(s: Seq<char>) -> Seq<char> {
    trim_right(trim_left(s))
}

fn is_space_at(s: &str, i: usize) -> (r: bool)
    requires
        i < s@.len(),
    ensures
        r == is_space(s@[i as int]),
{
    let c = s.get_char(i);
    c == ' ' || c == '\t' || c == '\r' || c == '\n'
}

/// Removes leading and trailing whitespace.
pub fn str_trim(s: &str) -> (r: String)
    ensures
        r@ == trimmed(s@),
{
    let len = s.unicode_len();
    let mut a: usize = 0;
    proof {
        assert(s@.skip(0) =~= s@);
    }
    while a < len && is_space_at(s, a)
        invariant
            a <= len,
            len == s@.len(),
            trim_left(s@) == trim_left(s@.skip(a as int)),
        decreases len - a,
    {
        proof {
            assert(s@.skip(a as int)[0] == s@[a as int]);
            assert(s@.skip(a as int).skip(1) =~= s@.skip(a + 1));
        }
        a += 1;
    }
    proof {
        if a == len {
            assert(s@.skip(a as int) =~= Seq::<char>::empty());
        }
        assert(trim_left(s@) == s@.skip(a as int));
    }
    let mut b: usize = len;
    while b > a && is_space_at(s, b - 1)
        invariant
            a <= b <= len,
            len == s@.len(),
            trim_left(s@) == s@.skip(a as int),
            trim_right(s@.skip(a as int)) == trim_right(s@.subrange(a as int, b as int)),
        decreases b,
    {
        proof {
            let piece = s@.subrange(a as int, b as int);
            assert(piece.last() == s@[b - 1]);
            assert(piece.drop_last() =~= s@.subrange(a as int, b - 1));
        }
        b -= 1;
    }
    proof {
        let piece = s@.subrange(a as int, b as int);
        if b == a {
            assert(piece =~= Seq::<char>::empty());
        }
        assert(trim_right(piece) == piece);
        assert(s@.skip(a as int) =~= s@.subrange(a as int, len as int));
    }
    let r = s.substring_char(a, b);
    String::from_str(r)
}

/// A decimal digit character.
pub open spec fn is_digit(c: char) -> bool {
    c == '0' || c == '1' || c == '2' || c == '3' || c == '4' || c == '5' || c == '6' || c == '7'
        || c == '8' || c == '9'
}

/// The numeric value of a decimal digit character (zero on other input).
pub open spec fn digit_val(c: char) -> nat {
    if c == '1' {
        1
    } else if c == '2' {
        2
    } else if c == '3' {
        3
    } else if c == '4' {
        4
    } else if c == '5' {
        5
    } else if c == '6' {
        6
    } else if c == '7' {
        7
    } else if c == '8' {
        8
    } else if c == '9' {
        9
    } else {
        0
    }
}

/// Every character of `s` is a decimal digit.
pub open spec fn all_digits(s: Seq<char>) -> bool {
    forall|i: int| 0 <= i < s.len() ==> is_digit(#[trigger] s[i])
}

/// The numeric value of a decimal digit string.
pub open spec fn dec_val(s: Seq<char>) -> nat
    decreases s.len(),
{
    if s.len() == 0 {
        0
    } else {
        dec_val(s.drop_last()) * 10 + digit_val(s.last())
    }
}

proof fn lemma_dec_val_prefix_le(s: Seq<char>, i: int)
    requires
        0 <= i <= s.len(),
    ensures
        dec_val(s.take(i)) <= dec_val(s),
    decreases s.len() - i,
{
    if i < s.len() {
        assert(s.take(i + 1).drop_last() =~= s.take(i));
        assert(dec_val(s.take(i)) <= dec_val(s.take(i + 1)));
        lemma_dec_val_prefix_le(s, i + 1);
    } else {
        assert(s.take(i) =~= s);
    }
}

fn digit_val_exec(c: char) -> (d: u32)
    requires
        is_digit(c),
    ensures
        d == digit_val(c),
        d < 10,
{
    match c {
        '0' => 0,
        '1' => 1,
        '2' => 2,
        '3' => 3,
        '4' => 4,
        '5' => 5,
        '6' => 6,
        '7' => 7,
        '8' => 8,
        _ => 9,
    }
}

/// Parses a non-empty string of decimal digits whose value fits in `u32`;
/// returns `None` on any other input.
pub fn parse_u32(s: &str) -> (r: Option<u32>)
    ensures
        match r {
            Some(v) => all_digits(s@) && s@.len() >= 1 && dec_val(s@) == v,
            None => !(all_digits(s@) && s@.len() >= 1 && dec_val(s@) <= u32::MAX),
        },
{
    let len = s.unicode_len();
    if len == 0 {
        return None;
    }
    let mut acc: u32 = 0;
    let mut i: usize = 0;
    while i < len
        invariant
            i <= len,
            len == s@.len(),
            all_digits(s@.take(i as int)),
            acc == dec_val(s@.take(i as int)),
        decreases len - i,
    {
        let c = s.get_char(i);
        let digit = if c == '0' {
            0u32
        } else if c == '1' {
            1
        } else if c == '2' {
            2
        } else if c == '3' {
            3
        } else if c == '4' {
            4
        } else if c == '5' {
            5
        } else if c == '6' {
            6
        } else if c == '7' {
            7
        } else if c == '8' {
            8
        } else if c == '9' {
            9
        } else {
            return None;
        };
        proof {
            assert(s@.take(i + 1).drop_last() =~= s@.take(i as int));
            assert(s@.take(i + 1).last() == s@[i as int]);
        }
        if acc > (u32::MAX - digit) / 10 {
            proof {
                lemma_dec_val_prefix_le(s@, i + 1);
            }
            return None;
        }
        acc = acc * 10 + digit;
        i += 1;
    }
    proof {
        assert(s@.take(len as int) =~= s@);
    }
    Some(acc)
}

/// The views of a vector of strings.
pub open spec fn views_of(v: Seq<String>) -> Seq<Seq<char>> {
    v.map_values(|s: String| s@)
}

/// Copies a vector of strings.
pub fn clone_string_vec(v: &Vec<String>) -> (r: Vec<String>)
    ensures
        views_of(r@) == views_of(v@),
        r@.len() == v@.len(),
{
    let n = v.len();
    let mut r: Vec<String> = Vec::new();
    let mut i: usize = 0;
    while i < n
        invariant
            i <= n,
            n == v@.len(),
            r@.len() == i,
            forall|k: int| 0 <= k < i ==> r@[k]@ == v@[k]@,
        decreases n - i,
    {
        r.push(v[i].clone());
        i += 1;
    }
    proof {
        assert(views_of(r@) =~= views_of(v@));
    }
    r
}

/// `s` with every occurrence of `bad` removed.
pub open spec fn without_char(s: Seq<char>, bad: char) -> Seq<char>
    decreases s.len(),
{
    if s.len() == 0 {
        Seq::empty()
    } else {
        let rest = without_char(s.drop_last(), bad);
        if s.last() == bad {
            rest
        } else {
            rest.push(s.last())
        }
    }
}

/// Removes every occurrence of `bad` from `s`.
pub fn remove_char(s: &str, bad: char) -> (r: String)
    ensures
        r@ == without_char(s@, bad),
{
    let len = s.unicode_len();
    let mut out = String::new();
    let mut i: usize = 0;
    while i < len
        invariant
            i <= len,
            len == s@.len(),
            out@ == without_char(s@.take(i as int), bad),
        decreases len - i,
    {
        let c = s.get_char(i);
        proof {
            assert(s@.take(i + 1).drop_last() =~= s@.take(i as int));
            assert(s@.take(i + 1).last() == s@[i as int]);
        }
        if c != bad {
            push_char(&mut out, c);
        }
        i += 1;
    }
    proof {
        assert(s@.take(len as int) =~= s@);
    }
    out
}

} // verus!
