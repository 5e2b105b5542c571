use vstd::prelude::*;

verus! {

use vstd::std_specs::iter::IteratorSpec;

/// Copies the characters of `s` into a vector.
pub fn chars_of(s: &str) -> (r: Vec<char>)
    ensures
        r@ == s@,
{
    broadcast use vstd::string::axiom_spec_iter;
    broadcast use vstd::string::next_postcondition;

    let mut it = s.chars();
    let mut r: Vec<char> = Vec::new();
    loop
        invariant
            it.obeys_prophetic_iter_laws(),
            it.decrease() is Some,
            r@ + vstd::std_specs::iter::IteratorSpec::remaining(&it) == s@,
        decreases it.decrease()->0,
    {
        let ghost prev = it;
        match it.next() {
            Some(c) => {
                proof {
                    assert(r@.push(c) + vstd::std_specs::iter::IteratorSpec::remaining(&it) =~= r@
                        + vstd::std_specs::iter::IteratorSpec::remaining(&prev));
                }
                r.push(c);
            },
            None => {
                proof {
                    assert(r@ =~= s@);
                }
                return r;
            },
        }
    }
}

/// Appends the characters of `src` to `dst`.
pub fn append_chars(dst: &mut Vec<char>, src: &Vec<char>)
    ensures
        final(dst)@ == old(dst)@ + src@,
{
    let mut k: usize = 0;
    proof {
        assert(dst@ =~= dst@ + src@.subrange(0, 0));
    }
    while k < src.len()
        invariant
            k <= src@.len(),
            dst@ == old(dst)@ + src@.subrange(0, k as int),
        decreases src@.len() - k,
    {
        dst.push(src[k]);
        proof {
            assert(dst@ =~= old(dst)@ + src@.subrange(0, k + 1 as int));
        }
        k += 1;
    }
    proof {
        assert(src@.subrange(0, src@.len() as int) =~= src@);
    }
}

/// Appends the characters of the literal `s` to `dst`.
pub fn append_lit(dst: &mut Vec<char>, s: &str)
    ensures
        final(dst)@ == old(dst)@ + s@,
{
    let v = chars_of(s);
    append_chars(dst, &v);
}

// ---------------------------------------------------------------------------
// Substring search over character sequences.
// ---------------------------------------------------------------------------

/// `needle` occurs in `hay` starting at position `i`.
pub open spec fn match_at(hay: Seq<char>, needle: Seq<char>, i: int) -> bool {
    0 <= i && i + needle.len() <= hay.len() && hay.subrange(i, i + needle.len() as int) == needle
}

/// `needle` occurs somewhere in `hay`.
pub open spec fn contains_seq(hay: Seq<char>, needle: Seq<char>) -> bool {
    exists|i: int| match_at(hay, needle, i)
}

/// Position of the first occurrence of `needle` in `hay`, or -1 if there is none.
pub open spec fn spec_find(hay: Seq<char>, needle: Seq<char>) -> int
    decreases hay.len(),
{
    if match_at(hay, needle, 0) {
        0
    } else if hay.len() == 0 {
        -1
    } else if spec_find(hay.subrange(1, hay.len() as int), needle) < 0 {
        -1
    } else {
        1 + spec_find(hay.subrange(1, hay.len() as int), needle)
    }
}

/// Everything after the first occurrence of `needle` in `hay`.
pub open spec fn spec_after(hay: Seq<char>, needle: Seq<char>) -> Seq<char>
    recommends
        contains_seq(hay, needle),
{
    hay.subrange(spec_find(hay, needle) + needle.len(), hay.len() as int)
}

/// `spec_find` returns the least match position, and a negative result
/// means there is no match at all.
pub proof fn lemma_find_first(hay: Seq<char>, needle: Seq<char>)
    ensures
        spec_find(hay, needle) >= 0 <==> contains_seq(hay, needle),
        spec_find(hay, needle) >= 0 ==> match_at(hay, needle, spec_find(hay, needle)),
        forall|j: int| 0 <= j < spec_find(hay, needle) ==> !match_at(hay, needle, j),
    decreases hay.len(),
{
    if match_at(hay, needle, 0) {
        assert(contains_seq(hay, needle));
    } else if hay.len() == 0 {
        assert forall|j: int| !match_at(hay, needle, j) by {
            if match_at(hay, needle, j) {
                assert(j == 0 && needle.len() == 0);
                assert(match_at(hay, needle, 0));
            }
        }
    } else {
        let tail = hay.subrange(1, hay.len() as int);
        lemma_find_first(tail, needle);
        assert forall|j: int| 0 <= j && j + needle.len() <= hay.len() implies match_at(
            tail,
            needle,
            j - 1,
        ) == match_at(hay, needle, j) by {
            if j >= 1 {
                assert(tail.subrange(j - 1, j - 1 + needle.len() as int) =~= hay.subrange(
                    j,
                    j + needle.len() as int,
                ));
            }
        }
        if spec_find(tail, needle) < 0 {
            assert forall|j: int| !match_at(hay, needle, j) by {
                if match_at(hay, needle, j) {
                    if j == 0 {
                        assert(false);
                    } else {
                        assert(match_at(tail, needle, j - 1));
                    }
                }
            }
        } else {
            let f = spec_find(tail, needle);
            assert(match_at(tail, needle, f));
            assert(match_at(hay, needle, f + 1));
            assert(contains_seq(hay, needle));
            assert forall|j: int| 0 <= j < f + 1 implies !match_at(hay, needle, j) by {
                if j >= 1 && match_at(hay, needle, j) {
                    assert(match_at(tail, needle, j - 1));
                }
            }
        }
    }
}

/// Does `hay` start with `needle` at position `i`?
fn starts_with_at(hay: &Vec<char>, needle: &Vec<char>, i: usize) -> (r: bool)
    requires
        i + needle@.len() <= hay@.len(),
    ensures
        r == match_at(hay@, needle@, i as int),
{
    let hlen = hay.len();
    let mut k: usize = 0;
    while k < needle.len()
        invariant
            hlen == hay@.len(),
            i + needle@.len() <= hay@.len(),
            k <= needle@.len(),
            forall|m: int| 0 <= m < k ==> hay@[i + m] == needle@[m],
        decreases needle@.len() - k,
    {
        if hay[i + k] != needle[k] {
            proof {
                assert(hay@.subrange(i as int, i + needle@.len() as int)[k as int] == hay@[i + k]);
            }
            return false;
        }
        k += 1;
    }
    proof {
        assert(hay@.subrange(i as int, i + needle@.len() as int) =~= needle@);
    }
    true
}

/// Position of the first occurrence of `needle` in `hay`, if any.
pub fn find_first(hay: &Vec<char>, needle: &Vec<char>) -> (r: Option<usize>)
    ensures
        r matches Some(i) ==> i == spec_find(hay@, needle@) && match_at(hay@, needle@, i as int),
        r is None ==> !contains_seq(hay@, needle@) && spec_find(hay@, needle@) < 0,
{
    proof {
        lemma_find_first(hay@, needle@);
    }
    if needle.len() > hay.len() {
        proof {
            assert forall|j: int| !match_at(hay@, needle@, j) by {}
        }
        return None;
    }
    let bound = hay.len() - needle.len();
    let mut i: usize = 0;
    loop
        invariant
            needle@.len() <= hay@.len(),
            bound == hay@.len() - needle@.len(),
            i <= bound,
            forall|j: int| 0 <= j < i ==> !match_at(hay@, needle@, j),
        decreases bound - i,
    {
        if starts_with_at(hay, needle, i) {
            proof {
                lemma_find_first(hay@, needle@);
                let f = spec_find(hay@, needle@);
                assert(contains_seq(hay@, needle@));
                assert(f >= i as int || !match_at(hay@, needle@, f));
                assert(f <= i as int);
            }
            return Some(i);
        }
        if i == bound {
            proof {
                lemma_find_first(hay@, needle@);
                assert forall|j: int| !match_at(hay@, needle@, j) by {
                    if match_at(hay@, needle@, j) {
                        assert(0 <= j <= bound as int);
                    }
                }
            }
            return None;
        }
        i += 1;
    }
}

/// Whether `needle` occurs somewhere in `hay`.
pub fn contains_chars(hay: &Vec<char>, needle: &Vec<char>) -> (r: bool)
    ensures
        r == contains_seq(hay@, needle@),
{
    match find_first(hay, needle) {
        Some(_) => true,
        None => false,
    }
}

/// Copies `hay[from..to]` into a fresh vector.
pub fn copy_range(hay: &Vec<char>, from: usize, to: usize) -> (r: Vec<char>)
    requires
        from <= to <= hay@.len(),
    ensures
        r@ == hay@.subrange(from as int, to as int),
{
    let mut r: Vec<char> = Vec::new();
    let mut k: usize = from;
    while k < to
        invariant
            from <= k <= to <= hay@.len(),
            r@ == hay@.subrange(from as int, k as int),
        decreases to - k,
    {
        r.push(hay[k]);
        proof {
            assert(r@ =~= hay@.subrange(from as int, k + 1 as int));
        }
        k += 1;
    }
    r
}

/// Everything after the first occurrence of `needle` in `hay`, if `needle` occurs.
pub fn suffix_after(hay: &Vec<char>, needle: &Vec<char>) -> (r: Option<Vec<char>>)
    ensures
        r matches Some(v) ==> contains_seq(hay@, needle@) && v@ == spec_after(hay@, needle@),
        r is None ==> !contains_seq(hay@, needle@),
{
    let hlen = hay.len();
    match find_first(hay, needle) {
        Some(i) => {
            let start = i + needle.len();
            Some(copy_range(hay, start, hlen))
        },
        None => None,
    }
}

// ---------------------------------------------------------------------------
// Trimming.
// ---------------------------------------------------------------------------

/// Whitespace characters stripped from package identifiers.
pub open spec fn is_space(c: char) -> bool {
    c == ' ' || c == '\t' || c == '\n' || c == '\r'
}

/// `s` without leading whitespace.
pub open spec fn spec_trim_start(s: Seq<char>) -> Seq<char>
    decreases s.len(),
{
    if s.len() > 0 && is_space(s[0]) {
        spec_trim_start(s.subrange(1, s.len() as int))
    } else {
        s
    }
}

/// `s` without trailing whitespace.
pub open spec fn spec_trim_end(s: Seq<char>) -> Seq<char>
    decreases s.len(),
{
    if s.len() > 0 && is_space(s[s.len() - 1]) {
        spec_trim_end(s.subrange(0, s.len() - 1))
    } else {
        s
    }
}

/// `s` without surrounding whitespace.
pub open spec fn spec_trim(s: Seq<char>) -> Seq<char> {
    spec_trim_end(spec_trim_start(s))
}

/// `s` without any trailing `...` groups.
pub open spec fn spec_trim_ellipsis(s: Seq<char>) -> Seq<char>
    decreases s.len(),
{
    if s.len() >= 3 && s[s.len() - 3] == '.' && s[s.len() - 2] == '.' && s[s.len() - 1] == '.' {
        spec_trim_ellipsis(s.subrange(0, s.len() - 3))
    } else {
        s
    }
}

/// `s` without any trailing closing parentheses.
pub open spec fn spec_trim_paren(s: Seq<char>) -> Seq<char>
    decreases s.len(),
{
    if s.len() >= 1 && s[s.len() - 1] == ')' {
        spec_trim_paren(s.subrange(0, s.len() - 1))
    } else {
        s
    }
}

fn is_space_char(c: char) -> (r: bool)
    ensures
        r == is_space(c),
{
    c == ' ' || c == '\t' || c == '\n' || c == '\r'
}

/// Removes surrounding whitespace.
pub fn trim(s: &Vec<char>) -> (r: Vec<char>)
    ensures
        r@ == spec_trim(s@),
{
    proof {
        assert(s@.subrange(0, s@.len() as int) =~= s@);
    }
    let mut lo: usize = 0;
    while lo < s.len() && is_space_char(s[lo])
        invariant
            lo <= s@.len(),
            spec_trim_start(s@.subrange(lo as int, s@.len() as int)) == spec_trim_start(s@),
        decreases s@.len() - lo,
    {
        proof {
            assert(s@.subrange(lo as int, s@.len() as int).subrange(
                1,
                s@.subrange(lo as int, s@.len() as int).len() as int,
            ) =~= s@.subrange(lo + 1 as int, s@.len() as int));
        }
        lo += 1;
    }
    proof {
        assert(spec_trim_start(s@) == s@.subrange(lo as int, s@.len() as int));
    }
    let mut hi: usize = s.len();
    while hi > lo && is_space_char(s[hi - 1])
        invariant
            lo <= hi <= s@.len(),
            spec_trim_end(s@.subrange(lo as int, hi as int)) == spec_trim_end(
                s@.subrange(lo as int, s@.len() as int),
            ),
        decreases hi,
    {
        proof {
            assert(s@.subrange(lo as int, hi as int).subrange(
                0,
                s@.subrange(lo as int, hi as int).len() - 1,
            ) =~= s@.subrange(lo as int, hi - 1 as int));
        }
        hi -= 1;
    }
    proof {
        assert(spec_trim_end(s@.subrange(lo as int, hi as int)) == s@.subrange(
            lo as int,
            hi as int,
        ));
    }
    copy_range(s, lo, hi)
}

/// Removes all trailing `...` groups.
pub fn trim_ellipsis(s: &Vec<char>) -> (r: Vec<char>)
    ensures
        r@ == spec_trim_ellipsis(s@),
{
    let mut hi: usize = s.len();
    proof {
        assert(s@.subrange(0, hi as int) =~= s@);
    }
    while hi >= 3 && s[hi - 3] == '.' && s[hi - 2] == '.' && s[hi - 1] == '.'
        invariant
            hi <= s@.len(),
            spec_trim_ellipsis(s@.subrange(0, hi as int)) == spec_trim_ellipsis(s@),
        decreases hi,
    {
        proof {
            assert(s@.subrange(0, hi as int).subrange(0, hi - 3 as int) =~= s@.subrange(
                0,
                hi - 3 as int,
            ));
        }
        hi -= 3;
    }
    proof {
        assert(spec_trim_ellipsis(s@.subrange(0, hi as int)) == s@.subrange(0, hi as int));
    }
    copy_range(s, 0, hi)
}

/// Removes all trailing closing parentheses.
pub fn trim_paren(s: &Vec<char>) -> (r: Vec<char>)
    ensures
        r@ == spec_trim_paren(s@),
{
    let mut hi: usize = s.len();
    proof {
        assert(s@.subrange(0, hi as int) =~= s@);
    }
    while hi >= 1 && s[hi - 1] == ')'
        invariant
            hi <= s@.len(),
            spec_trim_paren(s@.subrange(0, hi as int)) == spec_trim_paren(s@),
        decreases hi,
    {
        proof {
            assert(s@.subrange(0, hi as int).subrange(0, hi - 1 as int) =~= s@.subrange(
                0,
                hi - 1 as int,
            ));
        }
        hi -= 1;
    }
    proof {
        assert(spec_trim_paren(s@.subrange(0, hi as int)) == s@.subrange(0, hi as int));
    }
    copy_range(s, 0, hi)
}

/// A package identifier, normalized: surrounding whitespace removed, then any
/// trailing ellipsis, then any trailing closing parenthesis, then whitespace again.
pub open spec fn spec_normalize(s: Seq<char>) -> Seq<char> {
    spec_trim(spec_trim_paren(spec_trim_ellipsis(spec_trim(s))))
}

/// Normalizes the text that follows a phase marker into a package identifier.
pub fn normalize_package(s: &Vec<char>) -> (r: Vec<char>)
    ensures
        r@ == spec_normalize(s@),
{
    let a = trim(s);
    let b = trim_ellipsis(&a);
    let c = trim_paren(&b);
    trim(&c)
}

/// Character-for-character equality of two vectors.
pub fn chars_eq(a: &Vec<char>, b: &Vec<char>) -> (r: bool)
    ensures
        r == (a@ == b@),
{
    if a.len() != b.len() {
        return false;
    }
    let mut k: usize = 0;
    while k < a.len()
        invariant
            a@.len() == b@.len(),
            k <= a@.len(),
            forall|m: int| 0 <= m < k ==> a@[m] == b@[m],
        decreases a@.len() - k,
    {
        if a[k] != b[k] {
            return false;
        }
        k += 1;
    }
    proof {
        assert(a@ =~= b@);
    }
    true
}

// ---------------------------------------------------------------------------
// Decimal rendering.
// ---------------------------------------------------------------------------

/// The decimal digit character for `d`.
pub open spec fn spec_digit(d: int) -> char {
    if d == 0 {
        '0'
    } else if d == 1 {
        '1'
    } else if d == 2 {
        '2'
    } else if d == 3 {
        '3'
    } else if d == 4 {
        '4'
    } else if d == 5 {
        '5'
    } else if d == 6 {
        '6'
    } else if d == 7 {
        '7'
    } else if d == 8 {
        '8'
    } else {
        '9'
    }
}

/// The decimal rendering of `n`, most significant digit first.
pub open spec fn spec_dec(n: int) -> Seq<char>
    decreases n,
{
    if n < 10 {
        seq![spec_digit(n)]
    } else {
        spec_dec(n / 10).push(spec_digit(n % 10))
    }
}

fn digit_char(d: u64) -> (c: char)
    requires
        d < 10,
    ensures
        c == spec_digit(d as int),
{
    if d == 0 {
        '0'
    } else if d == 1 {
        '1'
    } else if d == 2 {
        '2'
    } else if d == 3 {
        '3'
    } else if d == 4 {
        '4'
    } else if d == 5 {
        '5'
    } else if d == 6 {
        '6'
    } else if d == 7 {
        '7'
    } else if d == 8 {
        '8'
    } else {
        '9'
    }
}

/// Renders `n` in decimal.
pub fn dec_u64(n: u64) -> (r: Vec<char>)
    ensures
        r@ == spec_dec(n as int),
    decreases n,
{
    if n < 10 {
        let mut v: Vec<char> = Vec::new();
        v.push(digit_char(n));
        proof {
            assert(v@ =~= seq![spec_digit(n as int)]);
        }
        v
    } else {
        let mut v = dec_u64(n / 10);
        v.push(digit_char(n % 10));
        v
    }
}

} // verus!
