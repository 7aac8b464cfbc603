//! Verified character-level string helpers: equality, prefix and substring
//! tests, and line splitting over `&str` values.

use vstd::prelude::*;

verus! {

/// Character-for-character string equality.
pub fn str_eq(a: &str, b: &str) -> (r: bool)
    ensures
        r == (a@ == b@),
{
    let an = a.unicode_len();
    let bn = b.unicode_len();
    if an != bn {
        return false;
    }
    for i in 0..an
        invariant
            an == a@.len(),
            an == b@.len(),
            forall|j: int| 0 <= j < i ==> a@[j] == b@[j],
    {
        if a.get_char(i) != b.get_char(i) {
            return false;
        }
    }
    proof {
        assert(a@ =~= b@);
    }
    true
}

/// Whether `p` occurs as a contiguous run of characters inside `s`.
pub open spec fn spec_contains(s: Seq<char>, p: Seq<char>) -> bool {
    exists|i: int| 0 <= i && i + p.len() <= s.len() && #[trigger] s.subrange(i, i + p.len()) == p
}

/// Substring search by direct comparison at every position.
pub fn str_contains(s: &str, p: &str) -> (r: bool)
    ensures
        r == spec_contains(s@, p@),
{
    let n = s.unicode_len();
    let m = p.unicode_len();
    if m > n {
        proof {
            assert(!spec_contains(s@, p@));
        }
        return false;
    }
    if m == 0 {
        proof {
            assert(s@.subrange(0, 0 + p@.len() as int) =~= p@);
            assert(spec_contains(s@, p@));
        }
        return true;
    }
    let mut i: usize = 0;
    while i <= n - m
        invariant
            n == s@.len(),
            m == p@.len(),
            m <= n,
            i <= n - m + 1,
            forall|k: int| 0 <= k < i ==> #[trigger] s@.subrange(k, k + p@.len()) != p@,
        decreases n - i,
    {
        let mut j: usize = 0;
        let mut hit = true;
        while j < m
            invariant
                n == s@.len(),
                m == p@.len(),
                i + m <= n,
                j <= m,
                hit ==> forall|k: int| 0 <= k < j ==> s@[i + k] == p@[k],
                !hit ==> exists|k: int| 0 <= k < m && s@[i + k] != p@[k],
            decreases m - j,
        {
            if s.get_char(i + j) != p.get_char(j) {
                hit = false;
                j = m;
            } else {
                j = j + 1;
            }
        }
        if hit {
            proof {
                assert(s@.subrange(i as int, i as int + p@.len()) =~= p@);
            }
            return true;
        }
        proof {
            let k = choose|k: int| 0 <= k < m && s@[i + k] != p@[k];
            assert(s@.subrange(i as int, i as int + p@.len())[k] == s@[i + k]);
            assert(s@.subrange(i as int, i as int + p@.len()) != p@);
        }
        i = i + 1;
    }
    proof {
        assert forall|k: int| 0 <= k && k + p@.len() <= s@.len() implies #[trigger] s@.subrange(
            k,
            k + p@.len(),
        ) != p@ by {
            assert(k < i);
        }
    }
    false
}

/// The characters a trim removes: ASCII whitespace.
pub open spec fn is_space_char(c: char) -> bool {
    c == ' ' || c == '\t' || c == '\n' || c == '\r'
}

/// `s` without leading whitespace.
pub open spec fn spec_trim_start(s: Seq<char>) -> Seq<char>
    decreases s.len(),
{
    if s.len() == 0 || !is_space_char(s.first()) {
        s
    } else {
        spec_trim_start(s.drop_first())
    }
}

/// `s` without trailing whitespace.
pub open spec fn spec_trim_end(s: Seq<char>) -> Seq<char>
    decreases s.len(),
{
    if s.len() == 0 || !is_space_char(s.last()) {
        s
    } else {
        spec_trim_end(s.drop_last())
    }
}

/// `s` without leading and trailing whitespace.
pub open spec fn spec_trim(s: Seq<char>) -> Seq<char> {
    spec_trim_end(spec_trim_start(s))
}

/// A prefix of spaces means trimming the front is skipping that prefix.
proof fn lemma_trim_start_skip(s: Seq<char>, a: int)
    requires
        0 <= a <= s.len(),
        forall|k: int| 0 <= k < a ==> is_space_char(s[k]),
        a < s.len() ==> !is_space_char(s[a]),
    ensures
        spec_trim_start(s) == s.skip(a),
    decreases a,
{
    if a == 0 {
        assert(s.skip(0) =~= s);
    } else {
        let sdf = s.drop_first();
        assert(is_space_char(s.first()));
        assert forall|k: int| 0 <= k < a - 1 implies is_space_char(sdf[k]) by {
            assert(sdf[k] == s[k + 1]);
        }
        assert(a - 1 < sdf.len() ==> !is_space_char(sdf[a - 1]));
        lemma_trim_start_skip(sdf, a - 1);
        assert(sdf.skip(a - 1) =~= s.skip(a));
    }
}

/// A suffix of spaces means trimming the back is taking what precedes it.
proof fn lemma_trim_end_take(s: Seq<char>, b: int)
    requires
        0 <= b <= s.len(),
        forall|k: int| b <= k < s.len() ==> is_space_char(s[k]),
        b > 0 ==> !is_space_char(s[b - 1]),
    ensures
        spec_trim_end(s) == s.take(b),
    decreases s.len() - b,
{
    if b == s.len() {
        assert(s.take(b) =~= s);
    } else {
        let sdl = s.drop_last();
        assert(is_space_char(s.last()));
        assert forall|k: int| b <= k < sdl.len() implies is_space_char(sdl[k]) by {
            assert(sdl[k] == s[k]);
        }
        lemma_trim_end_take(sdl, b);
        assert(sdl.take(b) =~= s.take(b));
    }
}

/// Removes leading and trailing ASCII whitespace.
pub fn trim_str(s: &str) -> (r: String)
    ensures
        r@ == spec_trim(s@),
{
    let n = s.unicode_len();
    let mut a: usize = 0;
    while a < n && is_space(s.get_char(a))
        invariant
            n == s@.len(),
            a <= n,
            forall|k: int| 0 <= k < a ==> is_space_char(s@[k]),
        decreases n - a,
    {
        a = a + 1;
    }
    proof {
        lemma_trim_start_skip(s@, a as int);
    }
    let mut b: usize = n;
    while b > a && is_space(s.get_char(b - 1))
        invariant
            n == s@.len(),
            a <= b <= n,
            forall|k: int| b <= k < n ==> is_space_char(s@[k]),
            forall|k: int| 0 <= k < a ==> is_space_char(s@[k]),
            a < n ==> !is_space_char(s@[a as int]),
        decreases b,
    {
        b = b - 1;
    }
    let ghost st = s@.skip(a as int);
    proof {
        assert forall|k: int| b - a <= k < st.len() implies is_space_char(st[k]) by {
            assert(st[k] == s@[k + a]);
        }
        if b > a {
            assert(!is_space_char(s@[b - 1]));
            assert(st[b - a - 1] == s@[b - 1]);
        }
        lemma_trim_end_take(st, b - a);
    }
    let r = s.substring_char(a, b);
    proof {
        assert(r@ =~= st.take(b - a));
    }
    String::from_str(r)
}

/// The executable test for [`is_space_char`].
fn is_space(c: char) -> (r: bool)
    ensures
        r == is_space_char(c),
{
    c == ' ' || c == '\t' || c == '\n' || c == '\r'
}

/// The first line of `s`: everything before the first newline, without a
/// trailing carriage return.
pub open spec fn spec_first_line(s: Seq<char>) -> Seq<char> {
    let cut = if spec_contains_char(s, '\n') {
        spec_index_of_char(s, '\n', 0)
    } else {
        s.len() as int
    };
    let line = s.take(cut);
    if line.len() > 0 && line.last() == '\r' {
        line.drop_last()
    } else {
        line
    }
}

/// Whether `c` occurs in `s`.
pub open spec fn spec_contains_char(s: Seq<char>, c: char) -> bool {
    exists|i: int| 0 <= i < s.len() && s[i] == c
}

/// The position of the first occurrence of `c` at or after `from`.
pub open spec fn spec_index_of_char(s: Seq<char>, c: char, from: int) -> int
    decreases s.len() - from,
{
    if from < 0 || from >= s.len() {
        s.len() as int
    } else if s[from] == c {
        from
    } else {
        spec_index_of_char(s, c, from + 1)
    }
}

/// A position with nothing matching before it and a match (or the end) at it
/// is the first occurrence.
pub proof fn lemma_index_of_char_is(s: Seq<char>, c: char, j: int)
    requires
        0 <= j <= s.len(),
        forall|k: int| 0 <= k < j ==> s[k] != c,
        j < s.len() ==> s[j] == c,
    ensures
        spec_index_of_char(s, c, 0) == j,
{
    lemma_index_of_char_is_from(s, c, 0, j);
}

proof fn lemma_index_of_char_is_from(s: Seq<char>, c: char, i: int, j: int)
    requires
        0 <= i <= j <= s.len(),
        forall|k: int| i <= k < j ==> s[k] != c,
        j < s.len() ==> s[j] == c,
    ensures
        spec_index_of_char(s, c, i) == j,
    decreases j - i,
{
    if i < j {
        lemma_index_of_char_is_from(s, c, i + 1, j);
    }
}

/// Extracts the first line of a command's output.
pub fn first_line(s: &str) -> (r: String)
    ensures
        r@ == spec_first_line(s@),
{
    let n = s.unicode_len();
    let mut cut: usize = 0;
    while cut < n && s.get_char(cut) != '\n'
        invariant
            n == s@.len(),
            cut <= n,
            forall|k: int| 0 <= k < cut ==> s@[k] != '\n',
        decreases n - cut,
    {
        cut = cut + 1;
    }
    proof {
        lemma_index_of_char_is(s@, '\n', cut as int);
        if cut < n {
            assert(spec_contains_char(s@, '\n'));
        } else {
            assert(!spec_contains_char(s@, '\n'));
        }
    }
    let end = if cut > 0 && s.get_char(cut - 1) == '\r' {
        cut - 1
    } else {
        cut
    };
    let r = s.substring_char(0, end);
    proof {
        if cut > 0 && s@[cut - 1] == '\r' {
            assert(s@.take(cut as int).drop_last() =~= s@.subrange(0, cut as int - 1));
        }
        assert(r@ =~= spec_first_line(s@));
    }
    String::from_str(r)
}

/// The directory part of a path: everything before the last separator.
pub open spec fn spec_parent_dir(s: Seq<char>) -> Option<Seq<char>> {
    if exists|i: int| 0 <= i < s.len() && (s[i] == '/' || s[i] == '\\') {
        let last = choose|i: int|
            0 <= i < s.len() && (s[i] == '/' || s[i] == '\\') && forall|j: int|
                i < j < s.len() ==> s[j] != '/' && s[j] != '\\';
        Some(s.take(last))
    } else {
        None
    }
}

/// Splits a path at its last separator, either kind; a path with no
/// separator has no parent.
pub fn parent_dir(s: &str) -> (r: Option<String>)
    ensures
        match r {
            Some(p) => spec_parent_dir(s@) == Some(p@),
            None => spec_parent_dir(s@) is None,
        },
{
    let n = s.unicode_len();
    let mut i: usize = n;
    while i > 0
        invariant
            n == s@.len(),
            i <= n,
            forall|k: int| i <= k < n ==> s@[k] != '/' && s@[k] != '\\',
        decreases i,
    {
        let c = s.get_char(i - 1);
        if c == '/' || c == '\\' {
            let p = s.substring_char(0, i - 1);
            proof {
                let last = (i - 1) as int;
                assert(s@[last] == '/' || s@[last] == '\\');
                assert(forall|j: int| last < j < s@.len() ==> s@[j] != '/' && s@[j] != '\\');
                let w = choose|w: int|
                    0 <= w < s@.len() && (s@[w] == '/' || s@[w] == '\\') && forall|j: int|
                        w < j < s@.len() ==> s@[j] != '/' && s@[j] != '\\';
                assert(w == last);
                assert(p@ =~= s@.take(last));
            }
            return Some(String::from_str(p));
        }
        i = i - 1;
    }
    proof {
        assert(spec_parent_dir(s@) is None);
    }
    None
}

/// An element-for-element copy of a vector of strings.
pub fn clone_string_vec(v: &Vec<String>) -> (r: Vec<String>)
    ensures
        r@ == v@,
{
    let mut r: Vec<String> = Vec::new();
    let n = v.len();
    for i in 0..n
        invariant
            n == v@.len(),
            r@.len() == i,
            forall|j: int| 0 <= j < i ==> r@[j] == v@[j],
    {
        r.push(v[i].clone());
    }
    proof {
        assert(r@ =~= v@);
    }
    r
}

} // verus!
