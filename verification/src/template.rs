//! The argument template engine: rewrites `${NAME}` tokens embedded in
//! argument strings using an environment map, in one left-to-right pass.
//!
//! A token is the exact form `${IDENT}` where `IDENT` is one or more
//! characters other than `}`. A token whose identifier is a key of the
//! environment map is replaced by the value's canonical string form; a token
//! whose identifier is absent stays unchanged, character for character.
//! Produced text is never re-scanned.

use vstd::prelude::*;

use crate::scalar::{spec_scalar_str, Scalar};
use crate::strmap::StrMap;

verus! {

/// The position of the first `}` at or after `i`, or `s.len()` if there is
/// none.
pub open spec fn first_close(s: Seq<char>, i: int) -> int
    decreases s.len() - i,
{
    if i < 0 || i >= s.len() {
        s.len() as int
    } else if s[i] == '}' {
        i
    } else {
        first_close(s, i + 1)
    }
}

/// A complete token `${IDENT}` with a non-empty identifier begins at `i`.
pub open spec fn token_at(s: Seq<char>, i: int) -> bool {
    &&& 0 <= i
    &&& i + 2 <= s.len()
    &&& s[i] == '$'
    &&& s[i + 1] == '{'
    &&& first_close(s, i + 2) < s.len()
    &&& first_close(s, i + 2) > i + 2
}

/// What substitution produces from position `i` of `s` to its end.
pub open spec fn spec_subst_from(s: Seq<char>, env: Map<Seq<char>, crate::scalar::ScalarV>, i: int) -> Seq<char>
    decreases s.len() - i,
{
    if i < 0 || i >= s.len() {
        Seq::empty()
    } else if token_at(s, i) {
        let j = first_close(s, i + 2);
        let ident = s.subrange(i + 2, j);
        if env.contains_key(ident) {
            spec_scalar_str(env[ident]) + spec_subst_from(s, env, j + 1)
        } else {
            s.subrange(i, j + 1) + spec_subst_from(s, env, j + 1)
        }
    } else {
        seq![s[i]] + spec_subst_from(s, env, i + 1)
    }
}

/// The template engine's contract: one left-to-right pass over the whole
/// string.
pub open spec fn spec_substitute(s: Seq<char>, env: Map<Seq<char>, crate::scalar::ScalarV>) -> Seq<char> {
    spec_subst_from(s, env, 0)
}

/// Substitution applied to every string of a sequence independently.
pub open spec fn spec_substitute_all(
    args: Seq<Seq<char>>,
    env: Map<Seq<char>, crate::scalar::ScalarV>,
) -> Seq<Seq<char>> {
    args.map_values(|t: Seq<char>| spec_substitute(t, env))
}

/// If nothing before `j` is a `}` and `j` is either a `}` or the end, then
/// `j` is exactly `first_close`.
proof fn lemma_first_close_is(s: Seq<char>, i: int, j: int)
    requires
        0 <= i <= j <= s.len(),
        forall|k: int| i <= k < j ==> s[k] != '}',
        j < s.len() ==> s[j] == '}',
    ensures
        first_close(s, i) == j,
    decreases j - i,
{
    if i < j {
        lemma_first_close_is(s, i + 1, j);
    }
}

/// Rewrites `${NAME}` tokens in `template` using `env`, in one left-to-right
/// pass, leaving unknown tokens unchanged.
pub fn substitute(template: &str, env: &StrMap<Scalar>) -> (r: String)
    ensures
        r@ == spec_substitute(template@, env@),
{
    let ghost s = template@;
    let n = template.unicode_len();
    let mut out = String::new();
    let mut i: usize = 0;
    while i < n
        invariant
            n == s.len(),
            s == template@,
            i <= n,
            out@ + spec_subst_from(s, env@, i as int) == spec_subst_from(s, env@, 0),
        decreases n - i,
    {
        let mut is_token = false;
        let mut j: usize = i;
        if i + 1 < n && template.get_char(i) == '$' && template.get_char(i + 1) == '{' {
            j = i + 2;
            while j < n && template.get_char(j) != '}'
                invariant
                    n == s.len(),
                    s == template@,
                    i + 2 <= j <= n,
                    forall|k: int| i + 2 <= k < j ==> s[k] != '}',
                decreases n - j,
            {
                j = j + 1;
            }
            proof {
                lemma_first_close_is(s, i + 2, j as int);
            }
            if j < n && j > i + 2 {
                is_token = true;
            }
        }
        proof {
            if i + 1 < n && s[i as int] == '$' && s[i as int + 1] == '{' {
                assert(is_token == token_at(s, i as int));
            } else {
                assert(!token_at(s, i as int));
            }
        }
        if is_token {
            let ident = template.substring_char(i + 2, j);
            match env.get(ident) {
                Some(v) => {
                    let txt = v.to_text();
                    out.append(txt.as_str());
                },
                None => {
                    out.append(template.substring_char(i, j + 1));
                },
            }
            proof {
                assert(out@ + spec_subst_from(s, env@, j as int + 1) =~= spec_subst_from(
                    s,
                    env@,
                    0,
                ));
            }
            i = j + 1;
        } else {
            out.append(template.substring_char(i, i + 1));
            proof {
                assert(template@.subrange(i as int, i as int + 1) =~= seq![s[i as int]]);
                assert(out@ + spec_subst_from(s, env@, i as int + 1) =~= spec_subst_from(
                    s,
                    env@,
                    0,
                ));
            }
            i = i + 1;
        }
    }
    proof {
        assert(out@ =~= spec_subst_from(s, env@, 0));
    }
    out
}

/// Applies [`substitute`] to every argument of a template list.
pub fn substitute_args(args: &Vec<String>, env: &StrMap<Scalar>) -> (r: Vec<String>)
    ensures
        r@.len() == args@.len(),
        forall|k: int| 0 <= k < args@.len() ==> r@[k]@ == spec_substitute(args@[k]@, env@),
        r.deep_view() == spec_substitute_all(args.deep_view(), env@),
{
    let mut r: Vec<String> = Vec::new();
    let n = args.len();
    for i in 0..n
        invariant
            n == args@.len(),
            r@.len() == i,
            forall|k: int| 0 <= k < i ==> r@[k]@ == spec_substitute(args@[k]@, env@),
    {
        let sub = substitute(args[i].as_str(), env);
        r.push(sub);
    }
    proof {
        assert(r.deep_view() =~= spec_substitute_all(args.deep_view(), env@));
    }
    r
}

} // verus!
