//! Small verified string helpers shared by the generators: equality against a
//! literal, prefix tests, and the hyphen-to-underscore substitution that
//! mirrors the build tool's module-name normalization.
use vstd::prelude::*;

verus! {

/// Relies on String::push: appends the given character to the end of the
/// string.
pub assume_specification[ String::push ](s: &mut String, c: char)
    ensures
        final(s)@ == old(s)@.push(c),
;

/// True when the owned string and the borrowed slice hold the same characters.
pub fn streq(a: &String, b: &str) -> (r: bool)
    ensures
        r == (a@ == b@),
{
    let b_owned: String = b.to_owned();
    *a == b_owned
}

/// The character substitution applied to crate names when forming local
/// documentation paths: hyphens become underscores, everything else is kept.
pub open spec fn dash_to_underscore(c: char) -> char {
    if c == '-' {
        '_'
    } else {
        c
    }
}

/// The name with every hyphen replaced by an underscore.
pub open spec fn spec_underscored(s: Seq<char>) -> Seq<char> {
    s.map_values(|c: char| dash_to_underscore(c))
}

/// Rewrites a name the way the build tool names its documentation modules:
/// every hyphen is replaced by an underscore.
pub fn replace_dashes(s: &str) -> (r: String)
    ensures
        r@ == spec_underscored(s@),
{
    let mut r = String::new();
    for c in it: s.chars()
        invariant
            it.seq() == s@,
            r@ == spec_underscored(s@.take(it.index() as int)),
    {
        if c == '-' {
            r.push('_');
        } else {
            r.push(c);
        }
        proof {
            assert(s@.take(it.index() + 1) =~= s@.take(it.index() as int).push(s@[it.index() as int]));
            assert(spec_underscored(s@.take(it.index() + 1)) =~= spec_underscored(
                s@.take(it.index() as int),
            ).push(dash_to_underscore(s@[it.index() as int])));
        }
    }
    proof {
        assert(s@.take(s@.len() as int) =~= s@);
    }
    r
}

/// The first `n` characters of the string, or all of them when it is
/// shorter.
pub fn prefix_chars(s: &str, n: usize) -> (r: Vec<char>)
    ensures
        r@ == s@.take(if n as int <= s@.len() {
            n as int
        } else {
            s@.len() as int
        }),
{
    let mut r: Vec<char> = Vec::new();
    for c in it: s.chars()
        invariant
            it.seq() == s@,
            r@ == s@.take(if n as int <= it.index() as int {
                n as int
            } else {
                it.index() as int
            }),
    {
        if r.len() < n {
            r.push(c);
        }
        proof {
            assert(s@.take(it.index() + 1) =~= s@.take(it.index() as int).push(
                s@[it.index() as int],
            ));
        }
    }
    r
}

} // verus!
