//! Character-level helpers: ASCII case transforms and verified string
//! comparisons, stated over `Seq<char>` views.

use vstd::pervasive::cloned;
use vstd::prelude::*;
use vstd::string::StrSliceExecFns;

verus! {

/// Relies on std's `String::push`: appends exactly the given character
/// at the end of the string.
pub assume_specification[ String::push ](s: &mut String, ch: char)
    ensures
        final(s)@ == old(s)@.push(ch),
;

/// `c` is an ASCII capital letter.
pub open spec fn is_ascii_upper(c: char) -> bool {
    65 <= c as int <= 90
}

/// `c` is an ASCII small letter.
pub open spec fn is_ascii_lower(c: char) -> bool {
    97 <= c as int <= 122
}

/// ASCII capitals become small letters; everything else is unchanged.
pub open spec fn to_lower_char(c: char) -> char {
    if is_ascii_upper(c) {
        (c as int + 32) as char
    } else {
        c
    }
}

/// ASCII small letters become capitals; everything else is unchanged.
pub open spec fn to_upper_char(c: char) -> char {
    if is_ascii_lower(c) {
        (c as int - 32) as char
    } else {
        c
    }
}

/// The string lowercased character by character (ASCII only).
pub open spec fn lower_seq(s: Seq<char>) -> Seq<char> {
    s.map_values(|c: char| to_lower_char(c))
}

/// The string uppercased character by character (ASCII only).
pub open spec fn upper_seq(s: Seq<char>) -> Seq<char> {
    s.map_values(|c: char| to_upper_char(c))
}

/// Separator-cased form of a string: every ASCII capital is lowercased
/// and, unless it starts the string, preceded by `sep`; every other
/// character is kept as it is.
pub open spec fn sep_cased(s: Seq<char>, sep: char) -> Seq<char>
    decreases s.len(),
{
    if s.len() == 0 {
        Seq::empty()
    } else {
        let prefix = sep_cased(s.drop_last(), sep);
        let c = s.last();
        if is_ascii_upper(c) && s.len() > 1 {
            prefix + seq![sep, to_lower_char(c)]
        } else {
            prefix + seq![to_lower_char(c)]
        }
    }
}

/// snake_case form: capitals lowercased and preceded by an underscore.
pub open spec fn snake_of(s: Seq<char>) -> Seq<char> {
    sep_cased(s, '_')
}

/// kebab-case form: capitals lowercased and preceded by a hyphen.
pub open spec fn kebab_of(s: Seq<char>) -> Seq<char> {
    sep_cased(s, '-')
}

/// Lowercase one character, ASCII only.
pub fn lower_char(c: char) -> (r: char)
    ensures
        r == to_lower_char(c),
{
    let v = c as u32;
    if 65 <= v && v <= 90 {
        ((v as u8) + 32) as char
    } else {
        c
    }
}

/// Uppercase one character, ASCII only.
pub fn upper_char(c: char) -> (r: char)
    ensures
        r == to_upper_char(c),
{
    let v = c as u32;
    if 97 <= v && v <= 122 {
        ((v as u8) - 32) as char
    } else {
        c
    }
}

fn is_upper_char(c: char) -> (r: bool)
    ensures
        r == is_ascii_upper(c),
{
    let v = c as u32;
    65 <= v && v <= 90
}

/// Lowercase a string character by character, ASCII only.
pub fn to_lower(s: &str) -> (r: String)
    ensures
        r@ == lower_seq(s@),
{
    let n = s.unicode_len();
    let mut out = String::new();
    let mut i: usize = 0;
    while i < n
        invariant
            i <= n,
            n == s@.len(),
            out@ == lower_seq(s@.subrange(0, i as int)),
        decreases n - i,
    {
        let c = s.get_char(i);
        out.push(lower_char(c));
        proof {
            assert(lower_seq(s@.subrange(0, i + 1 as int)) =~= lower_seq(
                s@.subrange(0, i as int),
            ).push(to_lower_char(s@[i as int])));
        }
        i += 1;
    }
    proof {
        assert(s@.subrange(0, n as int) =~= s@);
    }
    out
}

/// Uppercase a string character by character, ASCII only.
pub fn to_upper(s: &str) -> (r: String)
    ensures
        r@ == upper_seq(s@),
{
    let n = s.unicode_len();
    let mut out = String::new();
    let mut i: usize = 0;
    while i < n
        invariant
            i <= n,
            n == s@.len(),
            out@ == upper_seq(s@.subrange(0, i as int)),
        decreases n - i,
    {
        let c = s.get_char(i);
        out.push(upper_char(c));
        proof {
            assert(upper_seq(s@.subrange(0, i + 1 as int)) =~= upper_seq(
                s@.subrange(0, i as int),
            ).push(to_upper_char(s@[i as int])));
        }
        i += 1;
    }
    proof {
        assert(s@.subrange(0, n as int) =~= s@);
    }
    out
}

fn to_sep_cased(s: &str, sep: char) -> (r: String)
    ensures
        r@ == sep_cased(s@, sep),
{
    let n = s.unicode_len();
    let mut out = String::new();
    let mut i: usize = 0;
    while i < n
        invariant
            i <= n,
            n == s@.len(),
            out@ == sep_cased(s@.subrange(0, i as int), sep),
        decreases n - i,
    {
        let c = s.get_char(i);
        if is_upper_char(c) && i > 0 {
            out.push(sep);
        }
        out.push(lower_char(c));
        proof {
            let cur = s@.subrange(0, i + 1 as int);
            assert(cur.drop_last() =~= s@.subrange(0, i as int));
            assert(cur.last() == s@[i as int]);
            if is_ascii_upper(s@[i as int]) && i > 0 {
                assert(sep_cased(cur, sep) =~= sep_cased(s@.subrange(0, i as int), sep).push(
                    sep,
                ).push(to_lower_char(s@[i as int])));
            } else {
                assert(sep_cased(cur, sep) =~= sep_cased(s@.subrange(0, i as int), sep).push(
                    to_lower_char(s@[i as int]),
                ));
            }
        }
        i += 1;
    }
    proof {
        assert(s@.subrange(0, n as int) =~= s@);
    }
    out
}

/// snake_case a string: capitals lowercased, underscore-separated.
pub fn to_snake(s: &str) -> (r: String)
    ensures
        r@ == snake_of(s@),
{
    to_sep_cased(s, '_')
}

/// kebab-case a string: capitals lowercased, hyphen-separated.
pub fn to_kebab(s: &str) -> (r: String)
    ensures
        r@ == kebab_of(s@),
{
    to_sep_cased(s, '-')
}

/// Character-for-character string equality.
pub fn str_eq(a: &str, b: &str) -> (r: bool)
    ensures
        r == (a@ == b@),
{
    let an = a.unicode_len();
    let bn = b.unicode_len();
    if an != bn {
        return false;
    }
    let mut i: usize = 0;
    while i < an
        invariant
            i <= an,
            an == a@.len(),
            an == b@.len(),
            forall|j: int| 0 <= j < i ==> a@[j] == b@[j],
        decreases an - i,
    {
        if a.get_char(i) != b.get_char(i) {
            return false;
        }
        i += 1;
    }
    proof {
        assert(a@ =~= b@);
    }
    true
}

/// String equality up to ASCII case.
pub fn ascii_ci_eq(a: &str, b: &str) -> (r: bool)
    ensures
        r == (lower_seq(a@) == lower_seq(b@)),
{
    let an = a.unicode_len();
    let bn = b.unicode_len();
    if an != bn {
        proof {
            assert(lower_seq(a@).len() == a@.len());
            assert(lower_seq(b@).len() == b@.len());
        }
        return false;
    }
    let mut i: usize = 0;
    while i < an
        invariant
            i <= an,
            an == a@.len(),
            an == b@.len(),
            forall|j: int| 0 <= j < i ==> lower_seq(a@)[j] == lower_seq(b@)[j],
        decreases an - i,
    {
        if lower_char(a.get_char(i)) != lower_char(b.get_char(i)) {
            proof {
                assert(lower_seq(a@)[i as int] == to_lower_char(a@[i as int]));
                assert(lower_seq(b@)[i as int] == to_lower_char(b@[i as int]));
            }
            return false;
        }
        i += 1;
    }
    proof {
        assert(lower_seq(a@) =~= lower_seq(b@));
    }
    true
}

/// Membership of a string among a list's character sequences.
pub open spec fn spec_contains_string(vs: Seq<Seq<char>>, s: Seq<char>) -> bool {
    exists|j: int| 0 <= j < vs.len() && vs[j] == s
}

/// Whether the list holds a string with exactly these characters.
pub fn string_list_contains(v: &Vec<String>, s: &String) -> (r: bool)
    ensures
        r == spec_contains_string(v.deep_view(), s@),
{
    let mut i: usize = 0;
    while i < v.len()
        invariant
            i <= v.len(),
            forall|j: int| 0 <= j < i ==> v.deep_view()[j] != s@,
        decreases v.len() - i,
    {
        if v[i] == *s {
            proof {
                assert(v.deep_view()[i as int] == s@);
            }
            return true;
        }
        proof {
            assert(v.deep_view()[i as int] == v@[i as int]@);
        }
        i += 1;
    }
    false
}

pub(crate) fn clone_string_vec(v: &Vec<String>) -> (r: Vec<String>)
    ensures
        r@ == v@,
        r.deep_view() == v.deep_view(),
{
    let r = v.clone();
    proof {
        assert forall|i: int| 0 <= i < v@.len() implies r@[i] == v@[i] by {
            assert(cloned::<String>(v[i], r[i]));
        }
        assert(r@ =~= v@);
        assert(r.deep_view() =~= v.deep_view());
    }
    r
}

pub(crate) fn clone_opt_string(v: &Option<String>) -> (r: Option<String>)
    ensures
        r == *v,
{
    match v {
        None => None,
        Some(s) => Some(s.clone()),
    }
}

} // verus!
