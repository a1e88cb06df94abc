//! The commit-message template engine. A template is scanned left to
//! right; `$N` (N a digit 1 to 9) substitutes the Nth positional
//! argument, `$N+` substitutes arguments N onward space-joined, and any
//! other character is copied verbatim. Each substituted argument first
//! passes through its matching [`CommitMessageArguments`] spec: an
//! optional case transform, then an optional allowed-value check. Raw
//! mode ignores template and specs and space-joins all arguments.

use vstd::prelude::*;
use vstd::string::StrSliceExecFns;
use vstd::string::StringExecFns;

use crate::config::CommitMessageArguments;
use crate::config::CommitMessageArgumentsV;
use crate::error::GlitterError;
use crate::text::kebab_of;
use crate::text::lower_seq;
use crate::text::snake_of;
use crate::text::spec_contains_string;
use crate::text::str_eq;
use crate::text::string_list_contains;
use crate::text::to_kebab;
use crate::text::to_lower;
use crate::text::to_snake;
use crate::text::to_upper;
use crate::text::upper_seq;

verus! {

/// `c` is a digit a placeholder may use: 1 to 9.
pub open spec fn is_index_digit(c: char) -> bool {
    49 <= c as int <= 57
}

/// Numeric value of a placeholder digit.
pub open spec fn digit_val(c: char) -> int {
    c as int - 48
}

/// An exec result agrees with the result a spec function computed:
/// same success with the same characters, or the very same error.
pub open spec fn string_result_matches(
    r: Result<String, GlitterError>,
    m: Result<Seq<char>, GlitterError>,
) -> bool {
    match r {
        Ok(s) => m == Ok::<Seq<char>, GlitterError>(s@),
        Err(e) => m == Err::<Seq<char>, GlitterError>(e),
    }
}

/// The case transform a spec may name: `snake`, `kebab`, `lower` or
/// `upper`. Any other name is unknown.
pub open spec fn spec_apply_case(name: Seq<char>, v: Seq<char>) -> Option<Seq<char>> {
    if name == "snake"@ {
        Some(snake_of(v))
    } else if name == "kebab"@ {
        Some(kebab_of(v))
    } else if name == "lower"@ {
        Some(lower_seq(v))
    } else if name == "upper"@ {
        Some(upper_seq(v))
    } else {
        None
    }
}

/// First spec whose `argument` field names slot `n`, searching from `k`.
pub open spec fn spec_find_spec_from(
    specs: Seq<CommitMessageArgumentsV>,
    n: int,
    k: int,
) -> Option<CommitMessageArgumentsV>
    decreases specs.len() - k,
{
    if k < 0 || k >= specs.len() {
        None
    } else if specs[k].argument == n {
        Some(specs[k])
    } else {
        spec_find_spec_from(specs, n, k + 1)
    }
}

/// First spec whose `argument` field names slot `n`.
pub open spec fn spec_find_spec(specs: Seq<CommitMessageArgumentsV>, n: int) -> Option<
    CommitMessageArgumentsV,
> {
    spec_find_spec_from(specs, n, 0)
}

/// Apply one slot spec to a value: the case transform first, then the
/// allowed-value check on the transformed value.
pub open spec fn spec_apply_spec(sp: CommitMessageArgumentsV, v: Seq<char>, n: int) -> Result<
    Seq<char>,
    GlitterError,
> {
    let t = match sp.case {
        None => Some(v),
        Some(name) => spec_apply_case(name, v),
    };
    match t {
        None => Err(GlitterError::UnknownCaseTransform(n as usize)),
        Some(tv) => match sp.type_enums {
            None => Ok(tv),
            Some(en) => if spec_contains_string(en, tv) {
                Ok(tv)
            } else {
                Err(GlitterError::InvalidEnumValue(n as usize))
            },
        },
    }
}

/// The value substituted for slot `n` (1-based): the argument passed
/// through its matching spec, or the error that stops the expansion.
pub open spec fn spec_resolve_arg(
    args: Seq<Seq<char>>,
    specs: Seq<CommitMessageArgumentsV>,
    n: int,
) -> Result<Seq<char>, GlitterError> {
    if n < 1 || n > args.len() {
        Err(GlitterError::MissingArgument(n as usize))
    } else {
        match spec_find_spec(specs, n) {
            None => Ok(args[n - 1]),
            Some(sp) => spec_apply_spec(sp, args[n - 1], n),
        }
    }
}

/// Arguments `n` onward, each passed through its spec, space-joined.
pub open spec fn spec_join_from(
    args: Seq<Seq<char>>,
    specs: Seq<CommitMessageArgumentsV>,
    n: int,
) -> Result<Seq<char>, GlitterError>
    decreases args.len() - n,
{
    match spec_resolve_arg(args, specs, n) {
        Err(e) => Err(e),
        Ok(s) => if n >= args.len() {
            Ok(s)
        } else {
            match spec_join_from(args, specs, n + 1) {
                Err(e) => Err(e),
                Ok(rest) => Ok(s + seq![' '] + rest),
            }
        },
    }
}

/// Arguments `n` onward (0-based), verbatim, space-joined.
pub open spec fn spec_plain_join_from(args: Seq<Seq<char>>, n: int) -> Seq<char>
    decreases args.len() - n,
{
    if n < 0 || n >= args.len() {
        Seq::empty()
    } else if n == args.len() - 1 {
        args[n]
    } else {
        args[n] + seq![' '] + spec_plain_join_from(args, n + 1)
    }
}

/// Raw-mode expansion: all arguments verbatim, space-joined; an empty
/// argument list is a missing first argument.
pub open spec fn spec_raw_expand(args: Seq<Seq<char>>) -> Result<Seq<char>, GlitterError> {
    if args.len() == 0 {
        Err(GlitterError::MissingArgument(1))
    } else {
        Ok(spec_plain_join_from(args, 0))
    }
}

/// Expansion of the template from position `i` on.
pub open spec fn spec_expand_from(
    tpl: Seq<char>,
    i: int,
    args: Seq<Seq<char>>,
    specs: Seq<CommitMessageArgumentsV>,
) -> Result<Seq<char>, GlitterError>
    decreases tpl.len() - i,
{
    if i < 0 || i >= tpl.len() {
        Ok(Seq::empty())
    } else if tpl[i] == '$' && i + 1 < tpl.len() && is_index_digit(tpl[i + 1]) {
        let n = digit_val(tpl[i + 1]);
        let plus = i + 2 < tpl.len() && tpl[i + 2] == '+';
        let sub = if plus {
            spec_join_from(args, specs, n)
        } else {
            spec_resolve_arg(args, specs, n)
        };
        let rest_i = if plus {
            i + 3
        } else {
            i + 2
        };
        match sub {
            Err(e) => Err(e),
            Ok(s) => match spec_expand_from(tpl, rest_i, args, specs) {
                Err(e) => Err(e),
                Ok(rest) => Ok(s + rest),
            },
        }
    } else {
        match spec_expand_from(tpl, i + 1, args, specs) {
            Err(e) => Err(e),
            Ok(rest) => Ok(seq![tpl[i]] + rest),
        }
    }
}

/// The slot index of the first spec that names no existing positional
/// slot, searching from `k`: every spec's `argument` must lie in
/// 1 to `nargs`. An index below 1 is reported as 0.
pub open spec fn spec_first_bad_spec_from(
    specs: Seq<CommitMessageArgumentsV>,
    nargs: int,
    k: int,
) -> Option<int>
    decreases specs.len() - k,
{
    if k < 0 || k >= specs.len() {
        None
    } else if specs[k].argument < 1 || specs[k].argument > nargs {
        Some(
            if specs[k].argument < 1 {
                0
            } else {
                specs[k].argument
            },
        )
    } else {
        spec_first_bad_spec_from(specs, nargs, k + 1)
    }
}

/// The whole expansion: raw mode joins the arguments and ignores both
/// template and specs; otherwise every spec must name an existing
/// positional slot, and then the template is scanned from its start.
pub open spec fn spec_expand(
    tpl: Seq<char>,
    args: Seq<Seq<char>>,
    specs: Seq<CommitMessageArgumentsV>,
    raw: bool,
) -> Result<Seq<char>, GlitterError> {
    if raw {
        spec_raw_expand(args)
    } else {
        match spec_first_bad_spec_from(specs, args.len() as int, 0) {
            Some(ix) => Err(GlitterError::MissingArgument(ix as usize)),
            None => spec_expand_from(tpl, 0, args, specs),
        }
    }
}

/// Raw mode depends on the positional arguments alone: any two
/// templates and any two spec lists expand to the very same result.
pub proof fn lemma_raw_mode_ignores_template(
    t1: Seq<char>,
    t2: Seq<char>,
    s1: Seq<CommitMessageArgumentsV>,
    s2: Seq<CommitMessageArgumentsV>,
    args: Seq<Seq<char>>,
)
    ensures
        spec_expand(t1, args, s1, true) == spec_expand(t2, args, s2, true),
{
}

/// A placeholder outside the argument list always fails, and names the
/// offending slot.
pub proof fn lemma_missing_argument(
    args: Seq<Seq<char>>,
    specs: Seq<CommitMessageArgumentsV>,
    n: int,
)
    requires
        1 <= n,
        args.len() < n <= usize::MAX,
    ensures
        spec_resolve_arg(args, specs, n) == Err::<Seq<char>, GlitterError>(
            GlitterError::MissingArgument(n as usize),
        ),
{
}

fn is_index_digit_char(c: char) -> (r: bool)
    ensures
        r == is_index_digit(c),
{
    let v = c as u32;
    49 <= v && v <= 57
}

fn digit_val_char(c: char) -> (r: usize)
    requires
        is_index_digit(c),
    ensures
        1 <= r <= 9,
        r == digit_val(c),
{
    ((c as u32) - 48) as usize
}

fn apply_case(name: &String, v: &String) -> (r: Option<String>)
    ensures
        match r {
            Some(s) => spec_apply_case(name@, v@) == Some(s@),
            None => spec_apply_case(name@, v@) is None,
        },
{
    if str_eq(name.as_str(), "snake") {
        Some(to_snake(v.as_str()))
    } else if str_eq(name.as_str(), "kebab") {
        Some(to_kebab(v.as_str()))
    } else if str_eq(name.as_str(), "lower") {
        Some(to_lower(v.as_str()))
    } else if str_eq(name.as_str(), "upper") {
        Some(to_upper(v.as_str()))
    } else {
        None
    }
}

fn find_spec_from(specs: &Vec<CommitMessageArguments>, n: usize, k: usize) -> (r: Option<usize>)
    ensures
        match r {
            Some(idx) => k <= idx < specs.len() && spec_find_spec_from(
                specs.deep_view(),
                n as int,
                k as int,
            ) == Some(specs.deep_view()[idx as int]),
            None => spec_find_spec_from(specs.deep_view(), n as int, k as int) is None,
        },
    decreases specs.len() - k,
{
    if k >= specs.len() {
        None
    } else {
        let a = specs[k].argument;
        proof {
            assert(specs.deep_view()[k as int] == specs@[k as int].deep_view());
        }
        if a >= 0 && (a as usize) == n {
            Some(k)
        } else {
            find_spec_from(specs, n, k + 1)
        }
    }
}

fn resolve_arg(args: &Vec<String>, specs: &Vec<CommitMessageArguments>, n: usize) -> (r: Result<
    String,
    GlitterError,
>)
    ensures
        string_result_matches(r, spec_resolve_arg(args.deep_view(), specs.deep_view(), n as int)),
{
    if n < 1 || n > args.len() {
        return Err(GlitterError::MissingArgument(n));
    }
    let v = &args[n - 1];
    proof {
        assert(args.deep_view()[n - 1 as int] == args@[n - 1 as int]@);
    }
    match find_spec_from(specs, n, 0) {
        None => Ok(v.clone()),
        Some(idx) => {
            let sp = &specs[idx];
            proof {
                assert(specs.deep_view()[idx as int] == specs@[idx as int].deep_view());
            }
            let t: String = match &sp.case {
                None => v.clone(),
                Some(name) => match apply_case(name, v) {
                    Some(s) => s,
                    None => {
                        return Err(GlitterError::UnknownCaseTransform(n));
                    },
                },
            };
            match &sp.type_enums {
                None => Ok(t),
                Some(en) => {
                    if string_list_contains(en, &t) {
                        Ok(t)
                    } else {
                        Err(GlitterError::InvalidEnumValue(n))
                    }
                },
            }
        },
    }
}

fn join_from(args: &Vec<String>, specs: &Vec<CommitMessageArguments>, n: usize) -> (r: Result<
    String,
    GlitterError,
>)
    ensures
        string_result_matches(r, spec_join_from(args.deep_view(), specs.deep_view(), n as int)),
    decreases args.len() - n,
{
    let s = match resolve_arg(args, specs, n) {
        Ok(s) => s,
        Err(e) => {
            return Err(e);
        },
    };
    if n >= args.len() {
        Ok(s)
    } else {
        match join_from(args, specs, n + 1) {
            Err(e) => Err(e),
            Ok(rest) => {
                let mut out = s;
                out.push(' ');
                let out = out.concat(rest.as_str());
                proof {
                    assert(out@ =~= spec_join_from(
                        args.deep_view(),
                        specs.deep_view(),
                        n as int,
                    )->Ok_0);
                }
                Ok(out)
            },
        }
    }
}

fn plain_join_from(args: &Vec<String>, n: usize) -> (r: String)
    requires
        n < args.len(),
    ensures
        r@ == spec_plain_join_from(args.deep_view(), n as int),
    decreases args.len() - n,
{
    let first = args[n].clone();
    proof {
        assert(args.deep_view()[n as int] == args@[n as int]@);
    }
    if n + 1 < args.len() {
        let mut out = first;
        out.push(' ');
        let rest = plain_join_from(args, n + 1);
        let out = out.concat(rest.as_str());
        proof {
            assert(out@ =~= spec_plain_join_from(args.deep_view(), n as int));
        }
        out
    } else {
        first
    }
}

fn expand_from(tpl: &str, i: usize, args: &Vec<String>, specs: &Vec<CommitMessageArguments>) -> (r:
    Result<String, GlitterError>)
    requires
        i <= tpl@.len(),
    ensures
        string_result_matches(
            r,
            spec_expand_from(tpl@, i as int, args.deep_view(), specs.deep_view()),
        ),
    decreases tpl@.len() - i,
{
    let tn = tpl.unicode_len();
    if i >= tn {
        return Ok(String::new());
    }
    let c = tpl.get_char(i);
    if c == '$' && i + 1 < tn && is_index_digit_char(tpl.get_char(i + 1)) {
        let n = digit_val_char(tpl.get_char(i + 1));
        let plus = i + 2 < tn && tpl.get_char(i + 2) == '+';
        let sub = if plus {
            join_from(args, specs, n)
        } else {
            resolve_arg(args, specs, n)
        };
        let rest_i = if plus {
            i + 3
        } else {
            i + 2
        };
        match sub {
            Err(e) => Err(e),
            Ok(s) => match expand_from(tpl, rest_i, args, specs) {
                Err(e) => Err(e),
                Ok(rest) => Ok(s.concat(rest.as_str())),
            },
        }
    } else {
        match expand_from(tpl, i + 1, args, specs) {
            Err(e) => Err(e),
            Ok(rest) => {
                let mut out = String::new();
                out.push(c);
                let out = out.concat(rest.as_str());
                proof {
                    assert(out@ =~= seq![tpl@[i as int]] + rest@);
                }
                Ok(out)
            },
        }
    }
}

fn first_bad_spec_from(specs: &Vec<CommitMessageArguments>, nargs: usize, k: usize) -> (r: Option<
    usize,
>)
    ensures
        match r {
            Some(ix) => spec_first_bad_spec_from(specs.deep_view(), nargs as int, k as int) == Some(
                ix as int,
            ),
            None => spec_first_bad_spec_from(specs.deep_view(), nargs as int, k as int) is None,
        },
    decreases specs.len() - k,
{
    if k >= specs.len() {
        None
    } else {
        proof {
            assert(specs.deep_view()[k as int] == specs@[k as int].deep_view());
        }
        let a = specs[k].argument;
        if a < 1 {
            Some(0)
        } else if (a as usize) > nargs {
            Some(a as usize)
        } else {
            first_bad_spec_from(specs, nargs, k + 1)
        }
    }
}

/// Expand a commit-message template against the positional arguments.
///
/// With `raw` set, the template and the specs are ignored and the
/// arguments are space-joined verbatim. Otherwise every spec must name
/// an existing positional slot; then `$N` substitutes the Nth argument
/// and `$N+` the space-join of arguments N onward, each substituted
/// argument passing through its matching spec first. The result, or
/// the first error met, is exactly what [`spec_expand`] says.
pub fn expand(
    template: &str,
    args: &Vec<String>,
    specs: &Vec<CommitMessageArguments>,
    raw: bool,
) -> (r: Result<String, GlitterError>)
    ensures
        string_result_matches(
            r,
            spec_expand(template@, args.deep_view(), specs.deep_view(), raw),
        ),
{
    if raw {
        if args.len() == 0 {
            Err(GlitterError::MissingArgument(1))
        } else {
            Ok(plain_join_from(args, 0))
        }
    } else {
        match first_bad_spec_from(specs, args.len(), 0) {
            Some(ix) => Err(GlitterError::MissingArgument(ix)),
            None => expand_from(template, 0, args, specs),
        }
    }
}

} // verus!
