//! The argument resolver: merges the command-line arguments with the
//! per-action override the configuration may hold. The command line
//! wins on every field it sets; a field it leaves unset falls back to
//! the override, and without an override to its own default.

use vstd::prelude::*;
use vstd::string::StrSliceExecFns;

use crate::config::Arguments;
use crate::config::ArgumentsV;
use crate::config::GlitterRc;
use crate::config::GlitterRcV;
use crate::config::TriStateFlag;
use crate::error::GlitterError;
use crate::text::ascii_ci_eq;
use crate::text::clone_opt_string;
use crate::text::clone_string_vec;
use crate::text::lower_seq;
use crate::text::str_eq;

verus! {

/// The well-known configuration-file name the CLI defaults to.
pub open spec fn default_rc_path() -> Seq<char> {
    ".glitterrc"@
}

/// A flag set on the command line wins; an unset one falls back to the
/// override.
pub open spec fn spec_merge_flag(cli: TriStateFlag, ov: TriStateFlag) -> TriStateFlag {
    if cli is Unset {
        ov
    } else {
        cli
    }
}

/// The effective arguments when an override matches: action and
/// positional arguments come from the command line as they are; branch,
/// the flags and the configuration path fall back to the override
/// where the command line left them at their defaults.
pub open spec fn spec_merge(cli: ArgumentsV, ov: ArgumentsV) -> ArgumentsV {
    ArgumentsV {
        action: cli.action,
        arguments: cli.arguments,
        rc_path: if cli.rc_path == default_rc_path() {
            ov.rc_path
        } else {
            cli.rc_path
        },
        branch: if cli.branch is Some {
            cli.branch
        } else {
            ov.branch
        },
        dry: spec_merge_flag(cli.dry, ov.dry),
        nohost: spec_merge_flag(cli.nohost, ov.nohost),
        raw: spec_merge_flag(cli.raw, ov.raw),
        noverify: spec_merge_flag(cli.noverify, ov.noverify),
    }
}

/// First override whose action matches exactly, searching from `k`.
pub open spec fn spec_find_override_from(ovs: Seq<ArgumentsV>, action: Seq<char>, k: int) -> Option<
    ArgumentsV,
>
    decreases ovs.len() - k,
{
    if k < 0 || k >= ovs.len() {
        None
    } else if ovs[k].action == action {
        Some(ovs[k])
    } else {
        spec_find_override_from(ovs, action, k + 1)
    }
}

/// First override whose action matches exactly.
pub open spec fn spec_find_override(ovs: Seq<ArgumentsV>, action: Seq<char>) -> Option<ArgumentsV> {
    spec_find_override_from(ovs, action, 0)
}

/// Some override from `k` on matches the action up to ASCII case.
pub open spec fn spec_has_ci_match_from(ovs: Seq<ArgumentsV>, action: Seq<char>, k: int) -> bool
    decreases ovs.len() - k,
{
    if k < 0 || k >= ovs.len() {
        false
    } else if lower_seq(ovs[k].action) == lower_seq(action) {
        true
    } else {
        spec_has_ci_match_from(ovs, action, k + 1)
    }
}

/// The override list of a configuration; absent means none.
pub open spec fn spec_overrides(config: GlitterRcV) -> Seq<ArgumentsV> {
    match config.arguments {
        None => Seq::empty(),
        Some(s) => s,
    }
}

/// What resolution returns: the merge with the first exactly matching
/// override; the command line unchanged when none relates to the
/// action; and a mismatch error when an override collides with the
/// action up to ASCII case without matching it exactly.
pub open spec fn spec_resolve(cli: ArgumentsV, config: GlitterRcV) -> Result<
    ArgumentsV,
    GlitterError,
> {
    let ovs = spec_overrides(config);
    match spec_find_override(ovs, cli.action) {
        Some(ov) => Ok(spec_merge(cli, ov)),
        None => if spec_has_ci_match_from(ovs, cli.action, 0) {
            Err(GlitterError::ConfigMismatch)
        } else {
            Ok(cli)
        },
    }
}

/// The command line wins on the branch: a branch given there survives
/// resolution whatever the configuration says; without one, the branch
/// of the matching override is used.
pub proof fn lemma_branch_precedence(cli: ArgumentsV, config: GlitterRcV)
    ensures
        cli.branch is Some && spec_resolve(cli, config) is Ok ==> spec_resolve(
            cli,
            config,
        )->Ok_0.branch == cli.branch,
        cli.branch is None && spec_resolve(cli, config) is Ok && spec_find_override(
            spec_overrides(config),
            cli.action,
        ) is Some ==> spec_resolve(cli, config)->Ok_0.branch == spec_find_override(
            spec_overrides(config),
            cli.action,
        )->Some_0.branch,
{
}

fn merge_flag(cli: TriStateFlag, ov: TriStateFlag) -> (r: TriStateFlag)
    ensures
        r == spec_merge_flag(cli, ov),
{
    match cli {
        TriStateFlag::Unset => ov,
        _ => cli,
    }
}

fn clone_arguments(a: &Arguments) -> (r: Arguments)
    ensures
        r@ == a@,
{
    let r = Arguments {
        action: a.action.clone(),
        arguments: clone_string_vec(&a.arguments),
        rc_path: a.rc_path.clone(),
        branch: clone_opt_string(&a.branch),
        dry: a.dry,
        nohost: a.nohost,
        raw: a.raw,
        noverify: a.noverify,
    };
    proof {
        assert(r@ =~= a@);
    }
    r
}

fn find_override_from(ovs: &Vec<Arguments>, action: &String, k: usize) -> (r: Option<usize>)
    ensures
        match r {
            Some(idx) => k <= idx < ovs.len() && spec_find_override_from(
                ovs.deep_view(),
                action@,
                k as int,
            ) == Some(ovs.deep_view()[idx as int]),
            None => spec_find_override_from(ovs.deep_view(), action@, k as int) is None,
        },
    decreases ovs.len() - k,
{
    if k >= ovs.len() {
        None
    } else {
        proof {
            assert(ovs.deep_view()[k as int] == ovs@[k as int].deep_view());
        }
        if str_eq(ovs[k].action.as_str(), action.as_str()) {
            Some(k)
        } else {
            find_override_from(ovs, action, k + 1)
        }
    }
}

fn has_ci_match_from(ovs: &Vec<Arguments>, action: &String, k: usize) -> (r: bool)
    ensures
        r == spec_has_ci_match_from(ovs.deep_view(), action@, k as int),
    decreases ovs.len() - k,
{
    if k >= ovs.len() {
        false
    } else {
        proof {
            assert(ovs.deep_view()[k as int] == ovs@[k as int].deep_view());
        }
        if ascii_ci_eq(ovs[k].action.as_str(), action.as_str()) {
            true
        } else {
            has_ci_match_from(ovs, action, k + 1)
        }
    }
}

/// Merge the command-line arguments with the configuration's matching
/// per-action override, the command line winning on every field it
/// sets. Returns exactly what [`spec_resolve`] says: the merged
/// arguments, the command line unchanged when no override relates to
/// its action, or [`GlitterError::ConfigMismatch`] when an override
/// collides with the action up to ASCII case only.
pub fn resolve(cli: &Arguments, config: &GlitterRc) -> (r: Result<Arguments, GlitterError>)
    ensures
        match r {
            Ok(a) => spec_resolve(cli@, config@) == Ok::<ArgumentsV, GlitterError>(a@),
            Err(e) => spec_resolve(cli@, config@) == Err::<ArgumentsV, GlitterError>(e),
        },
{
    match &config.arguments {
        None => Ok(clone_arguments(cli)),
        Some(ovs) => {
            match find_override_from(ovs, &cli.action, 0) {
                Some(idx) => {
                    let ov = &ovs[idx];
                    proof {
                        assert(ovs.deep_view()[idx as int] == ovs@[idx as int].deep_view());
                    }
                    let rc_is_default = str_eq(cli.rc_path.as_str(), ".glitterrc");
                    let merged = Arguments {
                        action: cli.action.clone(),
                        arguments: clone_string_vec(&cli.arguments),
                        rc_path: if rc_is_default {
                            ov.rc_path.clone()
                        } else {
                            cli.rc_path.clone()
                        },
                        branch: match &cli.branch {
                            Some(b) => Some(b.clone()),
                            None => clone_opt_string(&ov.branch),
                        },
                        dry: merge_flag(cli.dry, ov.dry),
                        nohost: merge_flag(cli.nohost, ov.nohost),
                        raw: merge_flag(cli.raw, ov.raw),
                        noverify: merge_flag(cli.noverify, ov.noverify),
                    };
                    proof {
                        assert(merged@ =~= spec_merge(cli@, ov@));
                    }
                    Ok(merged)
                },
                None => {
                    if has_ci_match_from(ovs, &cli.action, 0) {
                        Err(GlitterError::ConfigMismatch)
                    } else {
                        Ok(clone_arguments(cli))
                    }
                },
            }
        },
    }
}

} // verus!
