use glitter::resolve::resolve;
use glitter::Arguments;
use glitter::GlitterError;
use glitter::GlitterRc;
use glitter::TriStateFlag;

fn cli(action: &str, branch: Option<&str>) -> Arguments {
    Arguments {
        action: action.to_string(),
        arguments: vec!["msg".to_string()],
        rc_path: ".glitterrc".to_string(),
        branch: branch.map(|b| b.to_string()),
        dry: TriStateFlag::Unset,
        nohost: TriStateFlag::Unset,
        raw: TriStateFlag::Unset,
        noverify: TriStateFlag::Unset,
    }
}

fn override_for(action: &str, branch: Option<&str>, dry: TriStateFlag) -> Arguments {
    Arguments {
        action: action.to_string(),
        arguments: vec![],
        rc_path: ".glitterrc".to_string(),
        branch: branch.map(|b| b.to_string()),
        dry,
        nohost: TriStateFlag::Unset,
        raw: TriStateFlag::Unset,
        noverify: TriStateFlag::Unset,
    }
}

fn config_with(overrides: Option<Vec<Arguments>>) -> GlitterRc {
    GlitterRc {
        commit_message: "$1+".to_string(),
        arguments: overrides,
        commit_message_arguments: None,
        fetch: None,
        custom_tasks: None,
        hooks: None,
        __default: None,
    }
}

#[test]
fn override_branch_applies_without_cli_branch() {
    let config = config_with(Some(vec![override_for(
        "commit",
        Some("main"),
        TriStateFlag::Unset,
    )]));
    let resolved = resolve(&cli("commit", None), &config).unwrap();
    assert_eq!(resolved.branch, Some("main".to_string()));
}

#[test]
fn cli_branch_wins_over_override() {
    let config = config_with(Some(vec![override_for(
        "commit",
        Some("main"),
        TriStateFlag::Unset,
    )]));
    let resolved = resolve(&cli("commit", Some("dev")), &config).unwrap();
    assert_eq!(resolved.branch, Some("dev".to_string()));
}

#[test]
fn no_override_leaves_cli_unchanged() {
    let config = config_with(None);
    let resolved = resolve(&cli("push", Some("dev")), &config).unwrap();
    assert_eq!(resolved.action, "push".to_string());
    assert_eq!(resolved.arguments, vec!["msg".to_string()]);
    assert_eq!(resolved.branch, Some("dev".to_string()));
    assert_eq!(resolved.dry, TriStateFlag::Unset);
}

#[test]
fn unrelated_override_is_ignored() {
    let config = config_with(Some(vec![override_for(
        "commit",
        Some("main"),
        TriStateFlag::Unset,
    )]));
    let resolved = resolve(&cli("push", None), &config).unwrap();
    assert_eq!(resolved.branch, None);
}

#[test]
fn case_collision_is_a_mismatch() {
    let config = config_with(Some(vec![override_for(
        "Commit",
        Some("main"),
        TriStateFlag::Unset,
    )]));
    assert_eq!(
        resolve(&cli("commit", None), &config),
        Err(GlitterError::ConfigMismatch)
    );
}

#[test]
fn unset_flag_falls_back_to_override() {
    let config = config_with(Some(vec![override_for(
        "commit",
        None,
        TriStateFlag::Explicit(true),
    )]));
    let resolved = resolve(&cli("commit", None), &config).unwrap();
    assert_eq!(resolved.dry, TriStateFlag::Explicit(true));
    assert!(resolved.dry());
}

#[test]
fn cli_flag_wins_over_override() {
    let config = config_with(Some(vec![override_for(
        "commit",
        None,
        TriStateFlag::Explicit(true),
    )]));
    let mut invocation = cli("commit", None);
    invocation.dry = TriStateFlag::Explicit(false);
    let resolved = resolve(&invocation, &config).unwrap();
    assert_eq!(resolved.dry, TriStateFlag::Explicit(false));
    assert!(!resolved.dry());
}

#[test]
fn default_rc_path_falls_back_to_override() {
    let mut over = override_for("commit", None, TriStateFlag::Unset);
    over.rc_path = "team.glitterrc".to_string();
    let config = config_with(Some(vec![over]));
    let resolved = resolve(&cli("commit", None), &config).unwrap();
    assert_eq!(resolved.rc_path, "team.glitterrc".to_string());

    let mut invocation = cli("commit", None);
    invocation.rc_path = "mine.glitterrc".to_string();
    let config2 = config_with(Some(vec![{
        let mut o = override_for("commit", None, TriStateFlag::Unset);
        o.rc_path = "team.glitterrc".to_string();
        o
    }]));
    let resolved2 = resolve(&invocation, &config2).unwrap();
    assert_eq!(resolved2.rc_path, "mine.glitterrc".to_string());
}
