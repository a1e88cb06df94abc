use glitter::commit_msg;
use glitter::Arguments;
use glitter::CommitMessageArguments;
use glitter::CustomTaskOptions;
use glitter::GlitterRc;
use glitter::TriStateFlag;

#[test]
fn check_commit_message() {
    let args = Arguments {
        action: "actions".to_string(),
        arguments: vec![
            "test".to_string(),
            "a".to_string(),
            "b".to_string(),
            "c".to_string(),
        ],
        rc_path: String::new(),
        branch: Some(String::new()),
        dry: TriStateFlag::Explicit(false),
        nohost: TriStateFlag::Explicit(false),
        raw: TriStateFlag::Explicit(false),
        noverify: TriStateFlag::Explicit(false),
    };

    let config = GlitterRc {
        commit_message: "$1($2): $3+".to_string(),
        arguments: None,
        commit_message_arguments: Some(vec![CommitMessageArguments {
            argument: 1,
            case: Some("snake".to_string()),
            type_enums: Some(vec![
                "fix".to_owned(),
                "feat".to_owned(),
                "chore".to_owned(),
            ]),
        }]),
        fetch: None,
        custom_tasks: Some(vec![CustomTaskOptions {
            name: "fmt".to_owned(),
            execute: Some(vec!["cargo fmt".to_owned()]),
        }]),
        __default: None,
        hooks: None,
    };

    assert_eq!(commit_msg(), "$1+".to_string());
    assert_eq!(
        args,
        Arguments {
            action: "actions".to_string(),
            arguments: vec![
                "test".to_string(),
                "a".to_string(),
                "b".to_string(),
                "c".to_string(),
            ],
            rc_path: String::new(),
            branch: Some(String::new()),
            dry: TriStateFlag::Explicit(false),
            nohost: TriStateFlag::Explicit(false),
            raw: TriStateFlag::Explicit(false),
            noverify: TriStateFlag::Explicit(false)
        }
    );
    assert_eq!(
        config,
        GlitterRc {
            commit_message: "$1($2): $3+".to_string(),
            arguments: None,
            commit_message_arguments: Some(vec![CommitMessageArguments {
                argument: 1,
                case: Some("snake".to_string()),
                type_enums: Some(vec![
                    "fix".to_owned(),
                    "feat".to_owned(),
                    "chore".to_owned()
                ])
            }]),
            fetch: None,
            custom_tasks: Some(vec![CustomTaskOptions {
                name: "fmt".to_owned(),
                execute: Some(vec!["cargo fmt".to_owned()])
            }]),
            __default: None,
            hooks: None
        }
    );
}

#[test]
fn tri_state_unset_resolves_false() {
    assert_eq!(TriStateFlag::Unset.resolve(), false);
}

#[test]
fn tri_state_implicit_resolves_true() {
    assert_eq!(TriStateFlag::ImplicitTrue.resolve(), true);
}

#[test]
fn tri_state_explicit_keeps_value() {
    assert_eq!(TriStateFlag::Explicit(true).resolve(), true);
    assert_eq!(TriStateFlag::Explicit(false).resolve(), false);
}

#[test]
fn flag_accessors_follow_fields() {
    let args = Arguments {
        action: "push".to_string(),
        arguments: vec![],
        rc_path: ".glitterrc".to_string(),
        branch: None,
        dry: TriStateFlag::ImplicitTrue,
        nohost: TriStateFlag::Unset,
        raw: TriStateFlag::Explicit(true),
        noverify: TriStateFlag::Explicit(false),
    };
    assert!(args.dry());
    assert!(!args.nohost());
    assert!(args.raw());
    assert!(!args.noverify());
}

#[test]
fn structs_with_different_fields_are_unequal() {
    let a = CustomTaskOptions {
        name: "fmt".to_string(),
        execute: Some(vec!["cargo fmt".to_string()]),
    };
    let b = CustomTaskOptions {
        name: "fmt".to_string(),
        execute: Some(vec!["cargo check".to_string()]),
    };
    let c = CustomTaskOptions {
        name: "lint".to_string(),
        execute: Some(vec!["cargo fmt".to_string()]),
    };
    assert!(a != b);
    assert!(a != c);
    assert_eq!(
        a,
        CustomTaskOptions {
            name: "fmt".to_string(),
            execute: Some(vec!["cargo fmt".to_string()]),
        }
    );
}
