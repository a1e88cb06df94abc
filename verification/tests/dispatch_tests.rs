use glitter::dispatch::dispatch;
use glitter::dispatch::task_names_unique;
use glitter::dispatch::TaskKind;
use glitter::CustomTaskOptions;
use glitter::GlitterError;
use glitter::GlitterRc;

fn config_with_tasks(tasks: Option<Vec<CustomTaskOptions>>) -> GlitterRc {
    GlitterRc {
        commit_message: "$1+".to_string(),
        arguments: None,
        commit_message_arguments: None,
        fetch: None,
        custom_tasks: tasks,
        hooks: None,
        __default: None,
    }
}

#[test]
fn custom_task_dispatches_to_its_commands() {
    let config = config_with_tasks(Some(vec![CustomTaskOptions {
        name: "fmt".to_string(),
        execute: Some(vec!["cargo fmt".to_string()]),
    }]));
    let plan = dispatch(&"fmt".to_string(), &config, false).unwrap();
    match plan.kind {
        TaskKind::Custom(cmds) => assert_eq!(cmds, vec!["cargo fmt".to_string()]),
        TaskKind::Builtin(name) => panic!("expected a custom task, got builtin {}", name),
    }
}

#[test]
fn unknown_action_is_rejected() {
    let config = config_with_tasks(Some(vec![CustomTaskOptions {
        name: "fmt".to_string(),
        execute: Some(vec!["cargo fmt".to_string()]),
    }]));
    let r = dispatch(&"deploy".to_string(), &config, false);
    assert!(matches!(r, Err(GlitterError::UnknownAction)));
}

#[test]
fn builtin_action_dispatches_to_itself() {
    let config = config_with_tasks(None);
    let plan = dispatch(&"push".to_string(), &config, false).unwrap();
    match plan.kind {
        TaskKind::Builtin(name) => assert_eq!(name, "push".to_string()),
        TaskKind::Custom(_) => panic!("expected a builtin"),
    }
}

#[test]
fn custom_task_shadows_a_builtin() {
    let config = config_with_tasks(Some(vec![CustomTaskOptions {
        name: "push".to_string(),
        execute: Some(vec!["echo push".to_string()]),
    }]));
    let plan = dispatch(&"push".to_string(), &config, false).unwrap();
    assert!(matches!(plan.kind, TaskKind::Custom(_)));
}

#[test]
fn task_without_commands_is_a_noop() {
    let config = config_with_tasks(Some(vec![CustomTaskOptions {
        name: "fmt".to_string(),
        execute: None,
    }]));
    let plan = dispatch(&"fmt".to_string(), &config, false).unwrap();
    match plan.kind {
        TaskKind::Custom(cmds) => assert!(cmds.is_empty()),
        TaskKind::Builtin(_) => panic!("expected a custom task"),
    }
}

#[test]
fn hooks_ride_along_unless_noverify() {
    let mut config = config_with_tasks(None);
    config.hooks = Some(vec!["lint".to_string()]);
    let plan = dispatch(&"push".to_string(), &config, false).unwrap();
    assert_eq!(plan.hooks, vec!["lint".to_string()]);
    let plan = dispatch(&"push".to_string(), &config, true).unwrap();
    assert!(plan.hooks.is_empty());
}

#[test]
fn fetch_toggle_is_carried_on_the_plan() {
    let mut config = config_with_tasks(None);
    assert!(!dispatch(&"push".to_string(), &config, false).unwrap().fetch);
    config.fetch = Some(true);
    assert!(dispatch(&"push".to_string(), &config, false).unwrap().fetch);
    config.fetch = Some(false);
    assert!(!dispatch(&"push".to_string(), &config, false).unwrap().fetch);
}

#[test]
fn duplicate_task_names_are_detected() {
    let dup = config_with_tasks(Some(vec![
        CustomTaskOptions {
            name: "fmt".to_string(),
            execute: Some(vec!["cargo fmt".to_string()]),
        },
        CustomTaskOptions {
            name: "fmt".to_string(),
            execute: Some(vec!["cargo check".to_string()]),
        },
    ]));
    assert!(!task_names_unique(&dup));

    let ok = config_with_tasks(Some(vec![
        CustomTaskOptions {
            name: "fmt".to_string(),
            execute: Some(vec!["cargo fmt".to_string()]),
        },
        CustomTaskOptions {
            name: "lint".to_string(),
            execute: None,
        },
    ]));
    assert!(task_names_unique(&ok));
    assert!(task_names_unique(&config_with_tasks(None)));
}
