use glitter::template::expand;
use glitter::text::to_kebab;
use glitter::text::to_lower;
use glitter::text::to_snake;
use glitter::text::to_upper;
use glitter::CommitMessageArguments;
use glitter::GlitterError;

fn strings(items: &[&str]) -> Vec<String> {
    items.iter().map(|s| s.to_string()).collect()
}

#[test]
fn default_template_joins_all_arguments() {
    let args = strings(&["a", "b", "c"]);
    let specs: Vec<CommitMessageArguments> = vec![];
    assert_eq!(expand("$1+", &args, &specs, false), Ok("a b c".to_string()));
}

#[test]
fn conventional_template_expands_each_slot() {
    let args = strings(&["fix", "core", "message", "here"]);
    let specs: Vec<CommitMessageArguments> = vec![];
    assert_eq!(
        expand("$1($2): $3+", &args, &specs, false),
        Ok("fix(core): message here".to_string())
    );
}

#[test]
fn raw_mode_ignores_template_and_specs() {
    let args = strings(&["x", "y", "z"]);
    let specs = vec![CommitMessageArguments {
        argument: 1,
        case: Some("upper".to_string()),
        type_enums: None,
    }];
    assert_eq!(
        expand("$1($2): $3+", &args, &specs, true),
        Ok("x y z".to_string())
    );
}

#[test]
fn raw_mode_needs_a_first_argument() {
    let args: Vec<String> = vec![];
    let specs: Vec<CommitMessageArguments> = vec![];
    assert_eq!(
        expand("$1+", &args, &specs, true),
        Err(GlitterError::MissingArgument(1))
    );
}

#[test]
fn snake_case_spec_transforms_before_substitution() {
    let args = strings(&["MyFeature"]);
    let specs = vec![CommitMessageArguments {
        argument: 1,
        case: Some("snake".to_string()),
        type_enums: None,
    }];
    assert_eq!(expand("$1", &args, &specs, false), Ok("my_feature".to_string()));
}

#[test]
fn type_enums_reject_values_outside_the_set() {
    let specs = vec![CommitMessageArguments {
        argument: 1,
        case: None,
        type_enums: Some(strings(&["fix", "feat", "chore"])),
    }];
    assert_eq!(
        expand("$1", &strings(&["bugfix"]), &specs, false),
        Err(GlitterError::InvalidEnumValue(1))
    );
    assert_eq!(
        expand("$1", &strings(&["fix"]), &specs, false),
        Ok("fix".to_string())
    );
}

#[test]
fn placeholder_beyond_arguments_is_missing() {
    let args = strings(&["a", "b", "c"]);
    let specs: Vec<CommitMessageArguments> = vec![];
    assert_eq!(
        expand("$5", &args, &specs, false),
        Err(GlitterError::MissingArgument(5))
    );
}

#[test]
fn unknown_case_transform_is_reported() {
    let specs = vec![CommitMessageArguments {
        argument: 1,
        case: Some("sarcastic".to_string()),
        type_enums: None,
    }];
    assert_eq!(
        expand("$1", &strings(&["x"]), &specs, false),
        Err(GlitterError::UnknownCaseTransform(1))
    );
}

#[test]
fn joined_arguments_pass_through_their_own_specs() {
    let args = strings(&["a", "MyB", "c"]);
    let specs = vec![CommitMessageArguments {
        argument: 2,
        case: Some("snake".to_string()),
        type_enums: None,
    }];
    assert_eq!(expand("$2+", &args, &specs, false), Ok("my_b c".to_string()));
}

#[test]
fn enum_check_applies_to_the_transformed_value() {
    let specs = vec![CommitMessageArguments {
        argument: 1,
        case: Some("lower".to_string()),
        type_enums: Some(strings(&["fix"])),
    }];
    assert_eq!(
        expand("$1", &strings(&["FIX"]), &specs, false),
        Ok("fix".to_string())
    );
}

#[test]
fn dollar_without_digit_is_verbatim() {
    let args = strings(&["a"]);
    let specs: Vec<CommitMessageArguments> = vec![];
    assert_eq!(expand("cost: $ 5", &args, &specs, false), Ok("cost: $ 5".to_string()));
    assert_eq!(expand("$0", &args, &specs, false), Ok("$0".to_string()));
}

#[test]
fn spec_for_nonexistent_slot_fails_resolution() {
    let specs = vec![CommitMessageArguments {
        argument: 5,
        case: None,
        type_enums: None,
    }];
    assert_eq!(
        expand("$1", &strings(&["a", "b"]), &specs, false),
        Err(GlitterError::MissingArgument(5))
    );
    assert_eq!(
        expand("$1", &strings(&["a", "b"]), &specs, true),
        Ok("a b".to_string())
    );
}

#[test]
fn empty_template_expands_to_empty() {
    let args = strings(&["a"]);
    let specs: Vec<CommitMessageArguments> = vec![];
    assert_eq!(expand("", &args, &specs, false), Ok(String::new()));
}

#[test]
fn case_transforms_cover_the_supported_set() {
    assert_eq!(to_snake("MyFeature"), "my_feature".to_string());
    assert_eq!(to_kebab("MyFeature"), "my-feature".to_string());
    assert_eq!(to_lower("MiXeD"), "mixed".to_string());
    assert_eq!(to_upper("MiXeD"), "MIXED".to_string());
}
