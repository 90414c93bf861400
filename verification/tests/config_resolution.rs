use desktop_shell::config::{
    candidate_locations, is_build_output_dir, parse_config, AppConfig, ConfigLocation,
    ConfigResolver, ResolverStep, Surroundings, CONFIG_FILE_NAME,
};
use desktop_shell::json::{JsonField, ParseError};

fn config(todo_visible: Option<bool>, markdown_visible: Option<bool>) -> AppConfig {
    AppConfig { todo_visible, markdown_visible }
}

fn three_candidates() -> Vec<ConfigLocation> {
    vec![
        ConfigLocation::BesideExecutable,
        ConfigLocation::WorkingDirectory,
        ConfigLocation::RelativeHere,
    ]
}

#[test]
fn default_config_has_both_switches_on() {
    assert_eq!(AppConfig::default(), config(Some(true), Some(true)));
}

#[test]
fn parse_reads_both_switches() {
    let text = r#"{"todo_visible": false, "markdown_visible": true}"#;
    assert_eq!(parse_config(text), Ok(config(Some(false), Some(true))));
}

#[test]
fn parse_leaves_absent_and_null_switches_unset() {
    assert_eq!(parse_config("{}"), Ok(config(None, None)));
    assert_eq!(
        parse_config(r#"{"todo_visible": null, "markdown_visible": false}"#),
        Ok(config(None, Some(false)))
    );
    assert_eq!(parse_config(r#"{"markdown_visible": true}"#), Ok(config(None, Some(true))));
}

#[test]
fn parse_ignores_members_it_does_not_know() {
    let text = r#"{"theme": "dark", "todo_visible": true, "sizes": [1, 2], "nested": {"a": 1}}"#;
    assert_eq!(parse_config(text), Ok(config(Some(true), None)));
}

#[test]
fn parse_refuses_a_switch_of_another_kind() {
    assert_eq!(parse_config(r#"{"todo_visible": "yes"}"#), Err(ParseError::InvalidField));
    assert_eq!(parse_config(r#"{"todo_visible": 1}"#), Err(ParseError::InvalidField));
    assert_eq!(
        parse_config(r#"{"todo_visible": true, "markdown_visible": []}"#),
        Err(ParseError::InvalidField)
    );
    assert_eq!(
        parse_config(r#"{"todo_visible": true, "markdown_visible": {}}"#),
        Err(ParseError::InvalidField)
    );
}

#[test]
fn parse_refuses_what_is_not_an_object() {
    assert_eq!(parse_config("[true, false]"), Err(ParseError::NotAnObject));
    assert_eq!(parse_config("true"), Err(ParseError::NotAnObject));
    assert_eq!(parse_config("null"), Err(ParseError::NotAnObject));
    assert_eq!(parse_config("42"), Err(ParseError::NotAnObject));
    assert_eq!(parse_config(r#""todo_visible""#), Err(ParseError::NotAnObject));
}

#[test]
fn parse_refuses_what_is_not_json() {
    assert_eq!(parse_config(""), Err(ParseError::Syntax));
    assert_eq!(parse_config("not json at all"), Err(ParseError::Syntax));
    assert_eq!(parse_config(r#"{"todo_visible": true"#), Err(ParseError::Syntax));
    assert_eq!(parse_config(r#"{"todo_visible": true} trailing"#), Err(ParseError::Syntax));
    assert_eq!(parse_config(r#"{"todo_visible": True}"#), Err(ParseError::Syntax));
}

#[test]
fn config_from_fields_follows_the_members() {
    assert_eq!(
        AppConfig::from_fields(JsonField::Bool(false), JsonField::Absent),
        Ok(config(Some(false), None))
    );
    assert_eq!(
        AppConfig::from_fields(JsonField::Null, JsonField::Bool(true)),
        Ok(config(None, Some(true)))
    );
    assert_eq!(
        AppConfig::from_fields(JsonField::Other, JsonField::Bool(true)),
        Err(ParseError::InvalidField)
    );
    assert_eq!(
        AppConfig::from_fields(
            JsonField::Bool(true),
            JsonField::Number { integer: Some(1), double_bits: 1.0f64.to_bits() }
        ),
        Err(ParseError::InvalidField)
    );
}

#[test]
fn with_defaults_fills_only_unset_fields() {
    assert_eq!(config(None, None).with_defaults(), config(Some(true), Some(true)));
    assert_eq!(config(Some(false), None).with_defaults(), config(Some(false), Some(true)));
    assert_eq!(config(None, Some(false)).with_defaults(), config(Some(true), Some(false)));
    assert_eq!(config(Some(false), Some(false)).with_defaults(), config(Some(false), Some(false)));
}

#[test]
fn resolution_uses_the_third_candidate_when_only_it_is_valid() {
    let mut resolver = ConfigResolver::new(three_candidates());
    assert_eq!(resolver.next_step(), ResolverStep::Read(ConfigLocation::BesideExecutable));
    resolver.supply(Some("{ this is not json"));
    assert_eq!(resolver.next_step(), ResolverStep::Read(ConfigLocation::WorkingDirectory));
    resolver.supply(None);
    assert_eq!(resolver.next_step(), ResolverStep::Read(ConfigLocation::RelativeHere));
    resolver.supply(Some(r#"{"todo_visible": false, "markdown_visible": true}"#));
    assert_eq!(resolver.next_step(), ResolverStep::Done(config(Some(false), Some(true))));
}

#[test]
fn resolution_stops_at_the_first_valid_candidate() {
    let mut resolver = ConfigResolver::new(three_candidates());
    resolver.supply(Some(r#"{"todo_visible": true, "markdown_visible": false}"#));
    assert_eq!(resolver.next_step(), ResolverStep::Done(config(Some(true), Some(false))));
    // A later candidate, however valid, is not asked for and changes nothing.
    resolver.supply(Some(r#"{"todo_visible": false, "markdown_visible": true}"#));
    assert_eq!(resolver.next_step(), ResolverStep::Done(config(Some(true), Some(false))));
}

#[test]
fn resolution_skips_a_file_that_parses_as_json_but_not_as_a_config() {
    let mut resolver = ConfigResolver::new(three_candidates());
    resolver.supply(Some(r#"{"todo_visible": "on"}"#));
    assert_eq!(resolver.next_step(), ResolverStep::Read(ConfigLocation::WorkingDirectory));
    resolver.supply(Some("[]"));
    assert_eq!(resolver.next_step(), ResolverStep::Read(ConfigLocation::RelativeHere));
    resolver.supply(Some(r#"{"markdown_visible": false}"#));
    assert_eq!(resolver.next_step(), ResolverStep::Done(config(Some(true), Some(false))));
}

#[test]
fn resolution_without_a_valid_candidate_is_the_default() {
    let mut resolver = ConfigResolver::new(three_candidates());
    resolver.supply(None);
    resolver.supply(Some("garbage"));
    resolver.supply(None);
    assert_eq!(resolver.next_step(), ResolverStep::Done(config(Some(true), Some(true))));
}

#[test]
fn resolution_without_candidates_is_the_default() {
    let resolver = ConfigResolver::new(Vec::new());
    assert_eq!(resolver.next_step(), ResolverStep::Done(config(Some(true), Some(true))));
}

#[test]
fn resolution_fills_the_defaults_of_the_file_it_takes() {
    let mut resolver = ConfigResolver::new(three_candidates());
    resolver.supply(Some("{}"));
    assert_eq!(resolver.next_step(), ResolverStep::Done(config(Some(true), Some(true))));
}

#[test]
fn record_takes_a_parsed_outcome() {
    let mut resolver = ConfigResolver::new(three_candidates());
    resolver.record(None);
    assert_eq!(resolver.next_step(), ResolverStep::Read(ConfigLocation::WorkingDirectory));
    resolver.record(Some(config(None, Some(false))));
    assert_eq!(resolver.next_step(), ResolverStep::Done(config(Some(true), Some(false))));
    resolver.record(Some(config(Some(false), Some(false))));
    assert_eq!(resolver.next_step(), ResolverStep::Done(config(Some(true), Some(false))));
}

#[test]
fn candidates_come_in_priority_order() {
    let all = Surroundings { executable_dir_known: true, working_dir_known: true, in_build_output: true };
    assert_eq!(
        candidate_locations(all),
        vec![
            ConfigLocation::BesideExecutable,
            ConfigLocation::WorkingDirectory,
            ConfigLocation::AboveBuildOutput,
            ConfigLocation::RelativeHere,
            ConfigLocation::RelativeParent,
            ConfigLocation::RelativeGrandparent,
        ]
    );
}

#[test]
fn candidates_leave_out_what_the_surroundings_do_not_give() {
    let nothing =
        Surroundings { executable_dir_known: false, working_dir_known: false, in_build_output: false };
    assert_eq!(
        candidate_locations(nothing),
        vec![
            ConfigLocation::RelativeHere,
            ConfigLocation::RelativeParent,
            ConfigLocation::RelativeGrandparent,
        ]
    );
    let installed =
        Surroundings { executable_dir_known: true, working_dir_known: true, in_build_output: false };
    assert_eq!(
        candidate_locations(installed),
        vec![
            ConfigLocation::BesideExecutable,
            ConfigLocation::WorkingDirectory,
            ConfigLocation::RelativeHere,
            ConfigLocation::RelativeParent,
            ConfigLocation::RelativeGrandparent,
        ]
    );
    // Without a working directory there is nothing to be two levels above.
    let lost =
        Surroundings { executable_dir_known: true, working_dir_known: false, in_build_output: true };
    assert_eq!(
        candidate_locations(lost),
        vec![
            ConfigLocation::BesideExecutable,
            ConfigLocation::RelativeHere,
            ConfigLocation::RelativeParent,
            ConfigLocation::RelativeGrandparent,
        ]
    );
}

#[test]
fn build_output_dir_is_debug_inside_target() {
    assert!(is_build_output_dir(Some("target"), Some("debug")));
    assert!(is_build_output_dir(Some("anything"), Some("target\\debug")));
    assert!(is_build_output_dir(None, Some("target\\debug")));
    assert!(!is_build_output_dir(Some("target"), Some("release")));
    assert!(!is_build_output_dir(Some("build"), Some("debug")));
    assert!(!is_build_output_dir(None, Some("debug")));
    assert!(!is_build_output_dir(Some("target"), None));
    assert!(!is_build_output_dir(None, None));
    assert!(!is_build_output_dir(Some("Target"), Some("debug")));
}

#[test]
fn relative_candidates_climb_one_level_each() {
    assert_eq!(CONFIG_FILE_NAME, "config.json");
    assert_eq!(ConfigLocation::RelativeHere.relative_path(), Some("config.json"));
    assert_eq!(ConfigLocation::RelativeParent.relative_path(), Some("../config.json"));
    assert_eq!(ConfigLocation::RelativeGrandparent.relative_path(), Some("../../config.json"));
    assert_eq!(ConfigLocation::BesideExecutable.relative_path(), None);
    assert_eq!(ConfigLocation::WorkingDirectory.relative_path(), None);
    assert_eq!(ConfigLocation::AboveBuildOutput.relative_path(), None);
}
