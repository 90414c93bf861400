use desktop_shell::config::AppConfig;
use desktop_shell::window::{
    build, build_from_saved, startup_windows, WindowCreationParams, WindowSpec,
    DEFAULT_HEIGHT_BITS, DEFAULT_WIDTH_BITS,
};
use desktop_shell::window_state::{Length, WindowState};

fn length(value: f64) -> Length {
    Length { bits: value.to_bits() }
}

fn size_of(params: &WindowCreationParams) -> (f64, f64) {
    (f64::from_bits(params.width.bits), f64::from_bits(params.height.bits))
}

fn unset() -> WindowState {
    WindowState { x: None, y: None, width: None, height: None, maximized: None, fullscreen: None }
}

fn spec(label: &str, visible: bool) -> WindowSpec {
    WindowSpec {
        label: label.to_string(),
        url: format!("{}.html", label),
        default_width: length(600.0),
        default_height: length(400.0),
        visible,
    }
}

#[test]
fn default_size_is_600_by_400() {
    assert_eq!(f64::from_bits(DEFAULT_WIDTH_BITS), 600.0);
    assert_eq!(f64::from_bits(DEFAULT_HEIGHT_BITS), 400.0);
}

#[test]
fn saved_width_overrides_only_the_width() {
    let state = WindowState { width: Some(length(1024.0)), ..unset() };
    let params = build(&spec("todo", true), &state);
    assert_eq!(size_of(&params), (1024.0, 400.0));
}

#[test]
fn saved_height_overrides_only_the_height() {
    let state = WindowState { height: Some(length(900.0)), ..unset() };
    let params = build(&spec("todo", true), &state);
    assert_eq!(size_of(&params), (600.0, 900.0));
}

#[test]
fn partial_position_is_discarded() {
    let only_x = WindowState { x: Some(10), ..unset() };
    assert_eq!(build(&spec("todo", true), &only_x).position, None);
    let only_y = WindowState { y: Some(20), ..unset() };
    assert_eq!(build(&spec("todo", true), &only_y).position, None);
}

#[test]
fn full_position_is_applied() {
    let state = WindowState { x: Some(10), y: Some(-20), ..unset() };
    assert_eq!(build(&spec("todo", true), &state).position, Some((10, -20)));
}

#[test]
fn nothing_saved_gives_the_spec_as_it_is() {
    let params = build(&spec("markdown", false), &unset());
    assert_eq!(
        params,
        WindowCreationParams {
            label: "markdown".to_string(),
            url: "markdown.html".to_string(),
            width: length(600.0),
            height: length(400.0),
            position: None,
            maximized: None,
            fullscreen: None,
            visible: false,
        }
    );
}

#[test]
fn maximized_and_fullscreen_are_handed_on_as_saved() {
    let state = WindowState { maximized: Some(true), fullscreen: Some(false), ..unset() };
    let params = build(&spec("todo", true), &state);
    assert_eq!(params.maximized, Some(true));
    assert_eq!(params.fullscreen, Some(false));
    let state = WindowState { fullscreen: Some(true), ..unset() };
    let params = build(&spec("todo", true), &state);
    assert_eq!(params.maximized, None);
    assert_eq!(params.fullscreen, Some(true));
}

#[test]
fn visibility_comes_from_the_spec_alone() {
    let state = WindowState {
        x: Some(1),
        y: Some(2),
        width: Some(length(3.0)),
        height: Some(length(4.0)),
        maximized: Some(true),
        fullscreen: Some(true),
    };
    assert!(build(&spec("todo", true), &state).visible);
    assert!(!build(&spec("todo", false), &state).visible);
    assert!(build(&spec("todo", true), &unset()).visible);
    assert!(!build(&spec("todo", false), &unset()).visible);
}

#[test]
fn build_from_saved_merges_what_the_file_holds() {
    let params = build_from_saved(&spec("todo", true), Some(r#"{"width": 1024, "x": 10}"#));
    assert_eq!(size_of(&params), (1024.0, 400.0));
    assert_eq!(params.position, None);
    assert_eq!(params.label, "todo");
    assert_eq!(params.url, "todo.html");
    assert!(params.visible);
}

#[test]
fn build_from_saved_survives_a_missing_or_corrupt_file() {
    let expected = build(&spec("todo", true), &unset());
    assert_eq!(build_from_saved(&spec("todo", true), None), expected);
    assert_eq!(build_from_saved(&spec("todo", true), Some("{{{")), expected);
    assert_eq!(build_from_saved(&spec("todo", true), Some(r#"{"width": "wide"}"#)), expected);
}

fn shell_window(name: &str) -> WindowSpec {
    WindowSpec {
        label: name.to_string(),
        url: name.to_string(),
        default_width: length(600.0),
        default_height: length(400.0),
        visible: true,
    }
}

#[test]
fn startup_opens_the_windows_that_are_switched_on() {
    let both = AppConfig { todo_visible: Some(true), markdown_visible: Some(true) };
    assert_eq!(startup_windows(&both), vec![shell_window("todo"), shell_window("markdown")]);
    let todo_only = AppConfig { todo_visible: Some(true), markdown_visible: Some(false) };
    assert_eq!(startup_windows(&todo_only), vec![shell_window("todo")]);
    let markdown_only = AppConfig { todo_visible: Some(false), markdown_visible: Some(true) };
    assert_eq!(startup_windows(&markdown_only), vec![shell_window("markdown")]);
    let neither = AppConfig { todo_visible: Some(false), markdown_visible: Some(false) };
    assert_eq!(startup_windows(&neither), Vec::<WindowSpec>::new());
}

#[test]
fn startup_counts_an_unset_switch_as_on() {
    let unset = AppConfig { todo_visible: None, markdown_visible: Some(false) };
    assert_eq!(startup_windows(&unset), vec![shell_window("todo")]);
    assert_eq!(
        startup_windows(&AppConfig::default()),
        vec![shell_window("todo"), shell_window("markdown")]
    );
}
