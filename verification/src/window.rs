//! From what is asked of a window and what was saved of it to the parameters
//! it is created with, and the windows that a configuration asks for.

use crate::config::AppConfig;
use crate::window_state::{load_window_state, loaded_state, Length, WindowState};
use vstd::prelude::*;

verus! {

/// 600.0, the default width of a window, as the bits of a double.
pub const DEFAULT_WIDTH_BITS: u64 = 0x4082_C000_0000_0000;

/// 400.0, the default height of a window, as the bits of a double.
pub const DEFAULT_HEIGHT_BITS: u64 = 0x4079_0000_0000_0000;

/// What the caller asks of a window before any saved state is looked at.
#[derive(Clone, Debug, PartialEq, Eq)]
pub struct WindowSpec {
    pub label: String,
    pub url: String,
    pub default_width: Length,
    pub default_height: Length,
    pub visible: bool,
}

/// The model of a [`WindowSpec`].
pub struct WindowSpecView {
    pub label: Seq<char>,
    pub url: Seq<char>,
    pub default_width: Length,
    pub default_height: Length,
    pub visible: bool,
}

impl View for WindowSpec {
    type V = WindowSpecView;

    open spec fn view(&self) -> WindowSpecView {
        WindowSpecView {
            label: self.label@,
            url: self.url@,
            default_width: self.default_width,
            default_height: self.default_height,
            visible: self.visible,
        }
    }
}

/// What a window is created with. Size and visibility are always set;
/// position, maximized and fullscreen are applied only where set, and left
/// to the host otherwise.
#[derive(Clone, Debug, PartialEq, Eq)]
pub struct WindowCreationParams {
    pub label: String,
    pub url: String,
    pub width: Length,
    pub height: Length,
    pub position: Option<(i32, i32)>,
    pub maximized: Option<bool>,
    pub fullscreen: Option<bool>,
    pub visible: bool,
}

/// The model of [`WindowCreationParams`].
pub struct WindowCreationParamsView {
    pub label: Seq<char>,
    pub url: Seq<char>,
    pub width: Length,
    pub height: Length,
    pub position: Option<(i32, i32)>,
    pub maximized: Option<bool>,
    pub fullscreen: Option<bool>,
    pub visible: bool,
}

impl View for WindowCreationParams {
    type V = WindowCreationParamsView;

    open spec fn view(&self) -> WindowCreationParamsView {
        WindowCreationParamsView {
            label: self.label@,
            url: self.url@,
            width: self.width,
            height: self.height,
            position: self.position,
            maximized: self.maximized,
            fullscreen: self.fullscreen,
            visible: self.visible,
        }
    }
}

/// The merge rule. Saved state overrides the defaults field by field: a
/// saved width or height replaces its default, each on its own; a position
/// is taken only where both coordinates were saved; maximized and fullscreen
/// are handed on as saved. Visibility comes from the [`WindowSpec`] alone.
pub open spec fn merge(spec: WindowSpecView, state: WindowState) -> WindowCreationParamsView {
    WindowCreationParamsView {
        label: spec.label,
        url: spec.url,
        width: match state.width {
            Some(saved) => saved,
            None => spec.default_width,
        },
        height: match state.height {
            Some(saved) => saved,
            None => spec.default_height,
        },
        position: match (state.x, state.y) {
            (Some(x), Some(y)) => Some((x, y)),
            _ => None,
        },
        maximized: state.maximized,
        fullscreen: state.fullscreen,
        visible: spec.visible,
    }
}

/// Merges what was saved of a window into what is asked of it.
pub fn build(spec: &WindowSpec, state: &WindowState) -> (params: WindowCreationParams)
    ensures
        params@ == merge(spec@, *state),
{
    let width = match state.width {
        Some(saved) => saved,
        None => spec.default_width,
    };
    let height = match state.height {
        Some(saved) => saved,
        None => spec.default_height,
    };
    let position = match (state.x, state.y) {
        (Some(x), Some(y)) => Some((x, y)),
        _ => None,
    };
    WindowCreationParams {
        label: spec.label.clone(),
        url: spec.url.clone(),
        width,
        height,
        position,
        maximized: state.maximized,
        fullscreen: state.fullscreen,
        visible: spec.visible,
    }
}

/// The parameters for a window, from what is asked of it and from what
/// reading its state file gave: the text, or `None` where the file could
/// not be read.
pub fn build_from_saved(spec: &WindowSpec, read: Option<&str>) -> (params: WindowCreationParams)
    ensures
        params@ == merge(
            spec@,
            loaded_state(
                match read {
                    Some(text) => Some(text@),
                    None => None,
                },
            ),
        ),
{
    let state = load_window_state(read);
    build(spec, &state)
}

/// What is asked of a window of the shell: its label is also its content,
/// its size the default size.
pub open spec fn shell_window(name: Seq<char>, visible: bool) -> WindowSpecView {
    WindowSpecView {
        label: name,
        url: name,
        default_width: Length { bits: DEFAULT_WIDTH_BITS },
        default_height: Length { bits: DEFAULT_HEIGHT_BITS },
        visible,
    }
}

/// The windows that a configuration asks for, in the order in which they are
/// opened: `todo`, then `markdown`, each only where its switch is on. An
/// unset switch counts as on.
pub open spec fn windows_of(config: AppConfig) -> Seq<WindowSpecView> {
    let resolved = config.spec_with_defaults();
    let todo = if resolved.todo_visible == Some(true) {
        seq![shell_window("todo"@, true)]
    } else {
        seq![]
    };
    let markdown = if resolved.markdown_visible == Some(true) {
        seq![shell_window("markdown"@, true)]
    } else {
        seq![]
    };
    todo + markdown
}

fn new_shell_window(name: &str, visible: bool) -> (spec: WindowSpec)
    ensures
        spec@ == shell_window(name@, visible),
{
    WindowSpec {
        label: name.to_owned(),
        url: name.to_owned(),
        default_width: Length { bits: DEFAULT_WIDTH_BITS },
        default_height: Length { bits: DEFAULT_HEIGHT_BITS },
        visible,
    }
}

/// Lists the windows to open at start-up.
pub fn startup_windows(config: &AppConfig) -> (windows: Vec<WindowSpec>)
    ensures
        windows@.map_values(|spec: WindowSpec| spec@) == windows_of(*config),
{
    let resolved = config.with_defaults();
    let mut windows: Vec<WindowSpec> = Vec::new();
    match resolved.todo_visible {
        Some(true) => {
            windows.push(new_shell_window("todo", true));
        },
        _ => {},
    }
    match resolved.markdown_visible {
        Some(true) => {
            windows.push(new_shell_window("markdown", true));
        },
        _ => {},
    }
    assert(windows@.map_values(|spec: WindowSpec| spec@) =~= windows_of(*config));
    windows
}

/// Whatever was saved, a window is as visible as its [`WindowSpec`] says,
/// and keeps its label and content.
pub proof fn law_state_never_decides_visibility(
    spec: WindowSpecView,
    one: WindowState,
    other: WindowState,
)
    ensures
        merge(spec, one).visible == spec.visible,
        merge(spec, one).visible == merge(spec, other).visible,
        merge(spec, one).label == merge(spec, other).label,
        merge(spec, one).url == merge(spec, other).url,
{
}

/// A position is applied exactly when both coordinates were saved; one
/// coordinate alone is dropped.
pub proof fn law_partial_position_is_dropped(spec: WindowSpecView, state: WindowState)
    ensures
        merge(spec, state).position is Some <==> (state.x is Some && state.y is Some),
        merge(spec, state).position matches Some(at) ==> state.x == Some(at.0) && state.y == Some(
            at.1,
        ),
{
}

/// Width and height are overridden one by one: saving one of them leaves
/// the other at its default.
pub proof fn law_size_is_merged_per_field(spec: WindowSpecView, state: WindowState)
    ensures
        state.width is None ==> merge(spec, state).width == spec.default_width,
        state.height is None ==> merge(spec, state).height == spec.default_height,
        state.width matches Some(saved) ==> merge(spec, state).width == saved,
        state.height matches Some(saved) ==> merge(spec, state).height == saved,
{
}

/// With nothing saved, a window is created as asked: default size, no
/// position, maximized and fullscreen left to the host.
pub proof fn law_nothing_saved_gives_defaults(spec: WindowSpecView)
    ensures
        merge(spec, crate::window_state::unset_state()) == (WindowCreationParamsView {
            label: spec.label,
            url: spec.url,
            width: spec.default_width,
            height: spec.default_height,
            position: None,
            maximized: None,
            fullscreen: None,
            visible: spec.visible,
        }),
{
}

} // verus!
