//! Routing of signals to the primary window: a click in the tray menu, a
//! click on the tray icon, the launch of a second instance. A signal becomes
//! a command; a command that concerns the primary window becomes, once the
//! window has been looked up, a plan of actions for the caller to carry out.

use crate::text::same_text;
use vstd::prelude::*;

verus! {

/// The label under which the primary window is looked up, each time anew.
pub const PRIMARY_WINDOW_LABEL: &'static str = "main";

/// One thing the caller can do to the primary window.
#[derive(Clone, Copy, Debug, PartialEq, Eq)]
pub enum WindowAction {
    Show,
    Hide,
    Focus,
    Unminimize,
}

/// What looking up the primary window gave.
#[derive(Clone, Copy, Debug, PartialEq, Eq)]
pub enum PrimaryWindow {
    /// There is no window under the primary label.
    Absent,
    /// The window exists. Its visibility is read only for an intent that
    /// depends on it (see [`Intent::reads_visibility`]); for any other the
    /// caller may put `false`.
    Present { visible: bool },
}

/// What the caller does when an action of a plan fails.
#[derive(Clone, Copy, Debug, PartialEq, Eq)]
pub enum FailurePolicy {
    /// Hand the failure on: it is not to be swallowed.
    Propagate,
    /// Go on with the next action: none of them is owed.
    Ignore,
}

/// What a signal wants of the primary window.
#[derive(Clone, Copy, Debug, PartialEq, Eq)]
pub enum Intent {
    /// Make it visible and give it the input focus.
    Show,
    /// Make it invisible.
    Hide,
    /// Hide it if it is visible, show and focus it if not.
    Toggle,
    /// Bring it to the front as far as possible.
    Raise,
}

/// What a signal asks for.
#[derive(Clone, Copy, Debug, PartialEq, Eq)]
pub enum Command {
    /// Something is wanted of the primary window.
    Window(Intent),
    /// The process is to end at once with this exit code.
    Exit { code: i32 },
    /// The signal is none of ours.
    Ignore,
}

/// A button of the pointing device.
#[derive(Clone, Copy, Debug, PartialEq, Eq)]
pub enum MouseButton {
    Left,
    Right,
    Middle,
}

/// What happened at the tray icon.
#[derive(Clone, Copy, Debug, PartialEq, Eq)]
pub enum TrayEvent {
    Click { button: MouseButton },
    DoubleClick { button: MouseButton },
    Enter,
    Move,
    Leave,
    /// An event of a kind that the library does not know.
    Other,
}

/// An entry of the tray menu.
#[derive(Clone, Copy, Debug, PartialEq, Eq)]
pub enum MenuEntry {
    Item { id: &'static str, label: &'static str, enabled: bool },
    Separator,
}

/// The tray menu: show, hide, a separator, quit. It is built once and its
/// ids never change.
pub open spec fn tray_menu() -> Seq<MenuEntry> {
    seq![
        MenuEntry::Item { id: "show", label: "显示窗口", enabled: true },
        MenuEntry::Item { id: "hide", label: "隐藏窗口", enabled: true },
        MenuEntry::Separator,
        MenuEntry::Item { id: "quit", label: "退出", enabled: true },
    ]
}

/// Builds the tray menu.
pub fn create_tray_menu() -> (menu: Vec<MenuEntry>)
    ensures
        menu@ == tray_menu(),
{
    let mut menu: Vec<MenuEntry> = Vec::new();
    menu.push(MenuEntry::Item { id: "show", label: "显示窗口", enabled: true });
    menu.push(MenuEntry::Item { id: "hide", label: "隐藏窗口", enabled: true });
    menu.push(MenuEntry::Separator);
    menu.push(MenuEntry::Item { id: "quit", label: "退出", enabled: true });
    assert(menu@ =~= tray_menu());
    menu
}

/// The command behind a menu id: `show`, `hide` and `quit` are known, quit
/// ends the process with code 0, and any other id asks for nothing.
pub open spec fn command_of_menu_id(id: Seq<char>) -> Command {
    if id == "show"@ {
        Command::Window(Intent::Show)
    } else if id == "hide"@ {
        Command::Window(Intent::Hide)
    } else if id == "quit"@ {
        Command::Exit { code: 0 }
    } else {
        Command::Ignore
    }
}

/// Routes a click on the menu entry `id`.
pub fn menu_command(id: &str) -> (command: Command)
    ensures
        command == command_of_menu_id(id@),
{
    if same_text(id, "show") {
        Command::Window(Intent::Show)
    } else if same_text(id, "hide") {
        Command::Window(Intent::Hide)
    } else if same_text(id, "quit") {
        Command::Exit { code: 0 }
    } else {
        Command::Ignore
    }
}

/// The command behind a tray event: a click with the left button toggles
/// the primary window, and every other event asks for nothing.
pub open spec fn command_of_tray_event(event: TrayEvent) -> Command {
    match event {
        TrayEvent::Click { button: MouseButton::Left } => Command::Window(Intent::Toggle),
        _ => Command::Ignore,
    }
}

/// Routes an event at the tray icon.
pub fn tray_command(event: TrayEvent) -> (command: Command)
    ensures
        command == command_of_tray_event(event),
{
    match event {
        TrayEvent::Click { button: MouseButton::Left } => Command::Window(Intent::Toggle),
        _ => Command::Ignore,
    }
}

impl Intent {
    /// Whether the plan for this intent depends on the window being visible
    /// (see [`law_visibility_matters_to_toggle_only`]).
    pub open spec fn spec_reads_visibility(self) -> bool {
        self is Toggle
    }

    /// Tells whether the caller has to ask the window whether it is
    /// visible before planning for this intent.
    #[verifier::when_used_as_spec(spec_reads_visibility)]
    pub fn reads_visibility(self) -> (yes: bool)
        ensures
            yes == self.spec_reads_visibility(),
    {
        match self {
            Intent::Toggle => true,
            _ => false,
        }
    }
}

/// The actions to carry out, in order, and what to do when one fails.
#[derive(Clone, Debug, PartialEq, Eq)]
pub struct Plan {
    pub actions: Vec<WindowAction>,
    pub on_failure: FailurePolicy,
}

/// The model of a [`Plan`].
pub struct PlanView {
    pub actions: Seq<WindowAction>,
    pub on_failure: FailurePolicy,
}

impl View for Plan {
    type V = PlanView;

    open spec fn view(&self) -> PlanView {
        PlanView { actions: self.actions@, on_failure: self.on_failure }
    }
}

/// The primary window was wanted and is not there: a fault in the set-up,
/// which the caller is to hand on and not to swallow.
#[derive(Clone, Copy, Debug, PartialEq, Eq)]
pub struct MissingPrimaryWindow;

/// The actions that an intent asks of a window that is there.
pub open spec fn actions_on_present(intent: Intent, visible: bool) -> Seq<WindowAction> {
    match intent {
        Intent::Show => seq![WindowAction::Show, WindowAction::Focus],
        Intent::Hide => seq![WindowAction::Hide],
        Intent::Toggle => if visible {
            seq![WindowAction::Hide]
        } else {
            seq![WindowAction::Show, WindowAction::Focus]
        },
        Intent::Raise => seq![WindowAction::Show, WindowAction::Focus, WindowAction::Unminimize],
    }
}

/// The plan for an intent, given what the look-up of the primary window
/// gave. To raise the window is best effort: with no window there is
/// nothing to do, and a failing action is passed over. Every other intent
/// needs the window: without it there is no plan, and a failing action is
/// handed on.
pub open spec fn plan_of(intent: Intent, window: PrimaryWindow) -> Result<
    PlanView,
    MissingPrimaryWindow,
> {
    match intent {
        Intent::Raise => Ok(
            PlanView {
                actions: match window {
                    PrimaryWindow::Absent => seq![],
                    PrimaryWindow::Present { visible } => actions_on_present(intent, visible),
                },
                on_failure: FailurePolicy::Ignore,
            },
        ),
        _ => match window {
            PrimaryWindow::Absent => Err(MissingPrimaryWindow),
            PrimaryWindow::Present { visible } => Ok(
                PlanView {
                    actions: actions_on_present(intent, visible),
                    on_failure: FailurePolicy::Propagate,
                },
            ),
        },
    }
}

fn present_actions(intent: Intent, visible: bool) -> (actions: Vec<WindowAction>)
    ensures
        actions@ == actions_on_present(intent, visible),
{
    let mut actions: Vec<WindowAction> = Vec::new();
    match intent {
        Intent::Show => {
            actions.push(WindowAction::Show);
            actions.push(WindowAction::Focus);
        },
        Intent::Hide => {
            actions.push(WindowAction::Hide);
        },
        Intent::Toggle => {
            if visible {
                actions.push(WindowAction::Hide);
            } else {
                actions.push(WindowAction::Show);
                actions.push(WindowAction::Focus);
            }
        },
        Intent::Raise => {
            actions.push(WindowAction::Show);
            actions.push(WindowAction::Focus);
            actions.push(WindowAction::Unminimize);
        },
    }
    assert(actions@ =~= actions_on_present(intent, visible));
    actions
}

/// Plans what to do to the primary window.
pub fn plan(intent: Intent, window: PrimaryWindow) -> (r: Result<Plan, MissingPrimaryWindow>)
    ensures
        match r {
            Ok(plan) => plan_of(intent, window) == Ok::<PlanView, MissingPrimaryWindow>(plan@),
            Err(missing) => plan_of(intent, window) == Err::<PlanView, MissingPrimaryWindow>(
                missing,
            ),
        },
{
    match intent {
        Intent::Raise => {
            let actions = match window {
                PrimaryWindow::Absent => Vec::new(),
                PrimaryWindow::Present { visible } => present_actions(intent, visible),
            };
            Ok(Plan { actions, on_failure: FailurePolicy::Ignore })
        },
        _ => match window {
            PrimaryWindow::Absent => Err(MissingPrimaryWindow),
            PrimaryWindow::Present { visible } => Ok(
                Plan {
                    actions: present_actions(intent, visible),
                    on_failure: FailurePolicy::Propagate,
                },
            ),
        },
    }
}

/// The plan for the launch of a second instance: show, focus and
/// unminimize the primary window, each as far as it goes. There is always a
/// plan; without a window it is empty.
pub fn second_instance_plan(window: PrimaryWindow) -> (plan: Plan)
    ensures
        plan_of(Intent::Raise, window) == Ok::<PlanView, MissingPrimaryWindow>(plan@),
        plan.on_failure == FailurePolicy::Ignore,
        window is Absent ==> plan.actions@.len() == 0,
{
    match plan(Intent::Raise, window) {
        Ok(plan) => plan,
        Err(_) => Plan { actions: Vec::new(), on_failure: FailurePolicy::Ignore },
    }
}

/// What is known of a window that exists: the visibility contract that the
/// plans are written against.
pub struct WindowStatus {
    pub visible: bool,
    pub focused: bool,
    pub minimized: bool,
}

/// What an action does to a window.
pub open spec fn perform(action: WindowAction, status: WindowStatus) -> WindowStatus {
    match action {
        WindowAction::Show => WindowStatus { visible: true, ..status },
        WindowAction::Hide => WindowStatus { visible: false, ..status },
        WindowAction::Focus => WindowStatus { focused: true, ..status },
        WindowAction::Unminimize => WindowStatus { minimized: false, ..status },
    }
}

/// What a run of actions does to a window, first to last.
pub open spec fn perform_all(actions: Seq<WindowAction>, status: WindowStatus) -> WindowStatus
    decreases actions.len(),
{
    if actions.len() == 0 {
        status
    } else {
        perform_all(actions.skip(1), perform(actions[0], status))
    }
}

/// What a look-up finds of a window in this status.
pub open spec fn seen(status: WindowStatus) -> PrimaryWindow {
    PrimaryWindow::Present { visible: status.visible }
}

/// What a plan does to a window: nothing where there is no plan.
pub open spec fn outcome(intent: Intent, status: WindowStatus) -> WindowStatus {
    match plan_of(intent, seen(status)) {
        Ok(plan) => perform_all(plan.actions, status),
        Err(_) => status,
    }
}

proof fn lemma_perform_one(a: WindowAction, status: WindowStatus)
    ensures
        perform_all(seq![a], status) == perform(a, status),
{
    reveal_with_fuel(perform_all, 2);
    assert(seq![a].skip(1) =~= Seq::<WindowAction>::empty());
}

proof fn lemma_perform_two(a: WindowAction, b: WindowAction, status: WindowStatus)
    ensures
        perform_all(seq![a, b], status) == perform(b, perform(a, status)),
{
    assert(seq![a, b].skip(1) =~= seq![b]);
    lemma_perform_one(b, perform(a, status));
}

proof fn lemma_perform_three(
    a: WindowAction,
    b: WindowAction,
    c: WindowAction,
    status: WindowStatus,
)
    ensures
        perform_all(seq![a, b, c], status) == perform(c, perform(b, perform(a, status))),
{
    assert(seq![a, b, c].skip(1) =~= seq![b, c]);
    lemma_perform_two(b, c, perform(a, status));
}

/// A click with the left button on the tray icon toggles the primary
/// window: a visible window is hidden, a hidden one is shown and focused.
pub proof fn law_left_click_toggles(status: WindowStatus)
    ensures
        command_of_tray_event(TrayEvent::Click { button: MouseButton::Left }) == Command::Window(
            Intent::Toggle,
        ),
        plan_of(Intent::Toggle, seen(status)) is Ok,
        outcome(Intent::Toggle, status).visible == !status.visible,
        !status.visible ==> outcome(Intent::Toggle, status).focused,
        outcome(Intent::Toggle, outcome(Intent::Toggle, status)).visible == status.visible,
{
    lemma_perform_one(WindowAction::Hide, status);
    lemma_perform_two(WindowAction::Show, WindowAction::Focus, status);
    let once = outcome(Intent::Toggle, status);
    lemma_perform_one(WindowAction::Hide, once);
    lemma_perform_two(WindowAction::Show, WindowAction::Focus, once);
}

/// Of all tray events only the click with the left button asks for
/// anything.
pub proof fn law_other_tray_events_are_ignored(event: TrayEvent)
    ensures
        command_of_tray_event(event) != Command::Ignore <==> event == (TrayEvent::Click {
            button: MouseButton::Left,
        }),
{
}

/// The entries of the tray menu are the ones that are routed: `show` shows
/// and focuses, `hide` hides, `quit` ends the process with code 0.
pub proof fn law_menu_entries_are_routed()
    ensures
        tray_menu().len() == 4,
        tray_menu()[0] matches MenuEntry::Item { id, .. } && command_of_menu_id(id@)
            == Command::Window(Intent::Show),
        tray_menu()[1] matches MenuEntry::Item { id, .. } && command_of_menu_id(id@)
            == Command::Window(Intent::Hide),
        tray_menu()[2] is Separator,
        tray_menu()[3] matches MenuEntry::Item { id, .. } && command_of_menu_id(id@)
            == (Command::Exit { code: 0 }),
{
    reveal_strlit("show");
    reveal_strlit("hide");
    reveal_strlit("quit");
    assert("show"@[0] == 's' && "hide"@[0] == 'h' && "quit"@[0] == 'q');
}

/// On a window that is there, the menu's `show` leaves it visible and
/// focused and its `hide` leaves it invisible, whatever it was before; a
/// failing action is handed on.
pub proof fn law_menu_show_and_hide(status: WindowStatus)
    ensures
        plan_of(Intent::Show, seen(status)) matches Ok(plan) && plan.on_failure
            == FailurePolicy::Propagate,
        plan_of(Intent::Hide, seen(status)) matches Ok(plan) && plan.on_failure
            == FailurePolicy::Propagate,
        outcome(Intent::Show, status).visible,
        outcome(Intent::Show, status).focused,
        !outcome(Intent::Hide, status).visible,
{
    lemma_perform_one(WindowAction::Hide, status);
    lemma_perform_two(WindowAction::Show, WindowAction::Focus, status);
}

/// To show a window that is shown, or to hide one that is hidden, is
/// accepted and changes nothing.
pub proof fn law_show_and_hide_are_idempotent(status: WindowStatus)
    ensures
        status.visible ==> perform(WindowAction::Show, status) == status,
        !status.visible ==> perform(WindowAction::Hide, status) == status,
        perform(WindowAction::Show, perform(WindowAction::Show, status)) == perform(
            WindowAction::Show,
            status,
        ),
        perform(WindowAction::Hide, perform(WindowAction::Hide, status)) == perform(
            WindowAction::Hide,
            status,
        ),
{
}

/// Without a primary window, a second launch is no fault and does nothing;
/// every other intent has no plan.
pub proof fn law_absent_window(intent: Intent)
    ensures
        plan_of(Intent::Raise, PrimaryWindow::Absent) == Ok::<PlanView, MissingPrimaryWindow>(
            PlanView { actions: seq![], on_failure: FailurePolicy::Ignore },
        ),
        intent != Intent::Raise ==> plan_of(intent, PrimaryWindow::Absent) is Err,
{
}

/// With a window, a second launch leaves it visible, focused and not
/// minimized; a failing action is passed over.
pub proof fn law_second_instance_raises(status: WindowStatus)
    ensures
        plan_of(Intent::Raise, seen(status)) matches Ok(plan) && plan.on_failure
            == FailurePolicy::Ignore,
        outcome(Intent::Raise, status) == (WindowStatus {
            visible: true,
            focused: true,
            minimized: false,
        }),
{
    lemma_perform_three(
        WindowAction::Show,
        WindowAction::Focus,
        WindowAction::Unminimize,
        status,
    );
}

/// Only the toggle looks at whether the window is visible.
pub proof fn law_visibility_matters_to_toggle_only(intent: Intent)
    ensures
        !intent.spec_reads_visibility() ==> plan_of(
            intent,
            PrimaryWindow::Present { visible: false },
        ) == plan_of(intent, PrimaryWindow::Present { visible: true }),
        intent.spec_reads_visibility() ==> plan_of(
            intent,
            PrimaryWindow::Present { visible: false },
        ) != plan_of(intent, PrimaryWindow::Present { visible: true }),
{
    if intent.spec_reads_visibility() {
        let hidden = plan_of(intent, PrimaryWindow::Present { visible: false });
        let visible = plan_of(intent, PrimaryWindow::Present { visible: true });
        assert(hidden->Ok_0.actions.len() == 2);
        assert(visible->Ok_0.actions.len() == 1);
    }
}

} // verus!
