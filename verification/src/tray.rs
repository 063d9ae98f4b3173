//! Tray icon behaviour: the menu it offers on each platform and how it
//! answers menu choices and clicks on the icon.
//!
//! "Open" hides the main window when it is visible and brings it up
//! otherwise; "Quit" ends the program; anything else is ignored.

use vstd::prelude::*;

verus! {

/// The platforms with a tray of their own.
#[derive(Debug, Clone, Copy, PartialEq, Eq, Structural)]
pub enum TrayPlatform {
    Linux,
    Mac,
}

/// One operation on the main window.
#[derive(Debug, Clone, Copy, PartialEq, Eq, Structural)]
pub enum WindowOp {
    /// Place the window under the tray icon.
    MoveToTrayBottomCenter,
    Show,
    Focus,
    /// Give the window its title bar and borders.
    EnableDecorations,
    Hide,
}

/// The main window as the tray sees it.
#[derive(Debug, Clone, Copy, PartialEq, Eq, Structural)]
pub enum MainWindow {
    /// There is no main window.
    Absent,
    /// There is one; `visible` is `None` where its visibility could not be read.
    Present { visible: Option<bool> },
}

/// What the program does in answer to a tray event.
#[derive(Debug, PartialEq, Eq)]
pub enum TrayResponse {
    /// End the program with this exit code.
    Exit(i32),
    /// Apply these operations to the main window, in order.
    Window(Vec<WindowOp>),
    /// Nothing but a log line.
    Unhandled,
}

/// Mathematical value of a [`TrayResponse`].
pub enum Response {
    Exit(i32),
    Window(Seq<WindowOp>),
    Unhandled,
}

pub open spec fn response_view(r: TrayResponse) -> Response {
    match r {
        TrayResponse::Exit(code) => Response::Exit(code),
        TrayResponse::Window(ops) => Response::Window(ops@),
        TrayResponse::Unhandled => Response::Unhandled,
    }
}

/// An entry of the tray menu.
#[derive(Debug, PartialEq, Eq)]
pub struct MenuEntry {
    pub id: String,
    pub label: String,
}

pub open spec fn entry_pairs(entries: Seq<MenuEntry>) -> Seq<(Seq<char>, Seq<char>)> {
    entries.map_values(|e: MenuEntry| (e.id@, e.label@))
}

/// The entries of the tray menu, as (identifier, label) pairs in order.
pub open spec fn menu_spec(platform: TrayPlatform) -> Seq<(Seq<char>, Seq<char>)> {
    match platform {
        TrayPlatform::Linux => seq![("open"@, "Open"@)],
        TrayPlatform::Mac => seq![("open"@, "Open"@), ("quit"@, "Quit"@)],
    }
}

/// A window whose visibility cannot be read is taken to be hidden.
pub open spec fn seen_visible(visible: Option<bool>) -> bool {
    visible == Some(true)
}

/// The operations that toggle the main window.
pub open spec fn toggle_spec(platform: TrayPlatform, visible: Option<bool>) -> Seq<WindowOp> {
    if seen_visible(visible) {
        seq![WindowOp::Hide]
    } else {
        match platform {
            TrayPlatform::Linux => seq![WindowOp::Show, WindowOp::Focus, WindowOp::EnableDecorations],
            TrayPlatform::Mac => seq![WindowOp::MoveToTrayBottomCenter, WindowOp::Show, WindowOp::Focus],
        }
    }
}

pub open spec fn window_ops_spec(platform: TrayPlatform, window: MainWindow) -> Seq<WindowOp> {
    match window {
        MainWindow::Absent => Seq::empty(),
        MainWindow::Present { visible } => toggle_spec(platform, visible),
    }
}

/// The answer to the menu entry `id`.
pub open spec fn menu_response_spec(platform: TrayPlatform, id: Seq<char>, window: MainWindow) -> Response {
    if id == "quit"@ {
        Response::Exit(0)
    } else if id == "open"@ {
        Response::Window(window_ops_spec(platform, window))
    } else {
        Response::Unhandled
    }
}

/// The answer to a click on the tray icon: releasing the left button
/// toggles the window, under the icon.
pub open spec fn click_response_spec(left_button: bool, released: bool, window: MainWindow) -> Response {
    if left_button && released {
        Response::Window(window_ops_spec(TrayPlatform::Mac, window))
    } else {
        Response::Unhandled
    }
}

/// Whether the window is visible after `ops`, starting from `visible`.
pub open spec fn visible_after(ops: Seq<WindowOp>, visible: bool) -> bool
    decreases ops.len(),
{
    if ops.len() == 0 {
        visible
    } else {
        let before = visible_after(ops.drop_last(), visible);
        match ops.last() {
            WindowOp::Show => true,
            WindowOp::Hide => false,
            _ => before,
        }
    }
}

fn toggle_window(platform: &TrayPlatform, visible: Option<bool>) -> (ops: Vec<WindowOp>)
    ensures
        ops@ == toggle_spec(*platform, visible),
{
    let shown = match visible {
        Some(v) => v,
        None => false,
    };
    let mut ops: Vec<WindowOp> = Vec::new();
    if shown {
        ops.push(WindowOp::Hide);
    } else {
        match platform {
            TrayPlatform::Linux => {
                ops.push(WindowOp::Show);
                ops.push(WindowOp::Focus);
                ops.push(WindowOp::EnableDecorations);
            },
            TrayPlatform::Mac => {
                ops.push(WindowOp::MoveToTrayBottomCenter);
                ops.push(WindowOp::Show);
                ops.push(WindowOp::Focus);
            },
        }
    }
    assert(ops@ =~= toggle_spec(*platform, visible));
    ops
}

fn window_ops(platform: &TrayPlatform, window: &MainWindow) -> (ops: Vec<WindowOp>)
    ensures
        ops@ == window_ops_spec(*platform, *window),
{
    match window {
        MainWindow::Absent => {
            let ops: Vec<WindowOp> = Vec::new();
            assert(ops@ =~= Seq::<WindowOp>::empty());
            ops
        },
        MainWindow::Present { visible } => toggle_window(platform, *visible),
    }
}

/// The entries of the tray menu on `platform`.
pub fn tray_menu(platform: &TrayPlatform) -> (entries: Vec<MenuEntry>)
    ensures
        entry_pairs(entries@) == menu_spec(*platform),
{
    let mut entries: Vec<MenuEntry> = Vec::new();
    entries.push(MenuEntry { id: String::from_str("open"), label: String::from_str("Open") });
    if let TrayPlatform::Mac = platform {
        entries.push(MenuEntry { id: String::from_str("quit"), label: String::from_str("Quit") });
    }
    assert(entry_pairs(entries@) =~= menu_spec(*platform));
    entries
}

/// Whether a left click on the icon opens the menu.
pub fn menu_on_left_click(platform: &TrayPlatform) -> (opens: bool)
    ensures
        opens == (*platform is Linux),
{
    match platform {
        TrayPlatform::Linux => true,
        TrayPlatform::Mac => false,
    }
}

/// The answer to the choice of the menu entry `id`.
pub fn menu_event_response(platform: &TrayPlatform, id: &str, window: &MainWindow) -> (response:
    TrayResponse)
    ensures
        response_view(response) == menu_response_spec(*platform, id@, *window),
{
    let chosen = id.to_owned();
    if chosen == String::from_str("quit") {
        TrayResponse::Exit(0)
    } else if chosen == String::from_str("open") {
        TrayResponse::Window(window_ops(platform, window))
    } else {
        TrayResponse::Unhandled
    }
}

/// The answer to a click on the tray icon with the given button and state.
pub fn tray_click_response(left_button: bool, released: bool, window: &MainWindow) -> (response:
    TrayResponse)
    ensures
        response_view(response) == click_response_spec(left_button, released, *window),
{
    if left_button && released {
        TrayResponse::Window(window_ops(&TrayPlatform::Mac, window))
    } else {
        TrayResponse::Unhandled
    }
}

proof fn lemma_menu_ids_differ()
    ensures
        "open"@ != "quit"@,
{
    reveal_strlit("open");
    reveal_strlit("quit");
    assert("open"@[0] != "quit"@[0]);
}

/// Choosing "Open" flips the visibility of a present window whose visibility
/// could be read.
pub proof fn lemma_open_toggles_visibility(platform: TrayPlatform, visible: bool)
    ensures
        menu_response_spec(platform, "open"@, MainWindow::Present { visible: Some(visible) })
            == Response::Window(toggle_spec(platform, Some(visible))),
        visible_after(toggle_spec(platform, Some(visible)), visible) == !visible,
{
    lemma_menu_ids_differ();
    let ops = toggle_spec(platform, Some(visible));
    reveal_with_fuel(visible_after, 4);
    if !visible {
        assert(ops.drop_last().drop_last().drop_last() =~= Seq::<WindowOp>::empty());
    } else {
        assert(ops.drop_last() =~= Seq::<WindowOp>::empty());
    }
}

/// A window whose visibility could not be read is brought up.
pub proof fn lemma_unreadable_window_is_shown(platform: TrayPlatform)
    ensures
        visible_after(toggle_spec(platform, None), false),
{
    let ops = toggle_spec(platform, None);
    reveal_with_fuel(visible_after, 4);
    assert(ops.drop_last().drop_last().drop_last() =~= Seq::<WindowOp>::empty());
}

/// Without a main window, "Open" and clicks do nothing to a window.
pub proof fn lemma_absent_window_untouched(platform: TrayPlatform, left_button: bool, released: bool)
    ensures
        menu_response_spec(platform, "open"@, MainWindow::Absent) == Response::Window(Seq::empty()),
        click_response_spec(left_button, released, MainWindow::Absent) is Window ==> click_response_spec(
            left_button,
            released,
            MainWindow::Absent,
        ) == Response::Window(Seq::empty()),
{
    lemma_menu_ids_differ();
}

/// Choosing "Quit" ends the program with exit code 0, on every platform and
/// whatever the state of the main window.
pub proof fn lemma_quit_always_exits(platform: TrayPlatform, window: MainWindow)
    ensures
        menu_response_spec(platform, "quit"@, window) == Response::Exit(0),
{
}

/// Menu entries other than "Quit" and "Open" change nothing.
pub proof fn lemma_other_entries_ignored(platform: TrayPlatform, id: Seq<char>, window: MainWindow)
    requires
        id != "quit"@,
        id != "open"@,
    ensures
        menu_response_spec(platform, id, window) == Response::Unhandled,
{
}

/// Choosing "Open" while the main window is visible hides it and does
/// nothing else, on every platform.
pub proof fn lemma_open_hides_visible_window(platform: TrayPlatform)
    ensures
        menu_response_spec(platform, "open"@, MainWindow::Present { visible: Some(true) })
            == Response::Window(seq![WindowOp::Hide]),
{
    lemma_menu_ids_differ();
}

/// Choosing "Open" while the main window is hidden, or its visibility is
/// unknown, brings it up and focuses it, and never hides it.
pub proof fn lemma_open_brings_up_hidden_window(platform: TrayPlatform, visible: Option<bool>)
    requires
        visible != Some(true),
    ensures
        menu_response_spec(platform, "open"@, MainWindow::Present { visible }) matches Response::Window(
            ops,
        ) && visible_after(ops, false) && ops.contains(WindowOp::Show) && ops.contains(WindowOp::Focus)
            && !ops.contains(WindowOp::Hide),
{
    lemma_menu_ids_differ();
    let ops = toggle_spec(platform, visible);
    reveal_with_fuel(visible_after, 4);
    assert(ops.drop_last().drop_last().drop_last() =~= Seq::<WindowOp>::empty());
    match platform {
        TrayPlatform::Linux => {
            assert(ops[0] == WindowOp::Show);
            assert(ops[1] == WindowOp::Focus);
        },
        TrayPlatform::Mac => {
            assert(ops[1] == WindowOp::Show);
            assert(ops[2] == WindowOp::Focus);
        },
    }
}

/// A click on the tray icon acts only when it is a release of the left
/// button, and then acts as choosing "Open" in the macOS menu does; every
/// other click is ignored.
pub proof fn lemma_click_acts_only_on_left_release(left_button: bool, released: bool, window: MainWindow)
    ensures
        !(left_button && released) ==> click_response_spec(left_button, released, window)
            == Response::Unhandled,
        left_button && released ==> click_response_spec(left_button, released, window)
            == menu_response_spec(TrayPlatform::Mac, "open"@, window),
{
    lemma_menu_ids_differ();
}

/// Every tray menu begins with "Open"; the "Quit" entry is offered on macOS
/// and only there.
pub proof fn lemma_menu_entries(platform: TrayPlatform)
    ensures
        menu_spec(platform).len() >= 1,
        menu_spec(platform)[0] == ("open"@, "Open"@),
        (platform is Mac) <==> menu_spec(platform).contains(("quit"@, "Quit"@)),
{
    lemma_menu_ids_differ();
    match platform {
        TrayPlatform::Linux => {
            assert(menu_spec(platform)[0] != ("quit"@, "Quit"@));
        },
        TrayPlatform::Mac => {
            assert(menu_spec(platform)[1] == ("quit"@, "Quit"@));
        },
    }
}

} // verus!
