use clipboardpro::tray::{
    menu_event_response, menu_on_left_click, tray_click_response, tray_menu, MainWindow, MenuEntry,
    TrayPlatform, TrayResponse, WindowOp,
};

fn entry(id: &str, label: &str) -> MenuEntry {
    MenuEntry { id: id.to_string(), label: label.to_string() }
}

#[test]
fn linux_menu_has_open_only() {
    assert_eq!(tray_menu(&TrayPlatform::Linux), vec![entry("open", "Open")]);
    assert!(menu_on_left_click(&TrayPlatform::Linux));
}

#[test]
fn mac_menu_has_open_and_quit() {
    assert_eq!(tray_menu(&TrayPlatform::Mac), vec![entry("open", "Open"), entry("quit", "Quit")]);
    assert!(!menu_on_left_click(&TrayPlatform::Mac));
}

#[test]
fn quit_exits_with_zero() {
    let window = MainWindow::Present { visible: Some(true) };
    assert_eq!(menu_event_response(&TrayPlatform::Linux, "quit", &window), TrayResponse::Exit(0));
    assert_eq!(menu_event_response(&TrayPlatform::Mac, "quit", &window), TrayResponse::Exit(0));
}

#[test]
fn open_hides_a_visible_window() {
    let window = MainWindow::Present { visible: Some(true) };
    assert_eq!(
        menu_event_response(&TrayPlatform::Linux, "open", &window),
        TrayResponse::Window(vec![WindowOp::Hide])
    );
    assert_eq!(
        menu_event_response(&TrayPlatform::Mac, "open", &window),
        TrayResponse::Window(vec![WindowOp::Hide])
    );
}

#[test]
fn open_shows_a_hidden_window() {
    let window = MainWindow::Present { visible: Some(false) };
    assert_eq!(
        menu_event_response(&TrayPlatform::Linux, "open", &window),
        TrayResponse::Window(vec![WindowOp::Show, WindowOp::Focus, WindowOp::EnableDecorations])
    );
    assert_eq!(
        menu_event_response(&TrayPlatform::Mac, "open", &window),
        TrayResponse::Window(vec![WindowOp::MoveToTrayBottomCenter, WindowOp::Show, WindowOp::Focus])
    );
}

#[test]
fn unreadable_visibility_counts_as_hidden() {
    let window = MainWindow::Present { visible: None };
    assert_eq!(
        menu_event_response(&TrayPlatform::Linux, "open", &window),
        TrayResponse::Window(vec![WindowOp::Show, WindowOp::Focus, WindowOp::EnableDecorations])
    );
}

#[test]
fn open_without_window_does_nothing() {
    assert_eq!(
        menu_event_response(&TrayPlatform::Mac, "open", &MainWindow::Absent),
        TrayResponse::Window(vec![])
    );
}

#[test]
fn other_menu_ids_are_ignored() {
    let window = MainWindow::Present { visible: Some(false) };
    assert_eq!(menu_event_response(&TrayPlatform::Linux, "settings", &window), TrayResponse::Unhandled);
    assert_eq!(menu_event_response(&TrayPlatform::Mac, "Open", &window), TrayResponse::Unhandled);
    assert_eq!(menu_event_response(&TrayPlatform::Mac, "", &window), TrayResponse::Unhandled);
}

#[test]
fn left_release_on_icon_toggles() {
    let hidden = MainWindow::Present { visible: Some(false) };
    assert_eq!(
        tray_click_response(true, true, &hidden),
        TrayResponse::Window(vec![WindowOp::MoveToTrayBottomCenter, WindowOp::Show, WindowOp::Focus])
    );
    let shown = MainWindow::Present { visible: Some(true) };
    assert_eq!(tray_click_response(true, true, &shown), TrayResponse::Window(vec![WindowOp::Hide]));
}

#[test]
fn other_clicks_are_ignored() {
    let hidden = MainWindow::Present { visible: Some(false) };
    assert_eq!(tray_click_response(true, false, &hidden), TrayResponse::Unhandled);
    assert_eq!(tray_click_response(false, true, &hidden), TrayResponse::Unhandled);
}
