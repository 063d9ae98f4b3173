use clipboardpro::clipboard::{monitor_clipboard_changes, write_clipboard, ClipboardMonitor, ClipboardStruct};

#[test]
fn first_read_is_reported() {
    let mut monitor = ClipboardMonitor::new();
    let change = monitor.observe("hello".to_string(), 5);
    assert_eq!(change, Some(ClipboardStruct { id: 1, content: "hello".to_string(), created: 5 }));
}

#[test]
fn same_text_is_reported_once() {
    let mut monitor = ClipboardMonitor::new();
    assert!(monitor.observe("abc".to_string(), 1).is_some());
    assert_eq!(monitor.observe("abc".to_string(), 2), None);
    assert_eq!(monitor.observe("abc".to_string(), 3), None);
}

#[test]
fn changed_text_is_reported_again() {
    let mut monitor = ClipboardMonitor::new();
    assert!(monitor.observe("one".to_string(), 1).is_some());
    let change = monitor.observe("two".to_string(), 9).unwrap();
    assert_eq!(change.id, 1);
    assert_eq!(change.content, "two");
    assert_eq!(change.created, 9);
    assert!(monitor.observe("one".to_string(), 10).is_some());
}

#[test]
fn empty_text_is_a_change_at_first() {
    let mut monitor = ClipboardMonitor::new();
    assert_eq!(
        monitor.observe(String::new(), 0),
        Some(ClipboardStruct { id: 1, content: String::new(), created: 0 })
    );
    assert_eq!(monitor.observe(String::new(), 1), None);
}

#[test]
fn own_write_is_not_reported() {
    let mut monitor = ClipboardMonitor::new();
    assert_eq!(write_clipboard(&mut monitor, "copied"), Some(200));
    assert_eq!(monitor.observe("copied".to_string(), 4), None);
    assert!(monitor.observe("other".to_string(), 5).is_some());
}

#[test]
fn write_replaces_the_remembered_text() {
    let mut monitor = ClipboardMonitor::new();
    assert!(monitor.observe("first".to_string(), 1).is_some());
    write_clipboard(&mut monitor, "second");
    assert!(monitor.observe("first".to_string(), 2).is_some());
}

#[test]
fn failed_read_is_passed_on() {
    let mut monitor = ClipboardMonitor::new();
    let result = monitor_clipboard_changes(&mut monitor, Err("clipboard unavailable".to_string()), 3);
    assert_eq!(result, Err("clipboard unavailable".to_string()));
    assert!(monitor.observe("x".to_string(), 1).is_some());
}

#[test]
fn successful_read_is_stamped_with_the_read_time() {
    let mut monitor = ClipboardMonitor::new();
    let change = monitor_clipboard_changes(&mut monitor, Ok("text".to_string()), 1_700_000_000_123)
        .unwrap()
        .unwrap();
    assert_eq!(change.id, 1);
    assert_eq!(change.content, "text");
    assert_eq!(change.created, 1_700_000_000_123);
    assert_eq!(monitor_clipboard_changes(&mut monitor, Ok("text".to_string()), 5), Ok(None));
}
