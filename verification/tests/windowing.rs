use browser_chrome::{FilterOutcome, WindowRegistry};

/// A freshly opened window: count rises by one, the window holds exactly one
/// visible pane, and both chrome bars start empty.
#[test]
fn open_creates_window_with_one_visible_pane() {
    let mut reg = WindowRegistry::new();
    assert_eq!(reg.window_count(), 0);
    reg.open(None, FilterOutcome::Resolved);
    assert_eq!(reg.window_count(), 1);
    assert_eq!(reg.webview_count(0), 1);
    let pane = reg.webview(0, 0).expect("the initial pane exists");
    assert!(pane.visible);
    assert!(pane.filtered);
    assert_eq!(pane.uri, None);
    assert_eq!(reg.address_field_text(0), "");
    assert_eq!(reg.command_field_text(0), "");
    assert_eq!(reg.title(0), "webkitten");
    let w = reg.window_for_index(0).expect("window 0 exists");
    assert_eq!((w.origin_x, w.origin_y), (0, 0));
    assert_eq!((w.width, w.height), (700, 700));
    assert!(w.visible);
    assert!(w.focused);
}

/// Opening a second window makes it the key window and the first resigns.
#[test]
fn open_moves_focus_to_the_new_window() {
    let mut reg = WindowRegistry::new();
    reg.open(None, FilterOutcome::Resolved);
    reg.open(None, FilterOutcome::Resolved);
    assert_eq!(reg.window_count(), 2);
    assert!(!reg.window_for_index(0).unwrap().focused);
    assert!(reg.window_for_index(1).unwrap().focused);
    assert_eq!(reg.focused_index(), 1);
}

/// After a completed pane insertion, visibility is a strict single-true
/// vector: the new last pane is visible and every earlier pane is hidden.
#[test]
fn add_and_focus_leaves_exactly_one_visible_pane() {
    let mut reg = WindowRegistry::new();
    reg.open(None, FilterOutcome::Resolved);
    reg.add_and_focus_webview(0, FilterOutcome::Resolved, None);
    reg.add_and_focus_webview(0, FilterOutcome::Resolved, None);
    assert_eq!(reg.webview_count(0), 3);
    for i in 0..3 {
        assert_eq!(reg.webview(0, i).unwrap().visible, i == 2);
    }
    assert_eq!(reg.focused_webview_index(0), 2);
}

/// A failed content-filter lookup still creates the pane, just unfiltered.
#[test]
fn failed_filter_lookup_still_creates_a_pane() {
    let mut reg = WindowRegistry::new();
    reg.open(None, FilterOutcome::Failed);
    assert!(!reg.webview(0, 0).unwrap().filtered);
    reg.add_and_focus_webview(0, FilterOutcome::Resolved, None);
    assert!(reg.webview(0, 1).unwrap().filtered);
}

/// `open_webview` records the requested address on the new, sole visible pane.
#[test]
fn open_webview_records_the_requested_address() {
    let mut reg = WindowRegistry::new();
    reg.open(None, FilterOutcome::Resolved);
    reg.open_webview(0, "https://example.net/a", FilterOutcome::Resolved);
    assert_eq!(reg.webview_count(0), 2);
    let pane = reg.webview(0, 1).unwrap();
    assert!(pane.visible);
    assert_eq!(pane.uri.as_deref(), Some("https://example.net/a"));
    assert!(!reg.webview(0, 0).unwrap().visible);
}

/// An address handed to `open` lands on the first window's initial pane.
#[test]
fn open_records_the_initial_address() {
    let mut reg = WindowRegistry::new();
    reg.open(Some("https://example.net"), FilterOutcome::Resolved);
    let pane = reg.webview(0, 0).unwrap();
    assert_eq!(pane.uri.as_deref(), Some("https://example.net"));
}

/// Focusing a pane in range makes exactly it visible and reads back as the
/// focused index.
#[test]
fn focus_webview_in_range_reads_back() {
    let mut reg = WindowRegistry::new();
    reg.open(None, FilterOutcome::Resolved);
    reg.add_and_focus_webview(0, FilterOutcome::Resolved, None);
    reg.add_and_focus_webview(0, FilterOutcome::Resolved, None);
    reg.focus_webview(0, 1);
    assert!(!reg.webview(0, 0).unwrap().visible);
    assert!(reg.webview(0, 1).unwrap().visible);
    assert!(!reg.webview(0, 2).unwrap().visible);
    assert_eq!(reg.focused_webview_index(0), 1);
}

/// Focusing an out-of-range pane index hides every pane, and the focused
/// index then reports the documented fallback 0 even though no pane is
/// actually visible — a known discrepancy this layer keeps deliberately.
#[test]
fn focus_webview_out_of_range_hides_all_and_falls_back_to_zero() {
    let mut reg = WindowRegistry::new();
    reg.open(None, FilterOutcome::Resolved);
    reg.add_and_focus_webview(0, FilterOutcome::Resolved, None);
    reg.focus_webview(0, 9);
    assert!(!reg.webview(0, 0).unwrap().visible);
    assert!(!reg.webview(0, 1).unwrap().visible);
    assert_eq!(reg.focused_webview_index(0), 0);
}

/// Scenario: one window, two insertions, then removal of the hidden first
/// pane — the remaining pane keeps its visibility, untouched by the removal.
#[test]
fn remove_of_hidden_pane_keeps_visible_pane() {
    let mut reg = WindowRegistry::new();
    reg.open(None, FilterOutcome::Resolved);
    assert_eq!(reg.window_count(), 1);
    assert_eq!(reg.webview_count(0), 1);
    reg.add_and_focus_webview(0, FilterOutcome::Resolved, None);
    assert_eq!(reg.webview_count(0), 2);
    assert!(reg.webview(0, 1).unwrap().visible);
    assert!(!reg.webview(0, 0).unwrap().visible);
    reg.close_webview(0, 0);
    assert_eq!(reg.webview_count(0), 1);
    assert!(reg.webview(0, 0).unwrap().visible);
}

/// Removing the visible pane reassigns nothing: the window is left with no
/// visible pane at all, and the focused index falls back to 0.
#[test]
fn remove_of_visible_pane_leaves_none_visible() {
    let mut reg = WindowRegistry::new();
    reg.open(None, FilterOutcome::Resolved);
    reg.add_and_focus_webview(0, FilterOutcome::Resolved, None);
    reg.close_webview(0, 1);
    assert_eq!(reg.webview_count(0), 1);
    assert!(!reg.webview(0, 0).unwrap().visible);
    assert_eq!(reg.focused_webview_index(0), 0);
}

/// An out-of-range pane removal changes nothing.
#[test]
fn close_webview_out_of_range_is_a_noop() {
    let mut reg = WindowRegistry::new();
    reg.open(None, FilterOutcome::Resolved);
    reg.close_webview(0, 5);
    assert_eq!(reg.webview_count(0), 1);
    assert!(reg.webview(0, 0).unwrap().visible);
}

/// Scenario: closing the only window empties the registry; focusing or
/// retitling afterwards is a silent no-op, and accessors give defaults.
#[test]
fn close_then_stale_operations_degrade_silently() {
    let mut reg = WindowRegistry::new();
    reg.open(None, FilterOutcome::Resolved);
    reg.close(0);
    assert_eq!(reg.window_count(), 0);
    reg.focus(0);
    reg.set_title(0, "ghost");
    assert_eq!(reg.window_count(), 0);
    assert_eq!(reg.title(0), "");
    assert_eq!(reg.focused_webview_index(0), 0);
    assert_eq!(reg.webview_count(0), 0);
}

/// Closing a window shifts every later window down by one index.
#[test]
fn close_shifts_later_windows_down() {
    let mut reg = WindowRegistry::new();
    reg.open(None, FilterOutcome::Resolved);
    reg.open(None, FilterOutcome::Resolved);
    reg.set_title(0, "first");
    reg.set_title(1, "second");
    reg.close(0);
    assert_eq!(reg.window_count(), 1);
    assert_eq!(reg.title(0), "second");
}

/// Every accessor on a stale window index returns its documented default, and
/// every mutator is a no-op with no observable change.
#[test]
fn stale_window_index_gives_defaults_and_noops() {
    let mut reg = WindowRegistry::new();
    reg.open(None, FilterOutcome::Resolved);
    reg.set_title(0, "kept");
    assert_eq!(reg.title(3), "");
    assert_eq!(reg.address_field_text(3), "");
    assert_eq!(reg.command_field_text(3), "");
    assert_eq!(reg.webview_count(3), 0);
    assert_eq!(reg.focused_webview_index(3), 0);
    assert!(reg.webview(3, 0).is_none());
    assert!(reg.window_for_index(3).is_none());
    reg.set_title(3, "x");
    reg.resize(3, 1, 1);
    reg.toggle(3, false);
    reg.focus(3);
    reg.set_address_field_text(3, "x");
    reg.set_command_field_text(3, "x");
    reg.add_and_focus_webview(3, FilterOutcome::Resolved, None);
    reg.close_webview(3, 0);
    reg.close(3);
    assert_eq!(reg.window_count(), 1);
    assert_eq!(reg.title(0), "kept");
    assert_eq!(reg.webview_count(0), 1);
}

/// Titles round-trip for any UTF-8 text: plain, empty, and multi-byte.
#[test]
fn set_title_round_trips_utf8() {
    let mut reg = WindowRegistry::new();
    reg.open(None, FilterOutcome::Resolved);
    reg.set_title(0, "X");
    assert_eq!(reg.title(0), "X");
    reg.set_title(0, "");
    assert_eq!(reg.title(0), "");
    reg.set_title(0, "näyttö — 窓");
    assert_eq!(reg.title(0), "näyttö — 窓");
}

/// A resize replaces the size exactly and preserves the prior origin.
#[test]
fn resize_sets_size_and_keeps_origin() {
    let mut reg = WindowRegistry::new();
    reg.open(None, FilterOutcome::Resolved);
    reg.resize(0, 1024, 768);
    let w = reg.window_for_index(0).unwrap();
    assert_eq!((w.width, w.height), (1024, 768));
    assert_eq!((w.origin_x, w.origin_y), (0, 0));
    assert_eq!(reg.title(0), "webkitten");
}

/// Hiding a window keeps it alive but takes it off screen and out of key
/// status; showing it again brings it back to the front with focus.
#[test]
fn toggle_hides_and_shows_without_destroying() {
    let mut reg = WindowRegistry::new();
    reg.open(None, FilterOutcome::Resolved);
    reg.toggle(0, false);
    assert_eq!(reg.window_count(), 1);
    let w = reg.window_for_index(0).unwrap();
    assert!(!w.visible);
    assert!(!w.focused);
    reg.toggle(0, true);
    let w = reg.window_for_index(0).unwrap();
    assert!(w.visible);
    assert!(w.focused);
}

/// Focusing a window makes it key and every other window resigns; the
/// focused index scan reports the first key window, falling back to 0 when
/// none is key.
#[test]
fn focus_is_exclusive_and_scan_falls_back_to_zero() {
    let mut reg = WindowRegistry::new();
    reg.open(None, FilterOutcome::Resolved);
    reg.open(None, FilterOutcome::Resolved);
    reg.focus(0);
    assert_eq!(reg.focused_index(), 0);
    assert!(!reg.window_for_index(1).unwrap().focused);
    reg.toggle(0, false);
    assert_eq!(reg.focused_index(), 0);
}

/// Both chrome bars hold their text per window, independently.
#[test]
fn bar_texts_are_per_window_and_independent() {
    let mut reg = WindowRegistry::new();
    reg.open(None, FilterOutcome::Resolved);
    reg.open(None, FilterOutcome::Resolved);
    reg.set_address_field_text(0, "https://example.net");
    reg.set_command_field_text(0, "open tab");
    assert_eq!(reg.address_field_text(0), "https://example.net");
    assert_eq!(reg.command_field_text(0), "open tab");
    assert_eq!(reg.address_field_text(1), "");
    assert_eq!(reg.command_field_text(1), "");
    assert_eq!(reg.title(0), "webkitten");
}
