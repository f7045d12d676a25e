use browser_chrome::chrome::{subview_frame, CocoaWindowSubview, SubviewFrame, BAR_HEIGHT};
use browser_chrome::{FilterOutcome, WindowRegistry};

/// The three chrome regions sit at their fixed ordinal positions.
#[test]
fn subview_positions_are_fixed() {
    assert_eq!(CocoaWindowSubview::AddressBar.position(), 0);
    assert_eq!(CocoaWindowSubview::WebViewContainer.position(), 1);
    assert_eq!(CocoaWindowSubview::CommandBar.position(), 2);
}

/// In the default 700 by 700 content area: the address bar spans the top at
/// the fixed bar height, the command bar spans the bottom at the same height,
/// and the pane container fills the 652 units between them.
#[test]
fn frames_in_a_default_window() {
    assert_eq!(BAR_HEIGHT, 24);
    assert_eq!(
        subview_frame(CocoaWindowSubview::AddressBar, 700, 700),
        SubviewFrame { x: 0, y: 0, width: 700, height: 24 }
    );
    assert_eq!(
        subview_frame(CocoaWindowSubview::WebViewContainer, 700, 700),
        SubviewFrame { x: 0, y: 24, width: 700, height: 652 }
    );
    assert_eq!(
        subview_frame(CocoaWindowSubview::CommandBar, 700, 700),
        SubviewFrame { x: 0, y: 676, width: 700, height: 24 }
    );
}

/// The bars keep their fixed height even when the window is too short to
/// leave the container any space; the container is clamped to an empty strip.
#[test]
fn frames_in_a_degenerately_short_window() {
    assert_eq!(
        subview_frame(CocoaWindowSubview::WebViewContainer, 300, 48),
        SubviewFrame { x: 0, y: 24, width: 300, height: 0 }
    );
    assert_eq!(
        subview_frame(CocoaWindowSubview::WebViewContainer, 300, 30),
        SubviewFrame { x: 0, y: 24, width: 300, height: 0 }
    );
    assert_eq!(
        subview_frame(CocoaWindowSubview::AddressBar, 300, 10),
        SubviewFrame { x: 0, y: 0, width: 300, height: 24 }
    );
    assert_eq!(
        subview_frame(CocoaWindowSubview::CommandBar, 300, 10),
        SubviewFrame { x: 0, y: 0, width: 300, height: 24 }
    );
    assert_eq!(
        subview_frame(CocoaWindowSubview::WebViewContainer, 300, 10),
        SubviewFrame { x: 0, y: 10, width: 300, height: 0 }
    );
}

/// A window-level field read through the general accessor matches the two
/// named accessors, and the pane container reports no text.
#[test]
fn field_text_by_region() {
    let mut reg = WindowRegistry::new();
    reg.open(None, FilterOutcome::Resolved);
    reg.set_address_field_text(0, "a");
    reg.set_command_field_text(0, "c");
    assert_eq!(reg.field_text(0, CocoaWindowSubview::AddressBar), "a");
    assert_eq!(reg.field_text(0, CocoaWindowSubview::CommandBar), "c");
    assert_eq!(reg.field_text(0, CocoaWindowSubview::WebViewContainer), "");
    assert_eq!(reg.field_text(2, CocoaWindowSubview::AddressBar), "");
}
