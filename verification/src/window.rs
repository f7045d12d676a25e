//! One application window: its native attributes (title, geometry, key and
//! visibility state), its two chrome text bars, and its ordered pane
//! container.

use vstd::prelude::*;
use crate::pane::{FilterOutcome, Pane, spec_focused_pane_index, visible_flags, with_visibility};
use crate::scan::{lemma_first_true_none_set, lemma_first_true_skip};

verus! {

/// Width and height a freshly opened window starts with.
pub const DEFAULT_WINDOW_EDGE: u32 = 700;

/// Title a freshly opened window starts with.
pub open spec fn spec_default_title() -> Seq<char> {
    "webkitten"@
}

/// An application window, identified by its position in the window registry.
#[derive(PartialEq, Eq, Debug)]
pub struct Window {
    /// Title shown by the window server.
    pub title: String,
    /// Horizontal position of the window on the screen.
    pub origin_x: i32,
    /// Vertical position of the window on the screen.
    pub origin_y: i32,
    /// Width of the window's content area.
    pub width: u32,
    /// Height of the window's content area.
    pub height: u32,
    /// Whether this window currently holds input focus (is the key window).
    pub focused: bool,
    /// Whether the window is ordered onto the screen.
    pub visible: bool,
    /// The ordered pane container.
    pub panes: Vec<Pane>,
    /// Text held by the address bar.
    pub address_text: String,
    /// Text held by the command bar.
    pub command_text: String,
}

/// Two windows agree on everything but possibly their pane containers.
pub open spec fn same_chrome(a: Window, b: Window) -> bool {
    &&& a.title == b.title
    &&& a.origin_x == b.origin_x
    &&& a.origin_y == b.origin_y
    &&& a.width == b.width
    &&& a.height == b.height
    &&& a.focused == b.focused
    &&& a.visible == b.visible
    &&& a.address_text == b.address_text
    &&& a.command_text == b.command_text
}

/// `w` as it stands after becoming the key window and being ordered to the
/// front of the screen.
pub open spec fn key_and_front(w: Window) -> Window {
    Window { focused: true, visible: true, ..w }
}

/// `w` as it stands after another window became key: it loses input focus and
/// keeps everything else.
pub open spec fn resign_key(w: Window) -> Window {
    Window { focused: false, ..w }
}

/// `w` as it stands after being ordered off the screen without being
/// destroyed: no longer visible, no longer key.
pub open spec fn order_out(w: Window) -> Window {
    Window { visible: false, focused: false, ..w }
}

/// `w` with its title replaced and everything else kept.
pub open spec fn retitled(w: Window, title: String) -> Window {
    Window { title, ..w }
}

/// `w` with its size replaced and everything else — its origin included —
/// kept.
pub open spec fn resized(w: Window, width: u32, height: u32) -> Window {
    Window { width, height, ..w }
}

/// `w` with its address bar text replaced and everything else kept.
pub open spec fn with_address_text(w: Window, text: String) -> Window {
    Window { address_text: text, ..w }
}

/// `w` with its command bar text replaced and everything else kept.
pub open spec fn with_command_text(w: Window, text: String) -> Window {
    Window { command_text: text, ..w }
}

/// The pane-container transition a completed pane insertion performs: one new
/// pane at the end of the container, visible and configured with `filtered`;
/// every pane that was there before keeps its place and its state but is
/// hidden; the window's other attributes stay as they were.
pub open spec fn pane_added_and_focused(prior: Window, now: Window, filtered: bool) -> bool {
    &&& now.panes@.len() == prior.panes@.len() + 1
    &&& forall|k: int|
        0 <= k < now.panes@.len() ==> (now.panes@[k].visible <==> k == prior.panes@.len())
    &&& forall|k: int|
        0 <= k < prior.panes@.len() ==> now.panes@[k] == with_visibility(prior.panes@[k], false)
    &&& now.panes@.last().filtered == filtered
    &&& same_chrome(now, prior)
}

/// A copy of an optional pane address; the copy holds the same text.
fn clone_uri(u: &Option<String>) -> (r: Option<String>)
    ensures
        r == *u,
{
    match u {
        Option::None => Option::None,
        Option::Some(s) => Option::Some(s.clone()),
    }
}

impl Window {
    /// Number of panes in this window's container.
    pub fn pane_count(&self) -> (r: usize)
        ensures
            r == self.panes@.len(),
    {
        self.panes.len()
    }

    /// The pane at `index`, or nothing when the index is out of range.
    pub fn pane(&self, index: usize) -> (r: Option<&Pane>)
        ensures
            index < self.panes@.len() ==> (r matches Some(p) && *p == self.panes@[index as int]),
            index >= self.panes@.len() ==> r is None,
    {
        if index < self.panes.len() {
            Some(&self.panes[index])
        } else {
            None
        }
    }

    /// Position of the first visible pane, or 0 when no pane is visible. The
    /// zero fallback is a documented default, not a claim that pane 0 exists
    /// or is shown.
    pub fn focused_pane_index(&self) -> (r: usize)
        ensures
            r as int == spec_focused_pane_index(self.panes@),
    {
        let ghost flags = visible_flags(self.panes@);
        let mut j: usize = 0;
        while j < self.panes.len()
            invariant
                j <= self.panes@.len(),
                flags == visible_flags(self.panes@),
                forall|i: int| 0 <= i < j ==> !flags[i],
            decreases self.panes@.len() - j,
        {
            if self.panes[j].visible {
                proof {
                    lemma_first_true_skip(flags, j as int);
                }
                return j;
            }
            j += 1;
        }
        proof {
            lemma_first_true_none_set(flags);
        }
        0
    }

    /// Hides every pane in the container, leaving all other pane state and
    /// all window attributes as they were.
    fn hide_all_panes(&mut self)
        ensures
            final(self).panes@.len() == old(self).panes@.len(),
            forall|k: int|
                0 <= k < old(self).panes@.len() ==> final(self).panes@[k] == with_visibility(
                    old(self).panes@[k],
                    false,
                ),
            same_chrome(*final(self), *old(self)),
    {
        let mut j: usize = 0;
        while j < self.panes.len()
            invariant
                j <= self.panes@.len(),
                self.panes@.len() == old(self).panes@.len(),
                forall|k: int|
                    0 <= k < j ==> self.panes@[k] == with_visibility(old(self).panes@[k], false),
                forall|k: int| j <= k < self.panes@.len() ==> self.panes@[k] == old(self).panes@[k],
                same_chrome(*self, *old(self)),
            decreases self.panes@.len() - j,
        {
            let p = Pane {
                visible: false,
                filtered: self.panes[j].filtered,
                uri: clone_uri(&self.panes[j].uri),
            };
            self.panes[j] = p;
            j += 1;
        }
    }

    /// Sets every pane's visibility to whether its position equals
    /// `pane_index`. An out-of-range index therefore hides every pane — an
    /// accepted degraded state, not an error.
    pub fn focus_pane(&mut self, pane_index: usize)
        ensures
            final(self).panes@.len() == old(self).panes@.len(),
            forall|k: int|
                0 <= k < old(self).panes@.len() ==> final(self).panes@[k] == with_visibility(
                    old(self).panes@[k],
                    k == pane_index as int,
                ),
            same_chrome(*final(self), *old(self)),
    {
        let mut j: usize = 0;
        while j < self.panes.len()
            invariant
                j <= self.panes@.len(),
                self.panes@.len() == old(self).panes@.len(),
                forall|k: int|
                    0 <= k < j ==> self.panes@[k] == with_visibility(
                        old(self).panes@[k],
                        k == pane_index as int,
                    ),
                forall|k: int| j <= k < self.panes@.len() ==> self.panes@[k] == old(self).panes@[k],
                same_chrome(*self, *old(self)),
            decreases self.panes@.len() - j,
        {
            let p = Pane {
                visible: j == pane_index,
                filtered: self.panes[j].filtered,
                uri: clone_uri(&self.panes[j].uri),
            };
            self.panes[j] = p;
            j += 1;
        }
    }

    /// Completes a pane insertion once the content-filter lookup has come
    /// back: hides every existing pane and appends one new pane, configured
    /// from the lookup outcome and carrying the requested address, as the
    /// sole visible pane.
    pub fn add_and_focus_pane(&mut self, filter: FilterOutcome, uri: Option<&str>)
        ensures
            pane_added_and_focused(*old(self), *final(self), filter.spec_applies()),
            uri is Some ==> (final(self).panes@.last().uri matches Some(u) && u@ == uri->0@),
            uri is None ==> final(self).panes@.last().uri is None,
    {
        self.hide_all_panes();
        let stored: Option<String> = match uri {
            Option::None => Option::None,
            Option::Some(s) => Option::Some(s.to_owned()),
        };
        self.panes.push(Pane { visible: true, filtered: filter.applies(), uri: stored });
    }

    /// Removes the pane at `pane_index` when it exists; an out-of-range index
    /// changes nothing. Removal never reassigns visibility: removing the
    /// visible pane leaves the container with no visible pane at all.
    pub fn remove_pane(&mut self, pane_index: usize)
        ensures
            pane_index < old(self).panes@.len() ==> final(self).panes@ == old(
                self,
            ).panes@.remove(pane_index as int),
            pane_index >= old(self).panes@.len() ==> *final(self) == *old(self),
            same_chrome(*final(self), *old(self)),
    {
        if pane_index < self.panes.len() {
            self.panes.remove(pane_index);
        }
    }
}

/// Gives a freshly created window its chrome: an empty address bar on top, an
/// empty pane container in the middle, an empty command bar at the bottom,
/// and, as the final step, brings the window to the front of the screen with
/// input focus. Title and geometry are left as they were.
pub fn layout_window_subviews(window: &mut Window)
    ensures
        final(window).panes@.len() == 0,
        final(window).address_text@ == Seq::<char>::empty(),
        final(window).command_text@ == Seq::<char>::empty(),
        final(window).visible,
        final(window).focused,
        final(window).title == old(window).title,
        final(window).origin_x == old(window).origin_x,
        final(window).origin_y == old(window).origin_y,
        final(window).width == old(window).width,
        final(window).height == old(window).height,
{
    window.panes = Vec::new();
    window.address_text = String::new();
    window.command_text = String::new();
    window.visible = true;
    window.focused = true;
}

/// Builds a new window with the default title and geometry, then lays out its
/// chrome. The window comes back focused, visible, with no panes and empty
/// bars; the registry decides where it goes and which other window loses
/// focus.
pub fn create_window() -> (w: Window)
    ensures
        w.title@ == spec_default_title(),
        w.origin_x == 0,
        w.origin_y == 0,
        w.width == DEFAULT_WINDOW_EDGE,
        w.height == DEFAULT_WINDOW_EDGE,
        w.panes@.len() == 0,
        w.address_text@ == Seq::<char>::empty(),
        w.command_text@ == Seq::<char>::empty(),
        w.visible,
        w.focused,
{
    let mut w = Window {
        title: "webkitten".to_owned(),
        origin_x: 0,
        origin_y: 0,
        width: DEFAULT_WINDOW_EDGE,
        height: DEFAULT_WINDOW_EDGE,
        focused: false,
        visible: false,
        panes: Vec::new(),
        address_text: String::new(),
        command_text: String::new(),
    };
    layout_window_subviews(&mut w);
    w
}

} // verus!
