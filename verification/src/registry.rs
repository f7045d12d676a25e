//! The window registry: the ordered collection of live windows, with every
//! operation of the windowing layer addressed by window index.
//!
//! Every operation re-resolves its window index against the collection at
//! call time; no handle is ever cached. A stale or out-of-range index is
//! therefore never an error: mutators degrade to a no-op, and accessors
//! return their documented default (empty string, 0, nothing).

use vstd::prelude::*;
use vstd::seq_lib::lemma_update_is_remove_insert;
use crate::chrome::CocoaWindowSubview;
use crate::pane::{FilterOutcome, Pane, spec_focused_pane_index, with_visibility};
use crate::scan::{first_true, lemma_first_true_none_set, lemma_first_true_skip};
use crate::window::{
    DEFAULT_WINDOW_EDGE, Window, create_window, key_and_front, order_out, pane_added_and_focused,
    resign_key, resized, retitled, same_chrome, spec_default_title, with_address_text,
    with_command_text,
};

verus! {

/// The key-window flags of a window collection, in order.
pub open spec fn focused_flags(windows: Seq<Window>) -> Seq<bool> {
    windows.map_values(|w: Window| w.focused)
}

/// The live, ordered collection of application windows, in creation order.
/// Closing a window removes its slot; every later window shifts down by one.
#[derive(PartialEq, Eq, Debug)]
pub struct WindowRegistry {
    pub windows: Vec<Window>,
}

impl WindowRegistry {
    /// Whether `w` addresses a live window.
    pub open spec fn window_resolves(self, w: int) -> bool {
        0 <= w < self.windows@.len()
    }

    /// The title reported for window `w`: its actual title when the index
    /// resolves, the empty string otherwise.
    pub open spec fn spec_title(self, w: int) -> Seq<char> {
        if self.window_resolves(w) {
            self.windows@[w].title@
        } else {
            Seq::<char>::empty()
        }
    }

    /// The text reported for a chrome region of window `w`: the bar's text
    /// when the index resolves and the region is a text bar, the empty string
    /// otherwise. The pane container holds no text of its own.
    pub open spec fn spec_field_text(self, w: int, which: CocoaWindowSubview) -> Seq<char> {
        if self.window_resolves(w) {
            match which {
                CocoaWindowSubview::AddressBar => self.windows@[w].address_text@,
                CocoaWindowSubview::WebViewContainer => Seq::<char>::empty(),
                CocoaWindowSubview::CommandBar => self.windows@[w].command_text@,
            }
        } else {
            Seq::<char>::empty()
        }
    }

    /// The index reported as focused: the first key window's position, or 0
    /// when no window is key. The zero fallback is a deliberate default, not
    /// a claim that window 0 exists.
    pub open spec fn spec_focused_index(self) -> int {
        first_true(focused_flags(self.windows@))
    }

    /// The pane index reported as focused for window `w`: the first visible
    /// pane's position, with the same zero fallback, and 0 outright when the
    /// window index does not resolve.
    pub open spec fn spec_focused_webview_index(self, w: int) -> int {
        if self.window_resolves(w) {
            spec_focused_pane_index(self.windows@[w].panes@)
        } else {
            0
        }
    }

    /// The pane count reported for window `w`: 0 when the index does not
    /// resolve.
    pub open spec fn spec_webview_count(self, w: int) -> int {
        if self.window_resolves(w) {
            self.windows@[w].panes@.len() as int
        } else {
            0
        }
    }

    /// An empty registry, before any window has been opened.
    pub fn new() -> (r: WindowRegistry)
        ensures
            r.windows@.len() == 0,
    {
        WindowRegistry { windows: Vec::new() }
    }

    /// Number of live windows.
    pub fn window_count(&self) -> (r: usize)
        ensures
            r == self.windows@.len(),
    {
        self.windows.len()
    }

    /// Resolves a window index against the live collection: the window when
    /// the index is in range, nothing otherwise. Callers treat an empty
    /// answer as a no-op, never as a fatal condition.
    pub fn window_for_index(&self, index: usize) -> (r: Option<&Window>)
        ensures
            self.window_resolves(index as int) ==> (r matches Some(w) && *w
                == self.windows@[index as int]),
            !self.window_resolves(index as int) ==> r is None,
    {
        if index < self.windows.len() {
            Some(&self.windows[index])
        } else {
            None
        }
    }

    /// Index of the window that currently holds input focus: the first key
    /// window in registry order, or 0 when none is key.
    pub fn focused_index(&self) -> (r: usize)
        ensures
            r as int == self.spec_focused_index(),
    {
        let ghost flags = focused_flags(self.windows@);
        let mut j: usize = 0;
        while j < self.windows.len()
            invariant
                j <= self.windows@.len(),
                flags == focused_flags(self.windows@),
                forall|i: int| 0 <= i < j ==> !flags[i],
            decreases self.windows@.len() - j,
        {
            if self.windows[j].focused {
                proof {
                    lemma_first_true_skip(flags, j as int);
                }
                return j;
            }
            j += 1;
        }
        proof {
            lemma_first_true_none_set(flags);
        }
        0
    }

    /// Makes window `window_index` the key window and orders it to the front:
    /// it becomes visible and focused, and every other window resigns key
    /// status while keeping the rest of its state.
    fn make_key_and_order_front(&mut self, window_index: usize)
        requires
            old(self).window_resolves(window_index as int),
        ensures
            final(self).windows@.len() == old(self).windows@.len(),
            final(self).windows@[window_index as int] == key_and_front(
                old(self).windows@[window_index as int],
            ),
            forall|j: int|
                0 <= j < old(self).windows@.len() && j != window_index as int ==> final(self).windows@[j] == resign_key(old(self).windows@[j]),
    {
        let mut j: usize = 0;
        while j < self.windows.len()
            invariant
                j <= self.windows@.len(),
                self.windows@.len() == old(self).windows@.len(),
                window_index < self.windows@.len(),
                forall|k: int|
                    0 <= k < j && k != window_index as int ==> self.windows@[k] == resign_key(
                        old(self).windows@[k],
                    ),
                j > window_index ==> self.windows@[window_index as int] == key_and_front(
                    old(self).windows@[window_index as int],
                ),
                forall|k: int| j <= k < self.windows@.len() ==> self.windows@[k] == old(self).windows@[k],
            decreases self.windows@.len() - j,
        {
            let ghost before = self.windows@;
            let mut win = self.windows.remove(j);
            if j == window_index {
                win.focused = true;
                win.visible = true;
            } else {
                win.focused = false;
            }
            let ghost gw = win;
            self.windows.insert(j, win);
            proof {
                lemma_update_is_remove_insert(before, j as int, gw);
                assert(self.windows@ =~= before.update(j as int, gw));
            }
            j += 1;
        }
    }

    /// Shows or hides window `window_index` without destroying it: showing
    /// brings it to the front as the key window; hiding orders it off the
    /// screen, where it also ceases to be key. A stale index changes nothing.
    pub fn toggle(&mut self, window_index: usize, visible: bool)
        ensures
            !old(self).window_resolves(window_index as int) ==> *final(self) == *old(self),
            old(self).window_resolves(window_index as int) ==> {
                &&& final(self).windows@.len() == old(self).windows@.len()
                &&& (visible ==> final(self).windows@[window_index as int] == key_and_front(
                    old(self).windows@[window_index as int],
                ))
                &&& (visible ==> forall|j: int|
                    0 <= j < old(self).windows@.len() && j != window_index as int ==> final(self).windows@[j] == resign_key(old(self).windows@[j]))
                &&& (!visible ==> final(self).windows@[window_index as int] == order_out(
                    old(self).windows@[window_index as int],
                ))
                &&& (!visible ==> forall|j: int|
                    0 <= j < old(self).windows@.len() && j != window_index as int ==> final(self).windows@[j] == old(self).windows@[j])
            },
    {
        if window_index < self.windows.len() {
            if visible {
                self.make_key_and_order_front(window_index);
            } else {
                let ghost before = self.windows@;
                let mut win = self.windows.remove(window_index);
                win.visible = false;
                win.focused = false;
                let ghost gw = win;
                self.windows.insert(window_index, win);
                proof {
                    lemma_update_is_remove_insert(before, window_index as int, gw);
                    assert(self.windows@ =~= before.update(window_index as int, gw));
                }
            }
        }
    }

    /// Gives window `window_index` input focus and orders it to the front.
    /// A stale index changes nothing.
    pub fn focus(&mut self, window_index: usize)
        ensures
            !old(self).window_resolves(window_index as int) ==> *final(self) == *old(self),
            old(self).window_resolves(window_index as int) ==> {
                &&& final(self).windows@.len() == old(self).windows@.len()
                &&& final(self).windows@[window_index as int] == key_and_front(
                    old(self).windows@[window_index as int],
                )
                &&& forall|j: int|
                    0 <= j < old(self).windows@.len() && j != window_index as int ==> final(self).windows@[j] == resign_key(old(self).windows@[j])
            },
    {
        if window_index < self.windows.len() {
            self.make_key_and_order_front(window_index);
        }
    }

    /// Closes window `window_index`, removing its slot; every later window
    /// shifts down by one index. A stale index changes nothing.
    pub fn close(&mut self, window_index: usize)
        ensures
            old(self).window_resolves(window_index as int) ==> final(self).windows@ == old(self).windows@.remove(window_index as int),
            !old(self).window_resolves(window_index as int) ==> *final(self) == *old(self),
    {
        if window_index < self.windows.len() {
            self.windows.remove(window_index);
        }
    }

    /// Title of window `window_index`, or the empty string when the index
    /// does not resolve.
    pub fn title(&self, window_index: usize) -> (r: String)
        ensures
            r@ == self.spec_title(window_index as int),
    {
        if window_index < self.windows.len() {
            self.windows[window_index].title.clone()
        } else {
            String::new()
        }
    }

    /// Retitles window `window_index`, keeping everything else. A stale index
    /// changes nothing.
    pub fn set_title(&mut self, window_index: usize, title: &str)
        ensures
            !old(self).window_resolves(window_index as int) ==> *final(self) == *old(self),
            old(self).window_resolves(window_index as int) ==> {
                &&& final(self).windows@.len() == old(self).windows@.len()
                &&& final(self).windows@[window_index as int] == retitled(
                    old(self).windows@[window_index as int],
                    final(self).windows@[window_index as int].title,
                )
                &&& final(self).windows@[window_index as int].title@ == title@
                &&& forall|j: int|
                    0 <= j < old(self).windows@.len() && j != window_index as int ==> final(self).windows@[j] == old(self).windows@[j]
            },
    {
        if window_index < self.windows.len() {
            let ghost before = self.windows@;
            let mut win = self.windows.remove(window_index);
            win.title = title.to_owned();
            let ghost gw = win;
            self.windows.insert(window_index, win);
            proof {
                lemma_update_is_remove_insert(before, window_index as int, gw);
                assert(self.windows@ =~= before.update(window_index as int, gw));
            }
        }
    }

    /// Resizes window `window_index` to exactly the given size, preserving
    /// its origin and everything else. A stale index changes nothing.
    pub fn resize(&mut self, window_index: usize, width: u32, height: u32)
        ensures
            !old(self).window_resolves(window_index as int) ==> *final(self) == *old(self),
            old(self).window_resolves(window_index as int) ==> {
                &&& final(self).windows@.len() == old(self).windows@.len()
                &&& final(self).windows@[window_index as int] == resized(
                    old(self).windows@[window_index as int],
                    width,
                    height,
                )
                &&& forall|j: int|
                    0 <= j < old(self).windows@.len() && j != window_index as int ==> final(self).windows@[j] == old(self).windows@[j]
            },
    {
        if window_index < self.windows.len() {
            let ghost before = self.windows@;
            let mut win = self.windows.remove(window_index);
            win.width = width;
            win.height = height;
            let ghost gw = win;
            self.windows.insert(window_index, win);
            proof {
                lemma_update_is_remove_insert(before, window_index as int, gw);
                assert(self.windows@ =~= before.update(window_index as int, gw));
            }
        }
    }

    /// Opens a new window: it is appended to the registry with the default
    /// title and geometry and an empty address and command bar, becomes the
    /// key window (every other window resigns key status), and receives its
    /// first pane, which is visible, configured from the filter-lookup
    /// outcome, and carries the requested address, if one was given. Loading
    /// that address is delegated to the rendering engine, outside this layer.
    pub fn open(&mut self, uri: Option<&str>, filter: FilterOutcome)
        ensures
            final(self).windows@.len() == old(self).windows@.len() + 1,
            forall|j: int|
                0 <= j < old(self).windows@.len() ==> final(self).windows@[j] == resign_key(
                    old(self).windows@[j],
                ),
            ({
                let w = final(self).windows@.last();
                &&& w.title@ == spec_default_title()
                &&& w.origin_x == 0
                &&& w.origin_y == 0
                &&& w.width == DEFAULT_WINDOW_EDGE
                &&& w.height == DEFAULT_WINDOW_EDGE
                &&& w.visible
                &&& w.focused
                &&& w.address_text@ == Seq::<char>::empty()
                &&& w.command_text@ == Seq::<char>::empty()
                &&& w.panes@.len() == 1
                &&& w.panes@[0].visible
                &&& w.panes@[0].filtered == filter.spec_applies()
                &&& (uri is Some ==> (w.panes@[0].uri matches Some(u) && u@ == uri->0@))
                &&& (uri is None ==> w.panes@[0].uri is None)
            }),
    {
        let w = self.windows.len();
        self.windows.push(create_window());
        self.make_key_and_order_front(w);
        self.add_and_focus_webview(w, filter, uri);
    }

    /// Completes a pane insertion for window `window_index` once the
    /// content-filter lookup has come back: every existing pane is hidden and
    /// one new pane is appended as the sole visible one, configured from the
    /// lookup outcome and carrying the requested address, if one was given.
    /// A window closed since the lookup was issued makes this a silent no-op.
    pub fn add_and_focus_webview(
        &mut self,
        window_index: usize,
        filter: FilterOutcome,
        uri: Option<&str>,
    )
        ensures
            !old(self).window_resolves(window_index as int) ==> *final(self) == *old(self),
            old(self).window_resolves(window_index as int) ==> {
                &&& final(self).windows@.len() == old(self).windows@.len()
                &&& pane_added_and_focused(
                    old(self).windows@[window_index as int],
                    final(self).windows@[window_index as int],
                    filter.spec_applies(),
                )
                &&& (uri is Some ==> (final(self).windows@[window_index as int].panes@.last().uri
                    matches Some(u) && u@ == uri->0@))
                &&& (uri is None ==> final(self).windows@[window_index as int].panes@.last().uri is None)
                &&& forall|j: int|
                    0 <= j < old(self).windows@.len() && j != window_index as int ==> final(self).windows@[j] == old(self).windows@[j]
            },
    {
        if window_index < self.windows.len() {
            let ghost before = self.windows@;
            let mut win = self.windows.remove(window_index);
            win.add_and_focus_pane(filter, uri);
            let ghost gw = win;
            self.windows.insert(window_index, win);
            proof {
                lemma_update_is_remove_insert(before, window_index as int, gw);
                assert(self.windows@ =~= before.update(window_index as int, gw));
            }
        }
    }

    /// Adds a new pane to window `window_index` as the sole visible one and
    /// records `uri` as its requested address. Loading the address into the
    /// pane is the rendering engine's job, outside this layer.
    pub fn open_webview(&mut self, window_index: usize, uri: &str, filter: FilterOutcome)
        ensures
            !old(self).window_resolves(window_index as int) ==> *final(self) == *old(self),
            old(self).window_resolves(window_index as int) ==> {
                &&& final(self).windows@.len() == old(self).windows@.len()
                &&& pane_added_and_focused(
                    old(self).windows@[window_index as int],
                    final(self).windows@[window_index as int],
                    filter.spec_applies(),
                )
                &&& (final(self).windows@[window_index as int].panes@.last().uri matches Some(u)
                    && u@ == uri@)
                &&& forall|j: int|
                    0 <= j < old(self).windows@.len() && j != window_index as int ==> final(self).windows@[j] == old(self).windows@[j]
            },
    {
        self.add_and_focus_webview(window_index, filter, Some(uri));
    }

    /// Removes the pane at `index` from window `window_index` when both
    /// indices resolve; anything else changes nothing. Removal never
    /// reassigns visibility: the remaining panes keep theirs, so removing
    /// the visible pane leaves the window with no visible pane.
    pub fn close_webview(&mut self, window_index: usize, index: usize)
        ensures
            !old(self).window_resolves(window_index as int) ==> *final(self) == *old(self),
            old(self).window_resolves(window_index as int) && index as int >= old(self).windows@[window_index as int].panes@.len() ==> *final(self) == *old(self),
            old(self).window_resolves(window_index as int) && (index as int) < old(self).windows@[window_index as int].panes@.len() ==> {
                &&& final(self).windows@.len() == old(self).windows@.len()
                &&& final(self).windows@[window_index as int].panes@ == old(self).windows@[window_index as int].panes@.remove(index as int)
                &&& same_chrome(
                    final(self).windows@[window_index as int],
                    old(self).windows@[window_index as int],
                )
                &&& forall|j: int|
                    0 <= j < old(self).windows@.len() && j != window_index as int ==> final(self).windows@[j] == old(self).windows@[j]
            },
    {
        if window_index < self.windows.len() && index < self.windows[window_index].panes.len() {
            let ghost before = self.windows@;
            let mut win = self.windows.remove(window_index);
            win.remove_pane(index);
            let ghost gw = win;
            self.windows.insert(window_index, win);
            proof {
                lemma_update_is_remove_insert(before, window_index as int, gw);
                assert(self.windows@ =~= before.update(window_index as int, gw));
            }
        }
    }

    /// Sets every pane's visibility in window `window_index` to whether its
    /// position equals `webview_index`. An out-of-range pane index hides
    /// every pane — an accepted degraded state, not an error. A stale window
    /// index changes nothing.
    pub fn focus_webview(&mut self, window_index: usize, webview_index: usize)
        ensures
            !old(self).window_resolves(window_index as int) ==> *final(self) == *old(self),
            old(self).window_resolves(window_index as int) ==> {
                &&& final(self).windows@.len() == old(self).windows@.len()
                &&& final(self).windows@[window_index as int].panes@.len() == old(self).windows@[window_index as int].panes@.len()
                &&& forall|k: int|
                    0 <= k < old(self).windows@[window_index as int].panes@.len() ==> final(self).windows@[window_index as int].panes@[k] == with_visibility(
                        old(self).windows@[window_index as int].panes@[k],
                        k == webview_index as int,
                    )
                &&& same_chrome(
                    final(self).windows@[window_index as int],
                    old(self).windows@[window_index as int],
                )
                &&& forall|j: int|
                    0 <= j < old(self).windows@.len() && j != window_index as int ==> final(self).windows@[j] == old(self).windows@[j]
            },
    {
        if window_index < self.windows.len() {
            let ghost before = self.windows@;
            let mut win = self.windows.remove(window_index);
            win.focus_pane(webview_index);
            let ghost gw = win;
            self.windows.insert(window_index, win);
            proof {
                lemma_update_is_remove_insert(before, window_index as int, gw);
                assert(self.windows@ =~= before.update(window_index as int, gw));
            }
        }
    }

    /// The pane at `webview_index` of window `window_index`, or nothing when
    /// either index is out of range.
    pub fn webview(&self, window_index: usize, webview_index: usize) -> (r: Option<&Pane>)
        ensures
            self.window_resolves(window_index as int) && (webview_index as int)
                < self.windows@[window_index as int].panes@.len() ==> (r matches Some(p) && *p
                == self.windows@[window_index as int].panes@[webview_index as int]),
            !(self.window_resolves(window_index as int) && (webview_index as int)
                < self.windows@[window_index as int].panes@.len()) ==> r is None,
    {
        if window_index < self.windows.len() {
            self.windows[window_index].pane(webview_index)
        } else {
            None
        }
    }

    /// Index of the first visible pane of window `window_index`, or 0 when no
    /// pane is visible or the window index does not resolve.
    pub fn focused_webview_index(&self, window_index: usize) -> (r: usize)
        ensures
            r as int == self.spec_focused_webview_index(window_index as int),
    {
        if window_index < self.windows.len() {
            self.windows[window_index].focused_pane_index()
        } else {
            0
        }
    }

    /// Number of panes in window `window_index`, or 0 when the index does not
    /// resolve.
    pub fn webview_count(&self, window_index: usize) -> (r: usize)
        ensures
            r as int == self.spec_webview_count(window_index as int),
    {
        if window_index < self.windows.len() {
            self.windows[window_index].pane_count()
        } else {
            0
        }
    }

    /// Text of a chrome region of window `window_index`: the empty string
    /// when the index does not resolve or the region holds no text.
    pub fn field_text(&self, window_index: usize, view: CocoaWindowSubview) -> (r: String)
        ensures
            r@ == self.spec_field_text(window_index as int, view),
    {
        if window_index < self.windows.len() {
            match view {
                CocoaWindowSubview::AddressBar => self.windows[window_index].address_text.clone(),
                CocoaWindowSubview::WebViewContainer => String::new(),
                CocoaWindowSubview::CommandBar => self.windows[window_index].command_text.clone(),
            }
        } else {
            String::new()
        }
    }

    /// Text of the address bar of window `window_index`, or the empty string
    /// when the index does not resolve.
    pub fn address_field_text(&self, window_index: usize) -> (r: String)
        ensures
            r@ == self.spec_field_text(window_index as int, CocoaWindowSubview::AddressBar),
    {
        self.field_text(window_index, CocoaWindowSubview::AddressBar)
    }

    /// Text of the command bar of window `window_index`, or the empty string
    /// when the index does not resolve.
    pub fn command_field_text(&self, window_index: usize) -> (r: String)
        ensures
            r@ == self.spec_field_text(window_index as int, CocoaWindowSubview::CommandBar),
    {
        self.field_text(window_index, CocoaWindowSubview::CommandBar)
    }

    /// Replaces the address bar text of window `window_index`, keeping
    /// everything else. A stale index changes nothing.
    pub fn set_address_field_text(&mut self, window_index: usize, text: &str)
        ensures
            !old(self).window_resolves(window_index as int) ==> *final(self) == *old(self),
            old(self).window_resolves(window_index as int) ==> {
                &&& final(self).windows@.len() == old(self).windows@.len()
                &&& final(self).windows@[window_index as int] == with_address_text(
                    old(self).windows@[window_index as int],
                    final(self).windows@[window_index as int].address_text,
                )
                &&& final(self).windows@[window_index as int].address_text@ == text@
                &&& forall|j: int|
                    0 <= j < old(self).windows@.len() && j != window_index as int ==> final(self).windows@[j] == old(self).windows@[j]
            },
    {
        if window_index < self.windows.len() {
            let ghost before = self.windows@;
            let mut win = self.windows.remove(window_index);
            win.address_text = text.to_owned();
            let ghost gw = win;
            self.windows.insert(window_index, win);
            proof {
                lemma_update_is_remove_insert(before, window_index as int, gw);
                assert(self.windows@ =~= before.update(window_index as int, gw));
            }
        }
    }

    /// Replaces the command bar text of window `window_index`, keeping
    /// everything else. A stale index changes nothing.
    pub fn set_command_field_text(&mut self, window_index: usize, text: &str)
        ensures
            !old(self).window_resolves(window_index as int) ==> *final(self) == *old(self),
            old(self).window_resolves(window_index as int) ==> {
                &&& final(self).windows@.len() == old(self).windows@.len()
                &&& final(self).windows@[window_index as int] == with_command_text(
                    old(self).windows@[window_index as int],
                    final(self).windows@[window_index as int].command_text,
                )
                &&& final(self).windows@[window_index as int].command_text@ == text@
                &&& forall|j: int|
                    0 <= j < old(self).windows@.len() && j != window_index as int ==> final(self).windows@[j] == old(self).windows@[j]
            },
    {
        if window_index < self.windows.len() {
            let ghost before = self.windows@;
            let mut win = self.windows.remove(window_index);
            win.command_text = text.to_owned();
            let ghost gw = win;
            self.windows.insert(window_index, win);
            proof {
                lemma_update_is_remove_insert(before, window_index as int, gw);
                assert(self.windows@ =~= before.update(window_index as int, gw));
            }
        }
    }
}

} // verus!
