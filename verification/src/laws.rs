//! Laws of the windowing layer that relate several operations to one another.
//!
//! Properties of a single operation (a stale-index mutator is a no-op, a
//! completed pane insertion leaves exactly one visible pane, a resize keeps
//! the origin) are stated directly in that operation's `ensures`. The proof
//! functions here state what follows when operations are composed.

use vstd::prelude::*;
use crate::chrome::CocoaWindowSubview;
use crate::registry::WindowRegistry;
use crate::pane::visible_flags;
use crate::scan::{lemma_first_true_none_set, lemma_first_true_single};

verus! {

/// For any window index at or past the registry's count, every accessor
/// returns its documented default: an empty string for the title and for both
/// bar texts, and 0 for the pane count and the focused pane index. (Every
/// mutator's own `ensures` states the matching half: on such an index it
/// changes nothing.)
pub proof fn lemma_stale_window_index_defaults(reg: WindowRegistry, w: int)
    requires
        w >= reg.windows@.len(),
    ensures
        reg.spec_title(w) == Seq::<char>::empty(),
        reg.spec_field_text(w, CocoaWindowSubview::AddressBar) == Seq::<char>::empty(),
        reg.spec_field_text(w, CocoaWindowSubview::WebViewContainer) == Seq::<char>::empty(),
        reg.spec_field_text(w, CocoaWindowSubview::CommandBar) == Seq::<char>::empty(),
        reg.spec_webview_count(w) == 0,
        reg.spec_focused_webview_index(w) == 0,
{
}

/// In any registry state where window `w`'s panes are visible exactly at
/// position `i` — the state `focus_webview(w, i)` establishes — the focused
/// pane index reads back as `i` when `i` is in range, and as the documented
/// fallback 0 when it is not, even though in that degraded state no pane is
/// actually visible.
pub proof fn lemma_focus_webview_determines_focused_index(reg: WindowRegistry, w: int, i: int)
    requires
        reg.window_resolves(w),
        forall|k: int|
            0 <= k < reg.windows@[w].panes@.len() ==> (reg.windows@[w].panes@[k].visible <==> k
                == i),
    ensures
        reg.spec_focused_webview_index(w) == if 0 <= i < reg.windows@[w].panes@.len() {
            i
        } else {
            0
        },
{
    let flags = visible_flags(reg.windows@[w].panes@);
    if 0 <= i < reg.windows@[w].panes@.len() {
        lemma_first_true_single(flags, i);
    } else {
        lemma_first_true_none_set(flags);
    }
}

/// In any registry state where window `w`'s title is `t` — the state
/// `set_title(w, t)` establishes for any UTF-8 text, the empty string
/// included — the title reads back as exactly `t`.
pub proof fn lemma_set_title_round_trip(reg: WindowRegistry, w: int, t: Seq<char>)
    requires
        reg.window_resolves(w),
        reg.windows@[w].title@ == t,
    ensures
        reg.spec_title(w) == t,
{
}

} // verus!
