//! Content panes and the filter-lookup outcome that configures them.

use vstd::prelude::*;
use crate::scan::first_true;

verus! {

/// Outcome of the asynchronous content-filter lookup that precedes every pane
/// insertion: the rendering engine either resolves the named filter or reports
/// an error. Both outcomes converge on a pane being created; a failed lookup
/// only leaves the new pane unfiltered.
#[derive(Clone, Copy, PartialEq, Eq, Structural, Debug)]
pub enum FilterOutcome {
    Resolved,
    Failed,
}

impl FilterOutcome {
    /// Whether a pane configured from this outcome carries the content filter.
    pub open spec fn spec_applies(self) -> bool {
        self is Resolved
    }

    pub fn applies(&self) -> (r: bool)
        ensures
            r == self.spec_applies(),
    {
        match self {
            FilterOutcome::Resolved => true,
            FilterOutcome::Failed => false,
        }
    }
}

/// One content-rendering surface inside a window's pane container, identified
/// by its position there.
#[derive(PartialEq, Eq, Debug)]
pub struct Pane {
    /// Whether this pane is the one currently shown. Immediately after an
    /// insertion, exactly one pane of the container is visible.
    pub visible: bool,
    /// Whether the content filter was applied when this pane was configured.
    pub filtered: bool,
    /// The address last requested for this pane, if any. Loading it is the
    /// rendering engine's job, outside this structural model.
    pub uri: Option<String>,
}

/// The visibility flags of a pane collection, in order.
pub open spec fn visible_flags(panes: Seq<Pane>) -> Seq<bool> {
    panes.map_values(|p: Pane| p.visible)
}

/// The index reported as focused for a pane collection: the first visible
/// pane's position, or 0 when no pane is visible.
pub open spec fn spec_focused_pane_index(panes: Seq<Pane>) -> int {
    first_true(visible_flags(panes))
}

/// `p` with its visibility flag replaced and everything else kept.
pub open spec fn with_visibility(p: Pane, visible: bool) -> Pane {
    Pane { visible, ..p }
}

} // verus!
