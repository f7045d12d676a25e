//! The fixed chrome regions of a window and their computed frames.
//!
//! Every window's content area holds exactly three stacked regions in a fixed
//! order: the address bar pinned to the top edge, the pane container filling
//! the middle, and the command bar pinned to the bottom edge. The two bars
//! span the full width at a fixed height; the container takes whatever
//! vertical space is left between them.

use vstd::prelude::*;

verus! {

/// Height, in layout units, of the address bar and of the command bar.
pub const BAR_HEIGHT: u32 = 24;

/// The three chrome regions of a window's content area, in their fixed
/// stacking order. The ordinal position of each region doubles as its index
/// in the content area's child list.
#[derive(Clone, Copy, PartialEq, Eq, Structural, Debug)]
pub enum CocoaWindowSubview {
    AddressBar,
    WebViewContainer,
    CommandBar,
}

impl CocoaWindowSubview {
    /// Position of this region in the content area's child list.
    pub open spec fn spec_position(self) -> int {
        match self {
            CocoaWindowSubview::AddressBar => 0,
            CocoaWindowSubview::WebViewContainer => 1,
            CocoaWindowSubview::CommandBar => 2,
        }
    }

    pub fn position(&self) -> (r: usize)
        ensures
            r as int == self.spec_position(),
    {
        match self {
            CocoaWindowSubview::AddressBar => 0,
            CocoaWindowSubview::WebViewContainer => 1,
            CocoaWindowSubview::CommandBar => 2,
        }
    }
}

/// A rectangle inside a window's content area: origin at the top-left corner,
/// y growing downwards.
#[derive(Clone, Copy, PartialEq, Eq, Structural, Debug)]
pub struct SubviewFrame {
    pub x: u32,
    pub y: u32,
    pub width: u32,
    pub height: u32,
}

/// The frame each chrome region occupies in a content area of the given size.
/// The bars keep their fixed height even in a degenerately short window; the
/// container is clamped to an empty strip when no space is left between them.
pub open spec fn spec_subview_frame(which: CocoaWindowSubview, width: u32, height: u32) -> SubviewFrame {
    match which {
        CocoaWindowSubview::AddressBar => SubviewFrame { x: 0, y: 0, width, height: BAR_HEIGHT },
        CocoaWindowSubview::WebViewContainer => SubviewFrame {
            x: 0,
            y: if height >= BAR_HEIGHT { BAR_HEIGHT } else { height },
            width,
            height: if height >= 2 * BAR_HEIGHT { (height - 2 * BAR_HEIGHT) as u32 } else { 0 },
        },
        CocoaWindowSubview::CommandBar => SubviewFrame {
            x: 0,
            y: if height >= BAR_HEIGHT { (height - BAR_HEIGHT) as u32 } else { 0 },
            width,
            height: BAR_HEIGHT,
        },
    }
}

/// Computes where a chrome region sits in a content area of the given size:
/// the address bar pinned to the top, the command bar pinned to the bottom,
/// both full-width at the fixed bar height, and the pane container filling
/// the space between them.
pub fn subview_frame(which: CocoaWindowSubview, width: u32, height: u32) -> (r: SubviewFrame)
    ensures
        r == spec_subview_frame(which, width, height),
{
    match which {
        CocoaWindowSubview::AddressBar => SubviewFrame { x: 0, y: 0, width, height: BAR_HEIGHT },
        CocoaWindowSubview::WebViewContainer => SubviewFrame {
            x: 0,
            y: if height >= BAR_HEIGHT { BAR_HEIGHT } else { height },
            width,
            height: if height >= 2 * BAR_HEIGHT { height - 2 * BAR_HEIGHT } else { 0 },
        },
        CocoaWindowSubview::CommandBar => SubviewFrame {
            x: 0,
            y: if height >= BAR_HEIGHT { height - BAR_HEIGHT } else { 0 },
            width,
            height: BAR_HEIGHT,
        },
    }
}

} // verus!
