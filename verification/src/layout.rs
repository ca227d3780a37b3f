//! How large the widget asks to be: the measuring rules of the host layout.

use vstd::prelude::*;
use crate::geometry::Size;

verus! {

/// Whether the host shows the widget.
#[derive(Debug, Clone, Copy, PartialEq, Eq, Structural)]
pub enum Visibility {
    /// Shown.
    Visible,
    /// Not shown, but its place in the layout is kept.
    Invisible,
    /// Not shown and without a place in the layout.
    Gone,
}

/// What the layout asks of one axis of the widget.
#[derive(Debug, Clone, Copy, PartialEq, Eq, Structural)]
pub enum Constraint {
    /// As long as the parent.
    MatchParent,
    /// Exactly this many pixels.
    Exact(u32),
    /// As long as the content itself.
    WrapContent,
}

/// The constraints of both axes.
#[derive(Debug, Clone, Copy, PartialEq, Eq, Structural)]
pub struct Layout {
    pub width: Constraint,
    pub height: Constraint,
}

/// The measured length of one axis: the parent's for `MatchParent`, the given
/// one for `Exact`, and the natural length of the content for `WrapContent`.
pub open spec fn measured_extent(constraint: Constraint, parent: u32, natural: u32) -> u32 {
    match constraint {
        Constraint::MatchParent => parent,
        Constraint::Exact(extent) => extent,
        Constraint::WrapContent => natural,
    }
}

/// The measured size of a widget whose content has the size `natural`, in a
/// parent of size `parent`. A widget that is gone measures `(0, 0)`.
pub open spec fn measured_size_spec(
    visibility: Visibility,
    layout: Layout,
    parent: Size,
    natural: Size,
) -> Size {
    if visibility == Visibility::Gone {
        Size { width: 0, height: 0 }
    } else {
        Size {
            width: measured_extent(layout.width, parent.width, natural.width),
            height: measured_extent(layout.height, parent.height, natural.height),
        }
    }
}

/// Measures one axis.
pub fn measure_extent(constraint: Constraint, parent: u32, natural: u32) -> (extent: u32)
    ensures
        extent == measured_extent(constraint, parent, natural),
{
    match constraint {
        Constraint::MatchParent => parent,
        Constraint::Exact(extent) => extent,
        Constraint::WrapContent => natural,
    }
}

/// Measures the widget: `(0, 0)` when it is gone; otherwise, on each axis, the
/// constraint itself where it is exact or fills the parent, and the natural
/// size of the content, unscaled, where the content is to be wrapped.
pub fn measured_size(visibility: Visibility, layout: Layout, parent: Size, natural: Size) -> (size:
    Size)
    ensures
        size == measured_size_spec(visibility, layout, parent, natural),
{
    match visibility {
        Visibility::Gone => Size { width: 0, height: 0 },
        _ => Size {
            width: measure_extent(layout.width, parent.width, natural.width),
            height: measure_extent(layout.height, parent.height, natural.height),
        },
    }
}

} // verus!
