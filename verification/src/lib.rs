//! A verified core for an image widget: where a bitmap is drawn inside the
//! area a layout gives it, and when its native picture has to be rebuilt.

pub mod geometry;
pub mod holder;
pub mod layout;
pub mod placement;
pub mod policy;
pub mod source;

pub use geometry::{Placement, Rect, Size};
pub use holder::{Image, ImageHolder, NewImage, RenderCommand, RenderState};
pub use layout::{measure_extent, measured_size, Constraint, Layout, Visibility};
pub use placement::place;
pub use policy::{nsscale_to_policy, policy_to_nsscale, ScalePolicy};
pub use source::SourceImage;
