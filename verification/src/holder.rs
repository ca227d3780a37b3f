//! The image resource holder: the bitmap, the scale policy and whether the
//! native picture made from them is still the right one.
//!
//! The holder draws nothing itself. `render` says what is to be painted, the
//! caller paints it with the native toolkit and reports back with
//! `finish_render`.

use vstd::prelude::*;
use image::DynamicImage;
use crate::geometry::{Placement, Size};
use crate::layout::{measured_size, measured_size_spec, Layout, Visibility};
use crate::placement::{lemma_fit_extent, place, placement_of};
use crate::policy::ScalePolicy;
use crate::source::{Raster, SourceImage};

verus! {

/// Whether the native picture matches the bitmap, the policy and the viewport.
#[derive(Debug, Clone, Copy, PartialEq, Eq, Structural)]
pub enum RenderState {
    /// It matches: nothing has to be painted.
    Clean,
    /// It is stale and has to be made again before the next paint.
    Dirty,
}

/// What the native toolkit is asked to do for one paint.
#[derive(Debug, Clone, Copy, PartialEq, Eq, Structural)]
pub enum RenderCommand {
    /// Nothing would be covered: no native call is to be made.
    Skip,
    /// Paint the sampled rectangle of the bitmap on the destination rectangle.
    Blit(Placement),
}

/// What a holder is: the bitmap, the policy, the state and the viewport that
/// it was last measured or rendered for.
pub ghost struct HolderView {
    pub source: Raster,
    pub policy: ScalePolicy,
    pub state: RenderState,
    pub viewport: Size,
}

impl HolderView {
    /// A new holder: scale to fit, no viewport yet, and nothing painted.
    pub open spec fn created(source: Raster) -> HolderView {
        HolderView {
            source,
            policy: ScalePolicy::FitCenter,
            state: RenderState::Dirty,
            viewport: Size { width: 0, height: 0 },
        }
    }

    /// Setting `policy` asks for a redraw exactly when it is a new policy.
    pub open spec fn asks_redraw(self, policy: ScalePolicy) -> bool {
        self.policy != policy
    }

    /// The holder after `policy` is set: unchanged when it is the policy in
    /// force, stale with the new policy otherwise.
    pub open spec fn with_policy(self, policy: ScalePolicy) -> HolderView {
        if self.policy == policy {
            self
        } else {
            HolderView { policy, state: RenderState::Dirty, ..self }
        }
    }

    /// The holder after the bitmap is replaced: stale.
    pub open spec fn with_source(self, source: Raster) -> HolderView {
        HolderView { source, state: RenderState::Dirty, ..self }
    }

    /// The holder after it is told of `viewport`: unchanged when that is the
    /// viewport it knows, stale with the new viewport otherwise.
    pub open spec fn with_viewport(self, viewport: Size) -> HolderView {
        if self.viewport == viewport {
            self
        } else {
            HolderView { viewport, state: RenderState::Dirty, ..self }
        }
    }

    /// The placement of the bitmap in `viewport` under the policy in force.
    pub open spec fn placement(self, viewport: Size) -> Placement {
        placement_of(self.source.size, viewport, self.policy)
    }

    /// The command for a paint in `viewport`: a blit of the placement, or a
    /// skip where the placement covers nothing.
    pub open spec fn command(self, viewport: Size) -> RenderCommand {
        if self.placement(viewport).dest.is_degenerate() {
            RenderCommand::Skip
        } else {
            RenderCommand::Blit(self.placement(viewport))
        }
    }

    /// The holder after `render`: it knows the viewport, and it is clean at
    /// once where nothing is to be painted.
    pub open spec fn rendered(self, viewport: Size) -> HolderView {
        if self.command(viewport) is Skip {
            HolderView { state: RenderState::Clean, ..self.with_viewport(viewport) }
        } else {
            self.with_viewport(viewport)
        }
    }

    /// The holder after the native blit is over: clean if it succeeded, stale
    /// if it failed.
    pub open spec fn finished(self, succeeded: bool) -> HolderView {
        HolderView {
            state: if succeeded {
                RenderState::Clean
            } else {
                RenderState::Dirty
            },
            ..self
        }
    }

    /// The holder after a paint in `viewport` whose native work, if there was
    /// any, succeeded.
    pub open spec fn painted(self, viewport: Size) -> HolderView {
        if self.command(viewport) is Skip {
            self.rendered(viewport)
        } else {
            self.rendered(viewport).finished(true)
        }
    }

    /// A paint in `viewport` has work to do: the holder is stale, or it was
    /// made for another viewport.
    pub open spec fn stale_for(self, viewport: Size) -> bool {
        self.state is Dirty || self.viewport != viewport
    }

    /// The holder after it is measured to `size`.
    pub open spec fn measured(self, size: Size) -> HolderView {
        self.with_viewport(size)
    }
}

/// The step from `before` to `after` is a transition from clean to stale.
pub open spec fn turned_dirty(before: HolderView, after: HolderView) -> bool {
    before.state is Clean && after.state is Dirty
}

/// A control that shows a bitmap under a scale policy.
pub trait Image {
    /// The policy in force.
    spec fn policy(&self) -> ScalePolicy;

    /// Sets the policy. The result says whether the widget has to be redrawn,
    /// which is so exactly when the policy changed.
    fn set_scale(&mut self, policy: ScalePolicy) -> (redraw: bool)
        ensures
            final(self).policy() == policy,
            redraw == (old(self).policy() != policy),
    ;

    /// The policy in force.
    fn scale(&self) -> (policy: ScalePolicy)
        ensures
            policy == self.policy(),
    ;
}

/// Making an image control from a decoded picture.
pub trait NewImage: Sized {
    /// A control that shows `content`.
    fn with_content(content: DynamicImage) -> Self;
}

/// Owns the decoded bitmap and the scale policy, and keeps track of whether
/// the native picture has to be made again.
pub struct ImageHolder {
    source: SourceImage,
    policy: ScalePolicy,
    state: RenderState,
    viewport: Size,
}

impl View for ImageHolder {
    type V = HolderView;

    closed spec fn view(&self) -> HolderView {
        HolderView {
            source: self.source@,
            policy: self.policy,
            state: self.state,
            viewport: self.viewport,
        }
    }
}

impl ImageHolder {
    /// Stores the bitmap. The policy is `FitCenter`; no viewport is known
    /// yet and nothing is painted, so the holder is stale.
    pub fn create(source: SourceImage) -> (holder: ImageHolder)
        ensures
            holder@ == HolderView::created(source@),
    {
        ImageHolder {
            source,
            policy: ScalePolicy::FitCenter,
            state: RenderState::Dirty,
            viewport: Size { width: 0, height: 0 },
        }
    }

    /// Replaces the bitmap wholesale; the holder is stale afterwards.
    pub fn set_content(&mut self, source: SourceImage)
        ensures
            final(self)@ == old(self)@.with_source(source@),
    {
        self.source = source;
        self.state = RenderState::Dirty;
    }

    /// The bitmap.
    pub fn source(&self) -> (source: &SourceImage)
        ensures
            source@ == self@.source,
    {
        &self.source
    }

    /// Clean or stale.
    pub fn state(&self) -> (state: RenderState)
        ensures
            state == self@.state,
    {
        self.state
    }

    /// The viewport that the holder was last measured or rendered for.
    pub fn size(&self) -> (size: Size)
        ensures
            size == self@.viewport,
    {
        self.viewport
    }

    /// Whether a paint in `viewport` has anything to do.
    pub fn needs_render(&self, viewport: Size) -> (needed: bool)
        ensures
            needed == self@.stale_for(viewport),
    {
        self.state == RenderState::Dirty || self.viewport != viewport
    }

    /// Measures the widget and remembers the result as its viewport.
    ///
    /// The size is `(0, 0)` when the widget is gone; otherwise each axis is
    /// the constraint itself where it is exact or fills the parent, and the
    /// intrinsic extent of the bitmap, unscaled, where the content is to be
    /// wrapped. The third result says whether the size differs from the last
    /// one; if it does, the holder is stale.
    pub fn measure(&mut self, visibility: Visibility, layout: Layout, parent: Size) -> (measured: (
        u32,
        u32,
        bool,
    ))
        ensures
            (Size { width: measured.0, height: measured.1 }) == measured_size_spec(
                visibility,
                layout,
                parent,
                old(self)@.source.size,
            ),
            measured.2 == (old(self)@.viewport != (Size {
                width: measured.0,
                height: measured.1,
            })),
            final(self)@ == old(self)@.measured(Size { width: measured.0, height: measured.1 }),
    {
        let size = measured_size(visibility, layout, parent, self.source.size());
        let changed = self.viewport != size;
        if changed {
            self.viewport = size;
            self.state = RenderState::Dirty;
        }
        (size.width, size.height, changed)
    }

    /// Says what is to be painted in `viewport`.
    ///
    /// The placement is computed afresh on every call. A viewport other than
    /// the last one makes the holder stale. Where the placement covers
    /// nothing the command is `Skip` and the holder is clean at once;
    /// otherwise the command is the blit of the placement, and the holder
    /// waits for `finish_render`.
    pub fn render(&mut self, viewport: Size) -> (command: RenderCommand)
        ensures
            command == old(self)@.command(viewport),
            final(self)@ == old(self)@.rendered(viewport),
            command matches RenderCommand::Blit(p) ==> {
                &&& p.dest.within(viewport)
                &&& p.source.within(old(self)@.source.size)
                &&& !p.dest.is_degenerate()
                &&& !p.source.is_degenerate()
            },
    {
        let placement = place(self.source.size(), viewport, self.policy);
        if self.viewport != viewport {
            self.viewport = viewport;
            self.state = RenderState::Dirty;
        }
        if placement.is_empty() {
            self.state = RenderState::Clean;
            RenderCommand::Skip
        } else {
            proof {
                lemma_blit_is_not_empty(old(self)@, viewport);
            }
            RenderCommand::Blit(placement)
        }
    }

    /// Reports how the native blit of the last `render` ended. After a
    /// success the holder is clean; after a failure it is stale, so that the
    /// next paint tries again.
    pub fn finish_render(&mut self, succeeded: bool)
        ensures
            final(self)@ == old(self)@.finished(succeeded),
    {
        self.state = if succeeded {
            RenderState::Clean
        } else {
            RenderState::Dirty
        };
    }
}

impl Image for ImageHolder {
    open spec fn policy(&self) -> ScalePolicy {
        self@.policy
    }

    /// Sets the policy. Setting the policy in force changes nothing and asks
    /// for no redraw; a new policy makes the holder stale.
    fn set_scale(&mut self, policy: ScalePolicy) -> (redraw: bool)
        ensures
            final(self)@ == old(self)@.with_policy(policy),
            redraw == old(self)@.asks_redraw(policy),
    {
        if self.policy != policy {
            self.policy = policy;
            self.state = RenderState::Dirty;
            true
        } else {
            false
        }
    }

    fn scale(&self) -> (policy: ScalePolicy)
        ensures
            policy == self@.policy,
    {
        self.policy
    }
}

impl NewImage for ImageHolder {
    /// A new holder for the pixels of `content`, converted to 8-bit RGBA.
    fn with_content(content: DynamicImage) -> (holder: ImageHolder)
        ensures
            holder@ == HolderView::created(Raster::of_picture(content)),
            holder@.source.well_formed(),
    {
        ImageHolder::create(SourceImage::from_dynamic(&content))
    }
}

/// A blit always has pixels to read and pixels to paint.
pub proof fn lemma_blit_is_not_empty(holder: HolderView, viewport: Size)
    ensures
        holder.command(viewport) matches RenderCommand::Blit(p) ==> {
            &&& p == holder.placement(viewport)
            &&& !p.dest.is_degenerate()
            &&& !p.source.is_degenerate()
            &&& !viewport.is_degenerate()
            &&& !holder.source.size.is_degenerate()
        },
{
    if !holder.source.size.is_degenerate() {
        lemma_fit_extent(holder.source.size, viewport);
    }
}

/// Setting a policy twice is setting it once: the second call changes
/// nothing, asks for no redraw and is no transition from clean to stale.
pub proof fn lemma_set_scale_idempotent(holder: HolderView, policy: ScalePolicy)
    ensures
        holder.with_policy(policy).with_policy(policy) == holder.with_policy(policy),
        !holder.with_policy(policy).asks_redraw(policy),
        !turned_dirty(holder.with_policy(policy), holder.with_policy(policy).with_policy(policy)),
{
}

/// After a policy is set and the widget is painted with success, setting the
/// same policy again leaves the holder clean and unchanged, asks for no
/// redraw, and a paint in the same viewport has nothing to do.
pub proof fn lemma_repeated_scale_after_render(
    holder: HolderView,
    policy: ScalePolicy,
    viewport: Size,
)
    ensures
        ({
            let painted = holder.with_policy(policy).painted(viewport);
            &&& painted.state is Clean
            &&& painted.with_policy(policy) == painted
            &&& !painted.asks_redraw(policy)
            &&& !turned_dirty(painted, painted.with_policy(policy))
            &&& !painted.with_policy(policy).stale_for(viewport)
        }),
{
}

/// A failed blit leaves the holder stale, so the next paint in the same
/// viewport issues the same command again.
pub proof fn lemma_failed_blit_is_retried(holder: HolderView, viewport: Size)
    ensures
        ({
            let failed = holder.rendered(viewport).finished(false);
            &&& failed.state is Dirty
            &&& failed.stale_for(viewport)
            &&& failed.command(viewport) == holder.command(viewport)
        }),
{
}

/// The holder turns stale on a new policy, a new bitmap or a new viewport,
/// and on nothing else that `set_scale`, `measure` and `render` are given.
pub proof fn lemma_dirty_transitions(
    holder: HolderView,
    policy: ScalePolicy,
    source: Raster,
    viewport: Size,
)
    requires
        holder.state is Clean,
    ensures
        turned_dirty(holder, holder.with_policy(policy)) <==> holder.policy != policy,
        turned_dirty(holder, holder.with_source(source)),
        turned_dirty(holder, holder.with_viewport(viewport)) <==> holder.viewport != viewport,
        turned_dirty(holder, holder.rendered(viewport)) ==> holder.viewport != viewport,
{
}

} // verus!
