//! The scale policy of an image widget and its native encoding.

use vstd::prelude::*;

verus! {

/// How a bitmap is placed inside the area given to the widget.
#[derive(Debug, Clone, Copy, PartialEq, Eq, Structural)]
pub enum ScalePolicy {
    /// The centre of the bitmap fills the area at one pixel per pixel; what
    /// does not fit is cut off.
    CropCenter,
    /// The whole bitmap is scaled, keeping its proportions, to the largest
    /// size that fits, and centred.
    FitCenter,
}

/// The native image-scaling code that AppKit uses for a policy.
pub open spec fn nsscale_of(policy: ScalePolicy) -> u32 {
    match policy {
        ScalePolicy::CropCenter => 2,
        ScalePolicy::FitCenter => 3,
    }
}

/// The policy that a native image-scaling code stands for. A code that names
/// no policy is read as `FitCenter`.
pub open spec fn policy_of_nsscale(code: u32) -> ScalePolicy {
    if code == 2 {
        ScalePolicy::CropCenter
    } else {
        ScalePolicy::FitCenter
    }
}

/// Encodes a policy as the native image-scaling code.
pub fn policy_to_nsscale(i: ScalePolicy) -> (code: u32)
    ensures
        code == nsscale_of(i),
{
    match i {
        ScalePolicy::CropCenter => 2,
        ScalePolicy::FitCenter => 3,
    }
}

/// Decodes a native image-scaling code; an unknown code gives `FitCenter`.
pub fn nsscale_to_policy(i: u32) -> (policy: ScalePolicy)
    ensures
        policy == policy_of_nsscale(i),
{
    match i {
        3 => ScalePolicy::FitCenter,
        2 => ScalePolicy::CropCenter,
        _ => ScalePolicy::FitCenter,
    }
}

/// Decoding the code of a policy gives the policy back.
pub proof fn lemma_nsscale_round_trip(policy: ScalePolicy)
    ensures
        policy_of_nsscale(nsscale_of(policy)) == policy,
{
}

} // verus!
