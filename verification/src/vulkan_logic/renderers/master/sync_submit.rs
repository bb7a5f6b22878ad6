use vstd::prelude::*;

verus! {

/// What acquiring the next swapchain image returned.
#[derive(Clone, Copy, Debug, PartialEq, Eq, Structural)]
pub enum AcquireOutcome {
    /// An image index, and whether the swapchain no longer matches the surface exactly.
    Acquired { index: u32, suboptimal: bool },
    /// `VK_ERROR_OUT_OF_DATE_KHR`.
    OutOfDate,
    /// Any other error.
    Failed,
}

/// What the frame does after acquiring.
#[derive(Clone, Copy, Debug, PartialEq, Eq, Structural)]
pub enum AcquireAction {
    /// Record and submit this frame into image `index`.
    Render { index: u32 },
    /// Rebuild the swapchain, clear the resize flag, and skip this frame.
    Recreate,
    /// Report the acquire error.
    Fail,
}

/// What presenting the rendered image returned.
#[derive(Clone, Copy, Debug, PartialEq, Eq, Structural)]
pub enum PresentOutcome {
    /// Presented; whether the swapchain no longer matches the surface exactly.
    Presented { suboptimal: bool },
    /// `VK_ERROR_OUT_OF_DATE_KHR`.
    OutOfDate,
    /// Any other error.
    Failed,
}

/// What the frame does after presenting.
#[derive(Clone, Copy, Debug, PartialEq, Eq, Structural)]
pub enum PresentAction {
    /// The frame is complete.
    Done,
    /// Rebuild the swapchain and clear the resize flag.
    Recreate,
    /// Report the present error.
    Fail,
}

/// The reaction to an acquire: a stale swapchain (suboptimal, out of date,
/// or a pending window resize) is rebuilt and the frame skipped.
pub open spec fn acquire_action_spec(is_resized: bool, outcome: AcquireOutcome) -> AcquireAction {
    match outcome {
        AcquireOutcome::Acquired { index, suboptimal } => if suboptimal || is_resized {
            AcquireAction::Recreate
        } else {
            AcquireAction::Render { index }
        },
        AcquireOutcome::OutOfDate => AcquireAction::Recreate,
        AcquireOutcome::Failed => AcquireAction::Fail,
    }
}

/// The reaction to a present: a stale swapchain (suboptimal, out of date, or
/// a pending window resize) is rebuilt.
pub open spec fn present_action_spec(is_resized: bool, outcome: PresentOutcome) -> PresentAction {
    match outcome {
        PresentOutcome::Presented { suboptimal } => if suboptimal || is_resized {
            PresentAction::Recreate
        } else {
            PresentAction::Done
        },
        PresentOutcome::OutOfDate => PresentAction::Recreate,
        PresentOutcome::Failed => PresentAction::Fail,
    }
}

/// Decides what follows an image acquire, given whether the window was resized.
pub fn acquire_action(is_resized: bool, outcome: AcquireOutcome) -> (r: AcquireAction)
    ensures
        r == acquire_action_spec(is_resized, outcome),
{
    match outcome {
        AcquireOutcome::Acquired { index, suboptimal } => {
            if suboptimal || is_resized {
                AcquireAction::Recreate
            } else {
                AcquireAction::Render { index }
            }
        },
        AcquireOutcome::OutOfDate => AcquireAction::Recreate,
        AcquireOutcome::Failed => AcquireAction::Fail,
    }
}

/// Decides what follows a present, given whether the window was resized.
pub fn present_action(is_resized: bool, outcome: PresentOutcome) -> (r: PresentAction)
    ensures
        r == present_action_spec(is_resized, outcome),
{
    match outcome {
        PresentOutcome::Presented { suboptimal } => {
            if suboptimal || is_resized {
                PresentAction::Recreate
            } else {
                PresentAction::Done
            }
        },
        PresentOutcome::OutOfDate => PresentAction::Recreate,
        PresentOutcome::Failed => PresentAction::Fail,
    }
}

/// A frame is only recorded into an image that was acquired from an up-to-date
/// swapchain with no resize pending, and into that very image; a pending resize
/// always leads to a rebuild unless the acquire or present failed.
pub proof fn lemma_render_only_when_fresh(is_resized: bool, a: AcquireOutcome, p: PresentOutcome)
    ensures
        acquire_action_spec(is_resized, a) matches AcquireAction::Render { index } ==> {
            &&& !is_resized
            &&& a == (AcquireOutcome::Acquired { index, suboptimal: false })
        },
        is_resized && !(a is Failed) ==> acquire_action_spec(is_resized, a) == AcquireAction::Recreate,
        is_resized && !(p is Failed) ==> present_action_spec(is_resized, p) == PresentAction::Recreate,
        (acquire_action_spec(is_resized, a) is Fail) <==> (a is Failed),
        (present_action_spec(is_resized, p) is Fail) <==> (p is Failed),
{
}

/// The resize flag once an acquire was handled without error: a rebuild of
/// the swapchain clears it, anything else leaves it as it was.
pub open spec fn resized_after_acquire_spec(is_resized: bool, action: AcquireAction) -> bool {
    if action is Recreate { false } else { is_resized }
}

/// The resize flag once a present was handled without error: a rebuild of
/// the swapchain clears it, anything else leaves it as it was.
pub open spec fn resized_after_present_spec(is_resized: bool, action: PresentAction) -> bool {
    if action is Recreate { false } else { is_resized }
}

/// The resize flag after the swapchain was rebuilt (or not) for `action`.
pub fn resized_after_acquire(is_resized: bool, action: AcquireAction) -> (r: bool)
    ensures
        r == resized_after_acquire_spec(is_resized, action),
{
    match action {
        AcquireAction::Recreate => false,
        _ => is_resized,
    }
}

/// The resize flag after the swapchain was rebuilt (or not) for `action`.
pub fn resized_after_present(is_resized: bool, action: PresentAction) -> (r: bool)
    ensures
        r == resized_after_present_spec(is_resized, action),
{
    match action {
        PresentAction::Recreate => false,
        _ => is_resized,
    }
}

/// A frame ends without error: neither its acquire nor, when it renders, its
/// present failed.
pub open spec fn frame_ok(is_resized: bool, a: AcquireOutcome, p: PresentOutcome) -> bool {
    match acquire_action_spec(is_resized, a) {
        AcquireAction::Fail => false,
        AcquireAction::Recreate => true,
        AcquireAction::Render { .. } => !(present_action_spec(is_resized, p) is Fail),
    }
}

/// Whether the frame rebuilt the swapchain, at acquire or at present.
pub open spec fn frame_rebuilds(is_resized: bool, a: AcquireOutcome, p: PresentOutcome) -> bool {
    match acquire_action_spec(is_resized, a) {
        AcquireAction::Recreate => true,
        AcquireAction::Render { .. } => present_action_spec(is_resized, p) is Recreate,
        AcquireAction::Fail => false,
    }
}

/// The resize flag at the end of a frame whose acquire gave `a` and, when it
/// rendered, whose present gave `p`.
pub open spec fn frame_resized_after(is_resized: bool, a: AcquireOutcome, p: PresentOutcome) -> bool {
    let act = acquire_action_spec(is_resized, a);
    match act {
        AcquireAction::Render { .. } => resized_after_present_spec(is_resized, present_action_spec(is_resized, p)),
        _ => resized_after_acquire_spec(is_resized, act),
    }
}

/// A pending resize is answered within the next frame that ends without
/// error: that frame rebuilds the swapchain, and every such frame leaves the
/// resize flag clear.
pub proof fn lemma_resize_answered(is_resized: bool, a: AcquireOutcome, p: PresentOutcome)
    requires
        frame_ok(is_resized, a, p),
    ensures
        !frame_resized_after(is_resized, a, p),
        is_resized ==> frame_rebuilds(is_resized, a, p),
{
}


/// Every acquire result and its reaction, stated on the inputs: an image
/// acquired from an up-to-date swapchain with no resize pending is rendered
/// into, that very image; a suboptimal image, a pending resize or an
/// out-of-date swapchain rebuilds it; only a failed acquire fails.
pub proof fn lemma_acquire_reactions(is_resized: bool, index: u32, suboptimal: bool)
    ensures
        !is_resized ==> acquire_action_spec(is_resized, AcquireOutcome::Acquired { index, suboptimal: false })
            == (AcquireAction::Render { index }),
        (suboptimal || is_resized) ==> acquire_action_spec(is_resized, AcquireOutcome::Acquired { index, suboptimal })
            == AcquireAction::Recreate,
        acquire_action_spec(is_resized, AcquireOutcome::OutOfDate) == AcquireAction::Recreate,
        acquire_action_spec(is_resized, AcquireOutcome::Failed) == AcquireAction::Fail,
{
}

/// Every present result and its reaction, stated on the inputs: an image
/// presented to an up-to-date swapchain with no resize pending completes the
/// frame; a suboptimal swapchain, a pending resize or an out-of-date one is
/// rebuilt; only a failed present fails.
pub proof fn lemma_present_reactions(is_resized: bool, suboptimal: bool)
    ensures
        !is_resized ==> present_action_spec(is_resized, PresentOutcome::Presented { suboptimal: false })
            == PresentAction::Done,
        (suboptimal || is_resized) ==> present_action_spec(is_resized, PresentOutcome::Presented { suboptimal })
            == PresentAction::Recreate,
        present_action_spec(is_resized, PresentOutcome::OutOfDate) == PresentAction::Recreate,
        present_action_spec(is_resized, PresentOutcome::Failed) == PresentAction::Fail,
{
}

/// The resize flag after each reaction: a rebuild clears it; rendering,
/// finishing or failing keeps it.
pub proof fn lemma_resize_flag_values(is_resized: bool, index: u32)
    ensures
        resized_after_acquire_spec(is_resized, AcquireAction::Recreate) == false,
        resized_after_acquire_spec(is_resized, AcquireAction::Render { index }) == is_resized,
        resized_after_acquire_spec(is_resized, AcquireAction::Fail) == is_resized,
        resized_after_present_spec(is_resized, PresentAction::Recreate) == false,
        resized_after_present_spec(is_resized, PresentAction::Done) == is_resized,
        resized_after_present_spec(is_resized, PresentAction::Fail) == is_resized,
{
}

} // verus!
