//! The phases of a frame, from the acquisition of its image to its
//! presentation, and the ways in which an acquisition can fail.

use vstd::prelude::*;

verus! {

/// Why no image could be acquired from the presentation surface.
#[derive(Clone, Copy, Debug, PartialEq, Eq)]
pub enum SurfaceError {
    /// No image became free in time.
    Timeout,
    /// The surface changed and should be configured again.
    Outdated,
    /// The surface was lost and must be configured again.
    Lost,
    /// There is no memory left for an image.
    OutOfMemory,
}

/// Where a frame stands.
#[derive(Clone, Copy, Debug, PartialEq, Eq)]
pub enum FramePhase {
    /// Between frames.
    Idle,
    /// An image to draw into is held.
    ImageAcquired,
    /// Commands are being recorded.
    Encoding,
    /// The recorded commands were handed to the queue.
    Submitted,
    /// The image was handed back for display.
    Presented,
    /// The surface was lost; it has to be configured again.
    Lost,
    /// The device is out of memory; the process has to end.
    Fatal,
}

/// What moves a frame from one phase to the next.
#[derive(Clone, Copy, Debug, PartialEq, Eq)]
pub enum FrameStep {
    /// An image was asked for, with this outcome.
    Acquire(Result<(), SurfaceError>),
    /// Recording began.
    OpenEncoder,
    /// The commands were submitted.
    Submit,
    /// The image was presented.
    Present,
    /// The frame was closed.
    Finish,
    /// The surface was configured again.
    Reconfigure,
}

impl FramePhase {
    /// The phase that follows `self` on `step`; `None` where the step has no
    /// place in that phase.
    ///
    /// A frame runs Idle, ImageAcquired, Encoding, Submitted, Presented and
    /// back to Idle. A failed acquisition leaves Idle for Lost when the
    /// surface was lost, for Fatal when memory ran out, and otherwise drops
    /// the frame and stays Idle. Lost is left by configuring the surface
    /// again; Fatal is never left.
    pub open spec fn after(self, step: FrameStep) -> Option<FramePhase> {
        match (self, step) {
            (FramePhase::Idle, FrameStep::Acquire(Ok(_))) => Some(FramePhase::ImageAcquired),
            (FramePhase::Idle, FrameStep::Acquire(Err(SurfaceError::Lost))) => Some(
                FramePhase::Lost,
            ),
            (FramePhase::Idle, FrameStep::Acquire(Err(SurfaceError::OutOfMemory))) => Some(
                FramePhase::Fatal,
            ),
            (FramePhase::Idle, FrameStep::Acquire(Err(_))) => Some(FramePhase::Idle),
            (FramePhase::ImageAcquired, FrameStep::OpenEncoder) => Some(FramePhase::Encoding),
            (FramePhase::Encoding, FrameStep::Submit) => Some(FramePhase::Submitted),
            (FramePhase::Submitted, FrameStep::Present) => Some(FramePhase::Presented),
            (FramePhase::Presented, FrameStep::Finish) => Some(FramePhase::Idle),
            (FramePhase::Lost, FrameStep::Reconfigure) => Some(FramePhase::Idle),
            _ => None,
        }
    }

    /// The phase reached from `self` by taking `steps` one after the other;
    /// `None` as soon as one of them has no place.
    pub open spec fn run(self, steps: Seq<FrameStep>) -> Option<FramePhase>
        decreases steps.len(),
    {
        if steps.len() == 0 {
            Some(self)
        } else {
            match self.after(steps[0]) {
                Some(next) => next.run(steps.skip(1)),
                None => None,
            }
        }
    }

    /// The phase that follows `self` on `step`, if the step has a place
    /// there.
    pub fn advance(self, step: FrameStep) -> (next: Option<FramePhase>)
        ensures
            next == self.after(step),
    {
        match (self, step) {
            (FramePhase::Idle, FrameStep::Acquire(Ok(_))) => Some(FramePhase::ImageAcquired),
            (FramePhase::Idle, FrameStep::Acquire(Err(SurfaceError::Lost))) => Some(
                FramePhase::Lost,
            ),
            (FramePhase::Idle, FrameStep::Acquire(Err(SurfaceError::OutOfMemory))) => Some(
                FramePhase::Fatal,
            ),
            (FramePhase::Idle, FrameStep::Acquire(Err(_))) => Some(FramePhase::Idle),
            (FramePhase::ImageAcquired, FrameStep::OpenEncoder) => Some(FramePhase::Encoding),
            (FramePhase::Encoding, FrameStep::Submit) => Some(FramePhase::Submitted),
            (FramePhase::Submitted, FrameStep::Present) => Some(FramePhase::Presented),
            (FramePhase::Presented, FrameStep::Finish) => Some(FramePhase::Idle),
            (FramePhase::Lost, FrameStep::Reconfigure) => Some(FramePhase::Idle),
            _ => None,
        }
    }
}

/// A frame whose image was acquired, and that is then encoded, submitted,
/// presented and closed, ends where it began.
pub proof fn lemma_frame_completes()
    ensures
        FramePhase::Idle.run(
            seq![
                FrameStep::Acquire(Ok(())),
                FrameStep::OpenEncoder,
                FrameStep::Submit,
                FrameStep::Present,
                FrameStep::Finish,
            ],
        ) == Some(FramePhase::Idle),
{
    reveal_with_fuel(FramePhase::run, 6);
    let steps = seq![
        FrameStep::Acquire(Ok(())),
        FrameStep::OpenEncoder,
        FrameStep::Submit,
        FrameStep::Present,
        FrameStep::Finish,
    ];
    assert(steps.skip(1).skip(1).skip(1).skip(1).skip(1).len() == 0);
}

/// Nothing is submitted that was not encoded, and nothing is presented that
/// was not submitted: a frame is either carried through or given up before
/// any submission.
pub proof fn lemma_submission_order(phase: FramePhase)
    ensures
        phase.after(FrameStep::Submit) is Some <==> phase == FramePhase::Encoding,
        phase.after(FrameStep::Present) is Some <==> phase == FramePhase::Submitted,
        phase.after(FrameStep::OpenEncoder) is Some <==> phase == FramePhase::ImageAcquired,
{
}

/// After the surface was lost no image can be acquired until the surface
/// has been configured again, and configuring it makes the next frame
/// possible.
pub proof fn lemma_lost_needs_reconfigure(outcome: Result<(), SurfaceError>)
    ensures
        FramePhase::Idle.after(FrameStep::Acquire(Err(SurfaceError::Lost))) == Some(
            FramePhase::Lost,
        ),
        FramePhase::Lost.after(FrameStep::Acquire(outcome)) is None,
        FramePhase::Lost.after(FrameStep::Reconfigure) == Some(FramePhase::Idle),
        FramePhase::Idle.after(FrameStep::Acquire(outcome)) is Some,
{
}

/// Once memory ran out nothing more happens.
pub proof fn lemma_fatal_is_final(step: FrameStep)
    ensures
        FramePhase::Fatal.after(step) is None,
{
}

} // verus!
