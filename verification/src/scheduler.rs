use vstd::prelude::*;

verus! {

/// The two states of the render-loop scheduler: no frame callback is
/// pending, or exactly one callback is registered with the host's
/// frame-pacing mechanism.
#[derive(Clone, Copy, PartialEq, Eq, Structural, Debug)]
pub enum LoopPhase {
    Idle,
    Scheduled,
}

/// The render-loop scheduler. Its invariant is that at most one frame
/// callback is ever pending per active loop: `Scheduled` stands for
/// exactly one pending callback, and re-arming happens only from inside
/// the callback itself, never speculatively. The host invokes pending
/// callbacks strictly sequentially, so `frames_completed` counts the
/// callback invocations one by one.
#[derive(Debug)]
pub struct RenderLoop {
    pub phase: LoopPhase,
    pub frames_completed: u64,
}

impl RenderLoop {
    pub fn new() -> (r: RenderLoop)
        ensures
            r.phase is Idle,
            r.frames_completed == 0,
    {
        RenderLoop { phase: LoopPhase::Idle, frames_completed: 0 }
    }

    /// Starts the loop: registers the first frame callback with the
    /// host. Only an idle loop may start, which keeps the pending
    /// callbacks at one.
    pub fn start(&mut self)
        requires
            old(self).phase is Idle,
        ensures
            final(self).phase is Scheduled,
            final(self).frames_completed == old(self).frames_completed,
    {
        self.phase = LoopPhase::Scheduled;
    }

    /// Accounts for the host invoking the pending callback: the frame
    /// work has run to completion and the callback has re-registered
    /// itself, so one pacing tick invokes the callback exactly once and
    /// leaves exactly one callback pending for the next tick. The loop
    /// is self-perpetuating and has no stop operation in scope.
    pub fn frame_delivered(&mut self)
        requires
            old(self).phase is Scheduled,
            old(self).frames_completed < u64::MAX,
        ensures
            final(self).phase is Scheduled,
            final(self).frames_completed == old(self).frames_completed + 1,
    {
        self.frames_completed = self.frames_completed + 1;
    }
}

} // verus!
