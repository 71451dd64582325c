//! The render-loop state machine: it owns the GPU resources between ticks, hands them
//! out for exactly one tick at a time, and counts completed frames.
use vstd::prelude::*;
use crate::error::StateError;

verus! {

#[derive(Clone, Copy, Debug, PartialEq, Eq, Structural)]
pub enum Phase {
    /// No resources installed yet.
    Uninitialized,
    /// Resources installed; a tick may begin.
    Ready,
    /// The resources are checked out by the tick in progress.
    Ticking,
    /// An unrecoverable GPU error ended playback.
    Failed,
}

/// Owner of the resources `R` (GPU handles and the like) and of the frame counter.
#[derive(Debug)]
pub struct RenderLoop<R> {
    phase: Phase,
    resources: Option<R>,
    frame_count: u64,
}

impl<R> RenderLoop<R> {
    pub closed spec fn phase_spec(&self) -> Phase {
        self.phase
    }

    pub closed spec fn resources_spec(&self) -> Option<R> {
        self.resources
    }

    pub closed spec fn frames(&self) -> u64 {
        self.frame_count
    }

    /// Resources are held exactly when no tick has them checked out and the loop has
    /// started; a checked-out tick can always be counted.
    pub open spec fn wf(&self) -> bool {
        &&& (self.phase_spec() == Phase::Uninitialized ==> self.resources_spec() is None
            && self.frames() == 0)
        &&& (self.phase_spec() == Phase::Ready ==> self.resources_spec() is Some)
        &&& (self.phase_spec() == Phase::Failed ==> self.resources_spec() is Some)
        &&& (self.phase_spec() == Phase::Ticking ==> self.resources_spec() is None
            && self.frames() < u64::MAX)
    }

    pub fn new() -> (r: Self)
        ensures
            r.wf(),
            r.phase_spec() == Phase::Uninitialized,
            r.frames() == 0,
    {
        RenderLoop { phase: Phase::Uninitialized, resources: None, frame_count: 0 }
    }

    pub fn phase(&self) -> (r: Phase)
        ensures
            r == self.phase_spec(),
    {
        self.phase
    }

    pub fn frame_count(&self) -> (r: u64)
        ensures
            r == self.frames(),
    {
        self.frame_count
    }

    /// Installs freshly built resources and resets the frame counter. Refused while a
    /// tick has the old resources checked out.
    pub fn start(&mut self, resources: R) -> (r: Result<(), StateError>)
        requires
            old(self).wf(),
        ensures
            final(self).wf(),
            old(self).phase_spec() == Phase::Ticking ==> r == Err::<(), StateError>(
                StateError::TickInProgress,
            ) && *final(self) == *old(self),
            old(self).phase_spec() != Phase::Ticking ==> {
                &&& r is Ok
                &&& final(self).phase_spec() == Phase::Ready
                &&& final(self).resources_spec() == Some(resources)
                &&& final(self).frames() == 0
            },
    {
        if self.phase == Phase::Ticking {
            return Err(StateError::TickInProgress);
        }
        self.phase = Phase::Ready;
        self.resources = Some(resources);
        self.frame_count = 0;
        Ok(())
    }

    /// Checks the resources out for one tick and returns them with the number of the frame
    /// to draw. Only a `Ready` loop can begin a tick; a second tick cannot begin before the
    /// first is handed back.
    pub fn begin_frame(&mut self) -> (r: Result<(R, u64), StateError>)
        requires
            old(self).wf(),
        ensures
            final(self).wf(),
            match old(self).phase_spec() {
                Phase::Uninitialized => r == Err::<(R, u64), StateError>(StateError::NotStarted)
                    && *final(self) == *old(self),
                Phase::Failed => r == Err::<(R, u64), StateError>(StateError::Failed)
                    && *final(self) == *old(self),
                Phase::Ticking => r == Err::<(R, u64), StateError>(StateError::TickInProgress)
                    && *final(self) == *old(self),
                Phase::Ready => if old(self).frames() == u64::MAX {
                    r == Err::<(R, u64), StateError>(StateError::CounterExhausted) && *final(self)
                        == *old(self)
                } else {
                    &&& r is Ok
                    &&& Some(r->Ok_0.0) == old(self).resources_spec()
                    &&& r->Ok_0.1 == old(self).frames()
                    &&& final(self).phase_spec() == Phase::Ticking
                    &&& final(self).frames() == old(self).frames()
                },
            },
    {
        match self.phase {
            Phase::Uninitialized => Err(StateError::NotStarted),
            Phase::Failed => Err(StateError::Failed),
            Phase::Ticking => Err(StateError::TickInProgress),
            Phase::Ready => {
                if self.frame_count == u64::MAX {
                    return Err(StateError::CounterExhausted);
                }
                let res = self.resources.take();
                match res {
                    Some(res) => {
                        self.phase = Phase::Ticking;
                        Ok((res, self.frame_count))
                    },
                    None => {
                        assert(false);
                        Err(StateError::NotStarted)
                    },
                }
            },
        }
    }

    /// Hands the resources back after a completed tick and counts the frame.
    pub fn finish_frame(&mut self, resources: R) -> (r: Result<(), StateError>)
        requires
            old(self).wf(),
        ensures
            final(self).wf(),
            old(self).phase_spec() != Phase::Ticking ==> r == Err::<(), StateError>(
                StateError::NoTickInProgress,
            ) && *final(self) == *old(self),
            old(self).phase_spec() == Phase::Ticking ==> {
                &&& r is Ok
                &&& final(self).phase_spec() == Phase::Ready
                &&& final(self).resources_spec() == Some(resources)
                &&& final(self).frames() == old(self).frames() + 1
            },
    {
        if self.phase != Phase::Ticking {
            return Err(StateError::NoTickInProgress);
        }
        self.resources = Some(resources);
        self.frame_count = self.frame_count + 1;
        self.phase = Phase::Ready;
        Ok(())
    }

    /// Hands the resources back after an unrecoverable GPU error; the loop stops. The frame
    /// is not counted.
    pub fn abort_frame(&mut self, resources: R) -> (r: Result<(), StateError>)
        requires
            old(self).wf(),
        ensures
            final(self).wf(),
            old(self).phase_spec() != Phase::Ticking ==> r == Err::<(), StateError>(
                StateError::NoTickInProgress,
            ) && *final(self) == *old(self),
            old(self).phase_spec() == Phase::Ticking ==> {
                &&& r is Ok
                &&& final(self).phase_spec() == Phase::Failed
                &&& final(self).resources_spec() == Some(resources)
                &&& final(self).frames() == old(self).frames()
            },
    {
        if self.phase != Phase::Ticking {
            return Err(StateError::NoTickInProgress);
        }
        self.resources = Some(resources);
        self.phase = Phase::Failed;
        Ok(())
    }
}

} // verus!
