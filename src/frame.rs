use vstd::prelude::*;
use crate::surface::{surface_ids, Surface, SurfaceRegistry, WindowId};

verus! {

/// Accumulates the frame's drawing commands until they are finalized.
#[derive(Clone, Copy, Debug, PartialEq, Eq, Structural)]
pub struct CommandRecorder {
    /// Number of render passes opened on this recorder.
    pub passes_opened: u64,
}

/// One recorded render pass, targeting the current image of one window's surface.
#[derive(Clone, Copy, Debug, PartialEq, Eq, Structural)]
pub struct RenderPass {
    pub window: WindowId,
    pub width: u32,
    pub height: u32,
}

/// Finalized, submission-ready work of one frame.
#[derive(Debug)]
pub struct CommandBuffer {
    /// Render passes in submission order.
    pub passes: Vec<RenderPass>,
}

/// Where a frame stands on its way from empty to submitted and back.
#[derive(Clone, Copy, Debug, PartialEq, Eq, Structural)]
pub enum FramePhase {
    Empty,
    Recording,
    PassesQueued,
    Finalized,
    Submitted,
}

/// A stage was invoked on a frame that is not in a state that stage accepts.
#[derive(Clone, Copy, Debug, PartialEq, Eq, Structural)]
pub enum FrameError {
    /// Prepare found a recorder already allocated for this frame.
    RecorderAlreadyActive,
    /// The stage does not apply in the frame's current phase.
    OutOfOrder(FramePhase),
    /// Recording the passes would exceed the largest sequence the frame can hold.
    PassLimit,
}

/// The render pass that the Queue stage records for a surface.
pub open spec fn pass_for(s: Surface) -> RenderPass {
    RenderPass { window: s.window, width: s.attributes.width, height: s.attributes.height }
}

/// The render passes for a sequence of surfaces, one each, in order.
pub open spec fn passes_for(s: Seq<Surface>) -> Seq<RenderPass> {
    s.map_values(|x: Surface| pass_for(x))
}

/// A window without a surface draws nothing: Queue records one pass per live
/// surface and none of them targets a window that has no surface.
pub proof fn lemma_unregistered_window_draws_nothing(reg: Seq<Surface>, w: WindowId)
    requires
        !surface_ids(reg).contains(w),
    ensures
        passes_for(reg).len() == reg.len(),
        forall|i: int| 0 <= i < passes_for(reg).len() ==> (#[trigger] passes_for(reg)[i]).window != w,
{
    assert forall|i: int| 0 <= i < passes_for(reg).len() implies (#[trigger] passes_for(
        reg,
    )[i]).window != w by {
        assert(surface_ids(reg)[i] == reg[i].window);
    }
}

/// What a frame holds, as the stages see it.
pub struct FrameModel {
    pub phase: FramePhase,
    pub recorder: bool,
    pub pending: Seq<RenderPass>,
    pub finalized: Option<Seq<RenderPass>>,
}

/// A frame holding nothing.
pub open spec fn clear_model() -> FrameModel {
    FrameModel { phase: FramePhase::Empty, recorder: false, pending: Seq::empty(), finalized: None }
}

/// A frame with a fresh recorder and nothing recorded.
pub open spec fn recording_model() -> FrameModel {
    FrameModel { phase: FramePhase::Recording, recorder: true, pending: Seq::empty(), finalized: None }
}

/// Prepare on a frame `m`: the frame after, and the outcome.
pub open spec fn prepare_step(m: FrameModel) -> (FrameModel, Result<(), FrameError>) {
    if m.phase == FramePhase::Empty {
        (recording_model(), Ok(()))
    } else if m.recorder {
        (m, Err(FrameError::RecorderAlreadyActive))
    } else {
        (m, Err(FrameError::OutOfOrder(m.phase)))
    }
}

/// PreQueue on a frame `m`.
pub open spec fn pre_queue_step(m: FrameModel) -> (FrameModel, Result<(), FrameError>) {
    if m.phase == FramePhase::Empty {
        (recording_model(), Ok(()))
    } else if m.recorder {
        (m, Ok(()))
    } else {
        (m, Err(FrameError::OutOfOrder(m.phase)))
    }
}

/// Queue on a frame `m` against the live surfaces `reg`.
pub open spec fn queue_step(m: FrameModel, reg: Seq<Surface>) -> (FrameModel, Result<usize, FrameError>) {
    if !m.recorder {
        (m, Err(FrameError::OutOfOrder(m.phase)))
    } else if m.pending.len() + reg.len() > usize::MAX {
        (m, Err(FrameError::PassLimit))
    } else {
        (
            FrameModel {
                phase: FramePhase::PassesQueued,
                recorder: true,
                pending: m.pending + passes_for(reg),
                finalized: None,
            },
            Ok(reg.len() as usize),
        )
    }
}

/// FinishQueue on a frame `m`.
pub open spec fn finish_queue_step(m: FrameModel) -> (FrameModel, Result<(), FrameError>) {
    if !m.recorder {
        (m, Err(FrameError::OutOfOrder(m.phase)))
    } else {
        (
            FrameModel {
                phase: FramePhase::Finalized,
                recorder: false,
                pending: Seq::empty(),
                finalized: Some(m.pending),
            },
            Ok(()),
        )
    }
}

/// Render on a frame `m`: the frame after, and the passes handed out.
pub open spec fn render_step(m: FrameModel) -> (FrameModel, Result<Seq<RenderPass>, FrameError>) {
    if m.phase != FramePhase::Finalized || m.finalized is None {
        (m, Err(FrameError::OutOfOrder(m.phase)))
    } else {
        (
            FrameModel {
                phase: FramePhase::Submitted,
                recorder: false,
                pending: Seq::empty(),
                finalized: None,
            },
            Ok(m.finalized.unwrap()),
        )
    }
}

/// Per-frame transient state: the active recorder and the passes awaiting submission.
pub struct FrameState {
    phase: FramePhase,
    recorder: Option<CommandRecorder>,
    pending: Vec<RenderPass>,
    finalized: Option<CommandBuffer>,
}

impl FrameState {
    pub closed spec fn phase_of(&self) -> FramePhase {
        self.phase
    }

    pub closed spec fn has_recorder(&self) -> bool {
        self.recorder is Some
    }

    /// Passes recorded this frame and not yet finalized, in submission order.
    pub closed spec fn pending(&self) -> Seq<RenderPass> {
        self.pending@
    }

    /// The finalized passes waiting for Render, if any.
    pub closed spec fn finalized(&self) -> Option<Seq<RenderPass>> {
        match self.finalized {
            Some(b) => Some(b.passes@),
            None => None,
        }
    }

    /// What the frame holds.
    pub open spec fn model(&self) -> FrameModel {
        FrameModel {
            phase: self.phase_of(),
            recorder: self.has_recorder(),
            pending: self.pending(),
            finalized: self.finalized(),
        }
    }

    /// Nothing of a frame is held: the state every frame starts from.
    pub open spec fn is_clear(&self) -> bool {
        &&& self.phase_of() == FramePhase::Empty
        &&& !self.has_recorder()
        &&& self.pending().len() == 0
        &&& self.finalized() is None
    }

    /// The phase agrees with what is held.
    pub open spec fn wf(&self) -> bool {
        match self.phase_of() {
            FramePhase::Empty => self.is_clear(),
            FramePhase::Recording => self.has_recorder() && self.pending().len() == 0
                && self.finalized() is None,
            FramePhase::PassesQueued => self.has_recorder() && self.finalized() is None,
            FramePhase::Finalized => !self.has_recorder() && self.pending().len() == 0
                && self.finalized() is Some,
            FramePhase::Submitted => !self.has_recorder() && self.pending().len() == 0
                && self.finalized() is None,
        }
    }

    /// A frame with nothing allocated.
    pub fn new() -> (r: FrameState)
        ensures
            r.wf(),
            r.is_clear(),
    {
        FrameState { phase: FramePhase::Empty, recorder: None, pending: Vec::new(), finalized: None }
    }

    /// Where the frame stands.
    pub fn phase(&self) -> (r: FramePhase)
        ensures
            r == self.phase_of(),
    {
        self.phase
    }

    /// Whether a command recorder is allocated.
    pub fn recorder_active(&self) -> (r: bool)
        ensures
            r == self.has_recorder(),
    {
        self.recorder.is_some()
    }

    /// Number of passes recorded and not yet finalized.
    pub fn pending_len(&self) -> (r: usize)
        ensures
            r == self.pending().len(),
    {
        self.pending.len()
    }

    /// Prepare: allocates the frame's command recorder.
    ///
    /// A second allocation is refused rather than leaking the first recorder.
    pub fn prepare(&mut self) -> (r: Result<(), FrameError>)
        requires
            old(self).wf(),
        ensures
            final(self).wf(),
            old(self).phase_of() == FramePhase::Empty ==> r is Ok && final(self).phase_of()
                == FramePhase::Recording && final(self).has_recorder(),
            old(self).phase_of() != FramePhase::Empty && old(self).has_recorder() ==> r == Err::<
                (),
                FrameError,
            >(FrameError::RecorderAlreadyActive),
            old(self).phase_of() != FramePhase::Empty && !old(self).has_recorder() ==> r == Err::<
                (),
                FrameError,
            >(FrameError::OutOfOrder(old(self).phase_of())),
            r is Err ==> *final(self) == *old(self),
            final(self).model() == prepare_step(old(self).model()).0,
            r == prepare_step(old(self).model()).1,
    {
        match self.phase {
            FramePhase::Empty => {
                self.recorder = Some(CommandRecorder { passes_opened: 0 });
                self.phase = FramePhase::Recording;
                assert(self.pending@ =~= Seq::<RenderPass>::empty());
                Ok(())
            },
            _ => {
                if self.recorder.is_some() {
                    Err(FrameError::RecorderAlreadyActive)
                } else {
                    Err(FrameError::OutOfOrder(self.phase))
                }
            },
        }
    }

    /// PreQueue: makes sure a recorder exists before passes are recorded; an
    /// already prepared frame is left as it is.
    pub fn pre_queue(&mut self) -> (r: Result<(), FrameError>)
        requires
            old(self).wf(),
        ensures
            final(self).wf(),
            old(self).phase_of() == FramePhase::Empty ==> r is Ok && final(self).phase_of()
                == FramePhase::Recording && final(self).has_recorder(),
            old(self).has_recorder() ==> r is Ok && *final(self) == *old(self),
            old(self).phase_of() != FramePhase::Empty && !old(self).has_recorder() ==> r == Err::<
                (),
                FrameError,
            >(FrameError::OutOfOrder(old(self).phase_of())) && *final(self) == *old(self),
            final(self).model() == pre_queue_step(old(self).model()).0,
            r == pre_queue_step(old(self).model()).1,
    {
        match self.phase {
            FramePhase::Empty => {
                self.recorder = Some(CommandRecorder { passes_opened: 0 });
                self.phase = FramePhase::Recording;
                assert(self.pending@ =~= Seq::<RenderPass>::empty());
                Ok(())
            },
            FramePhase::Recording | FramePhase::PassesQueued => Ok(()),
            _ => Err(FrameError::OutOfOrder(self.phase)),
        }
    }

    /// Queue: records one render pass for every live surface, in registry order.
    /// A window without a surface contributes nothing. Returns the number of
    /// passes recorded.
    pub fn queue(&mut self, registry: &SurfaceRegistry) -> (r: Result<usize, FrameError>)
        requires
            old(self).wf(),
        ensures
            final(self).wf(),
            r is Ok <==> old(self).has_recorder() && old(self).pending().len() + registry@.len()
                <= usize::MAX,
            r matches Ok(n) ==> n == registry@.len() && final(self).phase_of()
                == FramePhase::PassesQueued && final(self).has_recorder() && final(self).pending()
                == old(self).pending() + passes_for(registry@) && final(self).finalized() is None,
            !old(self).has_recorder() ==> r == Err::<usize, FrameError>(
                FrameError::OutOfOrder(old(self).phase_of()),
            ),
            old(self).has_recorder() && old(self).pending().len() + registry@.len() > usize::MAX
                ==> r == Err::<usize, FrameError>(FrameError::PassLimit),
            r is Err ==> *final(self) == *old(self),
            final(self).model() == queue_step(old(self).model(), registry@).0,
            r == queue_step(old(self).model(), registry@).1,
    {
        if self.recorder.is_none() {
            return Err(FrameError::OutOfOrder(self.phase));
        }
        let n = registry.len();
        if self.pending.len() > usize::MAX - n {
            return Err(FrameError::PassLimit);
        }
        let ghost start = self.pending@;
        let mut i: usize = 0;
        while i < n
            invariant
                n == registry@.len(),
                i <= n,
                self.recorder is Some,
                self.finalized is None,
                start.len() + n <= usize::MAX,
                self.pending@ == start + passes_for(registry@.subrange(0, i as int)),
            decreases n - i,
        {
            let s = registry.at(i);
            self.pending.push(RenderPass { window: s.window, width: s.attributes.width, height: s.attributes.height });
            proof {
                assert(registry@.subrange(0, i + 1) =~= registry@.subrange(0, i as int).push(*s));
                assert(passes_for(registry@.subrange(0, i + 1)) =~= passes_for(registry@.subrange(0, i as int)).push(pass_for(*s)));
            }
            match self.recorder {
                Some(rec) => {
                    self.recorder = Some(CommandRecorder { passes_opened: rec.passes_opened.wrapping_add(1) });
                },
                None => {},
            }
            i = i + 1;
        }
        assert(registry@.subrange(0, n as int) =~= registry@);
        self.phase = FramePhase::PassesQueued;
        Ok(n)
    }

    /// FinishQueue: finalizes the recorder into a command buffer holding the
    /// pending passes, and empties the pending sequence.
    pub fn finish_queue(&mut self) -> (r: Result<(), FrameError>)
        requires
            old(self).wf(),
        ensures
            final(self).wf(),
            r is Ok <==> old(self).has_recorder(),
            r is Ok ==> final(self).phase_of() == FramePhase::Finalized && !final(self).has_recorder()
                && final(self).pending().len() == 0 && final(self).finalized() == Some(
                old(self).pending(),
            ),
            r is Err ==> r == Err::<(), FrameError>(FrameError::OutOfOrder(old(self).phase_of()))
                && *final(self) == *old(self),
            final(self).model() == finish_queue_step(old(self).model()).0,
            r == finish_queue_step(old(self).model()).1,
    {
        if self.recorder.is_none() {
            return Err(FrameError::OutOfOrder(self.phase));
        }
        let mut passes: Vec<RenderPass> = Vec::new();
        std::mem::swap(&mut passes, &mut self.pending);
        self.recorder = None;
        self.finalized = Some(CommandBuffer { passes });
        self.phase = FramePhase::Finalized;
        Ok(())
    }

    /// Render: hands out the finalized command buffer for submission and presentation.
    pub fn render(&mut self) -> (r: Result<CommandBuffer, FrameError>)
        requires
            old(self).wf(),
        ensures
            final(self).wf(),
            r is Ok <==> old(self).phase_of() == FramePhase::Finalized,
            r matches Ok(b) ==> Some(b.passes@) == old(self).finalized() && final(self).phase_of()
                == FramePhase::Submitted,
            r is Err ==> r == Err::<CommandBuffer, FrameError>(
                FrameError::OutOfOrder(old(self).phase_of()),
            ) && *final(self) == *old(self),
            final(self).model() == render_step(old(self).model()).0,
            r matches Ok(b) ==> render_step(old(self).model()).1 == Ok::<Seq<RenderPass>, FrameError>(
                b.passes@,
            ),
            r matches Err(e) ==> render_step(old(self).model()).1 == Err::<Seq<RenderPass>, FrameError>(
                e,
            ),
    {
        if !matches!(self.phase, FramePhase::Finalized) {
            return Err(FrameError::OutOfOrder(self.phase));
        }
        match self.finalized.take() {
            Some(b) => {
                self.phase = FramePhase::Submitted;
                assert(self.pending@ =~= Seq::<RenderPass>::empty());
                Ok(b)
            },
            None => Err(FrameError::OutOfOrder(self.phase)),
        }
    }

    /// CleanUp: releases everything the frame held, whatever state it is in.
    pub fn clean_up(&mut self)
        ensures
            final(self).wf(),
            final(self).is_clear(),
            final(self).model() == clear_model(),
    {
        self.recorder = None;
        self.pending.clear();
        self.finalized = None;
        self.phase = FramePhase::Empty;
    }
}

} // verus!
