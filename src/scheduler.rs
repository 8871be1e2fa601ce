use vstd::prelude::*;
use crate::frame::{
    clear_model, finish_queue_step, passes_for, pre_queue_step, prepare_step, queue_step,
    render_step, CommandBuffer, FrameError, FrameModel, FrameState, RenderPass,
};
use crate::surface::Surface;
use crate::stage::{frame_order, RenderStage};
use crate::surface::SurfaceRegistry;

verus! {

/// A unit of work that can be attached to a stage.
#[derive(Clone, Copy, Debug, PartialEq, Eq, Structural)]
pub enum RenderSystem {
    /// Allocates the frame's command recorder if none is held.
    CreateCommandEncoder,
    /// Records a render pass for each live surface.
    BeginRenderPasses,
    /// Finalizes the recorder into a command buffer.
    FinishQueue,
    /// Hands the command buffer out for submission.
    Render,
    /// Releases all per-frame state.
    ClearEntities,
}

/// The systems, in order, that one tick of the built-in pipeline runs.
pub open spec fn pipeline_systems() -> Seq<RenderSystem> {
    seq![
        RenderSystem::CreateCommandEncoder,
        RenderSystem::CreateCommandEncoder,
        RenderSystem::BeginRenderPasses,
        RenderSystem::FinishQueue,
        RenderSystem::Render,
        RenderSystem::ClearEntities,
    ]
}

/// What a tick has produced so far, as the systems see it.
pub struct RunModel {
    pub frame: FrameModel,
    pub faults: Seq<(RenderStage, FrameError)>,
    pub submission: Option<Seq<RenderPass>>,
    pub passes_recorded: usize,
}

/// `faults` with the failure of `res` in `stage` added, if it failed.
pub open spec fn noted<T>(
    faults: Seq<(RenderStage, FrameError)>,
    stage: RenderStage,
    res: Result<T, FrameError>,
) -> Seq<(RenderStage, FrameError)> {
    match res {
        Ok(_) => faults,
        Err(e) => faults.push((stage, e)),
    }
}

/// Running `system` within `stage` on `m`, against the live surfaces `reg`.
pub open spec fn system_step(
    m: RunModel,
    stage: RenderStage,
    system: RenderSystem,
    reg: Seq<Surface>,
) -> RunModel {
    match system {
        RenderSystem::CreateCommandEncoder => {
            let step = if stage == RenderStage::Prepare {
                prepare_step(m.frame)
            } else {
                pre_queue_step(m.frame)
            };
            RunModel { frame: step.0, faults: noted(m.faults, stage, step.1), ..m }
        },
        RenderSystem::BeginRenderPasses => {
            let step = queue_step(m.frame, reg);
            RunModel {
                frame: step.0,
                faults: noted(m.faults, stage, step.1),
                passes_recorded: match step.1 {
                    Ok(n) => n,
                    Err(_) => m.passes_recorded,
                },
                ..m
            }
        },
        RenderSystem::FinishQueue => {
            let step = finish_queue_step(m.frame);
            RunModel { frame: step.0, faults: noted(m.faults, stage, step.1), ..m }
        },
        RenderSystem::Render => {
            let step = render_step(m.frame);
            RunModel {
                frame: step.0,
                faults: noted(m.faults, stage, step.1),
                submission: match step.1 {
                    Ok(p) => Some(p),
                    Err(_) => m.submission,
                },
                ..m
            }
        },
        RenderSystem::ClearEntities => RunModel { frame: clear_model(), ..m },
    }
}

/// What one frame tick did.
#[derive(Debug)]
pub struct FrameReport {
    /// Stages in the order they were invoked.
    pub stages: Vec<RenderStage>,
    /// Systems in the order they ran.
    pub systems: Vec<RenderSystem>,
    /// Stage-local faults, absorbed so that the frame could go on.
    pub faults: Vec<(RenderStage, FrameError)>,
    /// The command buffer that Render handed out for submission, if any.
    pub submission: Option<CommandBuffer>,
    /// Render passes recorded by Queue.
    pub passes_recorded: usize,
}

/// The passes of the submitted buffer, if any.
pub open spec fn submitted_passes(s: Option<CommandBuffer>) -> Option<Seq<RenderPass>> {
    match s {
        Some(b) => Some(b.passes@),
        None => None,
    }
}

/// What `r` records, together with what `f` holds.
pub open spec fn run_model(r: &FrameReport, f: &FrameState) -> RunModel {
    RunModel {
        frame: f.model(),
        faults: r.faults@,
        submission: submitted_passes(r.submission),
        passes_recorded: r.passes_recorded,
    }
}

impl FrameReport {
    /// A report of nothing yet.
    pub fn new() -> (r: FrameReport)
        ensures
            r.stages@.len() == 0,
            r.systems@.len() == 0,
            r.faults@.len() == 0,
            r.submission is None,
            r.passes_recorded == 0,
    {
        FrameReport { stages: Vec::new(), systems: Vec::new(), faults: Vec::new(), submission: None, passes_recorded: 0 }
    }

    /// Runs one system within `stage`, noting what it did.
    pub fn run_system(
        &mut self,
        stage: RenderStage,
        system: RenderSystem,
        frame: &mut FrameState,
        registry: &SurfaceRegistry,
    )
        requires
            old(frame).wf(),
        ensures
            final(frame).wf(),
            final(self).stages@ == old(self).stages@,
            final(self).systems@ == old(self).systems@.push(system),
            system == RenderSystem::ClearEntities ==> final(frame).is_clear(),
            run_model(final(self), final(frame)) == system_step(
                run_model(old(self), old(frame)),
                stage,
                system,
                registry@,
            ),
    {
        self.systems.push(system);
        let res = match system {
            RenderSystem::CreateCommandEncoder => match stage {
                RenderStage::Prepare => frame.prepare(),
                _ => frame.pre_queue(),
            },
            RenderSystem::BeginRenderPasses => match frame.queue(registry) {
                Ok(n) => {
                    self.passes_recorded = n;
                    Ok(())
                },
                Err(e) => Err(e),
            },
            RenderSystem::FinishQueue => frame.finish_queue(),
            RenderSystem::Render => match frame.render() {
                Ok(b) => {
                    self.submission = Some(b);
                    Ok(())
                },
                Err(e) => Err(e),
            },
            RenderSystem::ClearEntities => {
                frame.clean_up();
                Ok(())
            },
        };
        self.note(stage, res);
    }

    fn note(&mut self, stage: RenderStage, res: Result<(), FrameError>)
        ensures
            final(self).stages@ == old(self).stages@,
            final(self).systems@ == old(self).systems@,
            final(self).submission == old(self).submission,
            final(self).passes_recorded == old(self).passes_recorded,
            res is Ok ==> final(self).faults@ == old(self).faults@,
            res matches Err(e) ==> final(self).faults@ == old(self).faults@.push((stage, e)),
    {
        match res {
            Ok(()) => {},
            Err(e) => self.faults.push((stage, e)),
        }
    }
}

/// Runs the six stages of one frame, once each and in the fixed order, on
/// `frame` against the live surfaces of `registry`.
///
/// A stage that fails is noted in the report and the frame goes on; CleanUp
/// always runs, so the frame is left holding nothing.
pub fn run_frame(frame: &mut FrameState, registry: &SurfaceRegistry) -> (r: FrameReport)
    requires
        old(frame).wf(),
    ensures
        r.stages@ == frame_order(),
        r.systems@ == pipeline_systems(),
        final(frame).wf(),
        final(frame).is_clear(),
        old(frame).is_clear() ==> r.faults@.len() == 0 && r.passes_recorded == registry@.len(),
        old(frame).is_clear() ==> (r.submission matches Some(b) && b.passes@ == passes_for(
            registry@,
        )),
{
    let mut report = FrameReport::new();
    // The registry's size is a usize, so a clear frame has room for its passes.
    let live = registry.len();

    report.stages.push(RenderStage::Prepare);
    report.systems.push(RenderSystem::CreateCommandEncoder);
    let res = frame.prepare();
    report.note(RenderStage::Prepare, res);

    report.stages.push(RenderStage::PreQueue);
    report.systems.push(RenderSystem::CreateCommandEncoder);
    let res = frame.pre_queue();
    report.note(RenderStage::PreQueue, res);

    report.stages.push(RenderStage::Queue);
    report.systems.push(RenderSystem::BeginRenderPasses);
    let res = match frame.queue(registry) {
        Ok(n) => {
            report.passes_recorded = n;
            Ok(())
        },
        Err(e) => Err(e),
    };
    report.note(RenderStage::Queue, res);
    assert(live == registry@.len());

    report.stages.push(RenderStage::FinishQueue);
    report.systems.push(RenderSystem::FinishQueue);
    let res = frame.finish_queue();
    report.note(RenderStage::FinishQueue, res);

    report.stages.push(RenderStage::Render);
    report.systems.push(RenderSystem::Render);
    let res = match frame.render() {
        Ok(b) => {
            report.submission = Some(b);
            Ok(())
        },
        Err(e) => Err(e),
    };
    report.note(RenderStage::Render, res);

    report.stages.push(RenderStage::CleanUp);
    report.systems.push(RenderSystem::ClearEntities);
    frame.clean_up();

    assert(report.stages@ =~= frame_order());
    assert(report.systems@ =~= pipeline_systems());
    report
}

} // verus!
