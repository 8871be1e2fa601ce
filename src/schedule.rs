use vstd::prelude::*;
use crate::frame::{clear_model, passes_for, FrameState};
use crate::scheduler::{
    pipeline_systems, run_model, system_step, FrameReport, RenderSystem, RunModel,
};
use crate::stage::{all_stages, frame_order, RenderStage};
use crate::surface::{Surface, SurfaceRegistry};

verus! {

/// The systems attached to stage `st`, in the order they were attached.
pub open spec fn stage_systems(entries: Seq<(RenderStage, RenderSystem)>, st: RenderStage) -> Seq<
    RenderSystem,
>
    decreases entries.len(),
{
    if entries.len() == 0 {
        Seq::empty()
    } else if entries.last().0 == st {
        stage_systems(entries.drop_last(), st).push(entries.last().1)
    } else {
        stage_systems(entries.drop_last(), st)
    }
}

/// The systems of the first `k` stages, stage by stage.
pub open spec fn systems_through(entries: Seq<(RenderStage, RenderSystem)>, k: nat) -> Seq<
    RenderSystem,
>
    decreases k,
{
    if k == 0 {
        Seq::empty()
    } else {
        systems_through(entries, (k - 1) as nat) + stage_systems(
            entries,
            frame_order()[k - 1],
        )
    }
}

/// The order in which a tick runs the systems of `entries`: stage by stage in
/// the fixed order, and within a stage in the order of attachment.
pub open spec fn execution_order(entries: Seq<(RenderStage, RenderSystem)>) -> Seq<RenderSystem> {
    systems_through(entries, 6)
}

/// Running `systems` in order within `stage`, from `m`.
pub open spec fn run_systems(
    m: RunModel,
    stage: RenderStage,
    systems: Seq<RenderSystem>,
    reg: Seq<Surface>,
) -> RunModel
    decreases systems.len(),
{
    if systems.len() == 0 {
        m
    } else {
        system_step(run_systems(m, stage, systems.drop_last(), reg), stage, systems.last(), reg)
    }
}

/// Running the first `k` stages of `entries` from `m`.
pub open spec fn run_through(
    entries: Seq<(RenderStage, RenderSystem)>,
    k: nat,
    m: RunModel,
    reg: Seq<Surface>,
) -> RunModel
    decreases k,
{
    if k == 0 {
        m
    } else {
        let stage = frame_order()[k - 1];
        run_systems(run_through(entries, (k - 1) as nat, m, reg), stage, stage_systems(entries, stage), reg)
    }
}

/// Where a tick starts: the frame as it is, nothing noted, nothing submitted.
pub open spec fn tick_start(f: &FrameState) -> RunModel {
    RunModel { frame: f.model(), faults: Seq::empty(), submission: None, passes_recorded: 0 }
}

/// The last system of `s` releases all per-frame state.
pub open spec fn ends_with_clean_up(s: Seq<RenderSystem>) -> bool {
    s.len() > 0 && s.last() == RenderSystem::ClearEntities
}

/// Systems attached to stages. Attaching adds work at a point of the fixed
/// order; it never changes the order of the stages.
pub struct Schedule {
    entries: Vec<(RenderStage, RenderSystem)>,
}

impl View for Schedule {
    type V = Seq<(RenderStage, RenderSystem)>;

    closed spec fn view(&self) -> Seq<(RenderStage, RenderSystem)> {
        self.entries@
    }
}

impl Schedule {
    /// A schedule with nothing attached.
    pub fn new() -> (r: Schedule)
        ensures
            r@ == Seq::<(RenderStage, RenderSystem)>::empty(),
    {
        Schedule { entries: Vec::new() }
    }

    /// Attaches `system` to `stage`, after what is attached there already.
    pub fn add_system(&mut self, stage: RenderStage, system: RenderSystem)
        ensures
            final(self)@ == old(self)@.push((stage, system)),
    {
        self.entries.push((stage, system));
    }

    /// The systems attached to `stage`, in order of attachment.
    pub fn systems_in(&self, stage: RenderStage) -> (r: Vec<RenderSystem>)
        ensures
            r@ == stage_systems(self@, stage),
    {
        let mut r: Vec<RenderSystem> = Vec::new();
        let mut j: usize = 0;
        while j < self.entries.len()
            invariant
                j <= self@.len(),
                r@ == stage_systems(self@.subrange(0, j as int), stage),
            decreases self@.len() - j,
        {
            let e = self.entries[j];
            assert(self@.subrange(0, j + 1).drop_last() =~= self@.subrange(0, j as int));
            if e.0 == stage {
                r.push(e.1);
            }
            j = j + 1;
        }
        assert(self@.subrange(0, j as int) =~= self@);
        r
    }

    /// Runs one frame: every stage once, in the fixed order, each running its
    /// attached systems in order of attachment. A stage with nothing attached is
    /// still invoked.
    pub fn run(&self, frame: &mut FrameState, registry: &SurfaceRegistry) -> (r: FrameReport)
        requires
            old(frame).wf(),
        ensures
            final(frame).wf(),
            r.stages@ == frame_order(),
            r.systems@ == execution_order(self@),
            ends_with_clean_up(execution_order(self@)) ==> final(frame).is_clear(),
            run_model(&r, final(frame)) == run_through(self@, 6, tick_start(old(frame)), registry@),
    {
        let stages = all_stages();
        let mut report = FrameReport::new();
        assert(report.faults@ =~= Seq::empty());
        let mut k: usize = 0;
        while k < stages.len()
            invariant
                stages@ == frame_order(),
                k <= 6,
                frame.wf(),
                report.stages@ == frame_order().subrange(0, k as int),
                report.systems@ == systems_through(self@, k as nat),
                ends_with_clean_up(report.systems@) ==> frame.is_clear(),
                run_model(&report, frame) == run_through(self@, k as nat, tick_start(old(frame)), registry@),
            decreases 6 - k,
        {
            let stage = stages[k];
            report.stages.push(stage);
            let systems = self.systems_in(stage);
            let mut j: usize = 0;
            while j < systems.len()
                invariant
                    j <= systems@.len(),
                    frame.wf(),
                    report.stages@ == frame_order().subrange(0, k + 1),
                    report.systems@ == systems_through(self@, k as nat) + systems@.subrange(0, j as int),
                    ends_with_clean_up(report.systems@) ==> frame.is_clear(),
                    run_model(&report, frame) == run_systems(
                        run_through(self@, k as nat, tick_start(old(frame)), registry@),
                        stage,
                        systems@.subrange(0, j as int),
                        registry@,
                    ),
                decreases systems@.len() - j,
            {
                let sys = systems[j];
                report.run_system(stage, sys, frame, registry);
                assert(systems@.subrange(0, j + 1) =~= systems@.subrange(0, j as int).push(sys));
                assert(systems@.subrange(0, j + 1).drop_last() =~= systems@.subrange(0, j as int));
                j = j + 1;
            }
            assert(systems@.subrange(0, j as int) =~= systems@);
            assert(frame_order().subrange(0, k + 1) =~= frame_order().subrange(0, k as int).push(stage));
            k = k + 1;
        }
        assert(frame_order().subrange(0, 6) =~= frame_order());
        report
    }
}

/// Attaches the built-in frame pipeline to a schedule.
#[derive(Clone, Copy, Debug, PartialEq, Eq, Structural)]
pub struct RenderingPlugin;

/// What the pipeline attaches, stage by stage.
pub open spec fn rendering_entries() -> Seq<(RenderStage, RenderSystem)> {
    seq![
        (RenderStage::Prepare, RenderSystem::CreateCommandEncoder),
        (RenderStage::PreQueue, RenderSystem::CreateCommandEncoder),
        (RenderStage::Queue, RenderSystem::BeginRenderPasses),
        (RenderStage::FinishQueue, RenderSystem::FinishQueue),
        (RenderStage::Render, RenderSystem::Render),
        (RenderStage::CleanUp, RenderSystem::ClearEntities),
    ]
}

/// A schedule built by the pipeline alone runs the same systems, in the same
/// order, as one tick of the built-in pipeline.
pub proof fn lemma_rendering_plugin_runs_pipeline()
    ensures
        execution_order(rendering_entries()) == pipeline_systems(),
        ends_with_clean_up(pipeline_systems()),
{
    let e = rendering_entries();
    reveal_with_fuel(stage_systems, 7);
    reveal_with_fuel(systems_through, 7);
    assert(execution_order(e) =~= pipeline_systems());
}

/// A schedule built by the pipeline alone, run on a frame that holds nothing,
/// notes no fault, submits one pass per live surface in registry order, and
/// leaves the frame holding nothing.
pub proof fn lemma_rendering_plugin_tick(f: &FrameState, reg: Seq<Surface>)
    requires
        f.is_clear(),
        reg.len() <= usize::MAX,
    ensures
        run_through(rendering_entries(), 6, tick_start(f), reg) == (RunModel {
            frame: clear_model(),
            faults: Seq::empty(),
            submission: Some(passes_for(reg)),
            passes_recorded: reg.len() as usize,
        }),
{
    assert(f.pending() =~= Seq::empty());
    let e = rendering_entries();
    reveal_with_fuel(stage_systems, 7);
    reveal_with_fuel(run_through, 7);
    reveal_with_fuel(run_systems, 2);
    assert(Seq::<crate::frame::RenderPass>::empty() + passes_for(reg) =~= passes_for(reg));
    assert(stage_systems(e, RenderStage::Prepare) =~= seq![RenderSystem::CreateCommandEncoder]);
    assert(stage_systems(e, RenderStage::PreQueue) =~= seq![RenderSystem::CreateCommandEncoder]);
    assert(stage_systems(e, RenderStage::Queue) =~= seq![RenderSystem::BeginRenderPasses]);
    assert(stage_systems(e, RenderStage::FinishQueue) =~= seq![RenderSystem::FinishQueue]);
    assert(stage_systems(e, RenderStage::Render) =~= seq![RenderSystem::Render]);
    assert(stage_systems(e, RenderStage::CleanUp) =~= seq![RenderSystem::ClearEntities]);
}

impl RenderingPlugin {
    /// Attaches one system to each of the six stages.
    pub fn build(&self, schedule: &mut Schedule)
        ensures
            final(schedule)@ == old(schedule)@ + rendering_entries(),
    {
        schedule.add_system(RenderStage::Prepare, RenderSystem::CreateCommandEncoder);
        schedule.add_system(RenderStage::PreQueue, RenderSystem::CreateCommandEncoder);
        schedule.add_system(RenderStage::Queue, RenderSystem::BeginRenderPasses);
        schedule.add_system(RenderStage::FinishQueue, RenderSystem::FinishQueue);
        schedule.add_system(RenderStage::Render, RenderSystem::Render);
        schedule.add_system(RenderStage::CleanUp, RenderSystem::ClearEntities);
        assert(final(schedule)@ =~= old(schedule)@ + rendering_entries());
    }
}

} // verus!
