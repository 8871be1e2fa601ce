use vstd::prelude::*;

verus! {

/// One ordered phase of the per-frame pipeline.
#[derive(Clone, Copy, Debug, PartialEq, Eq, Structural)]
pub enum RenderStage {
    Prepare,
    PreQueue,
    Queue,
    FinishQueue,
    Render,
    CleanUp,
}

/// Number of stages in one frame.
pub const STAGE_COUNT: usize = 6;

/// Position of a stage in the fixed total order.
pub open spec fn stage_rank(s: RenderStage) -> nat {
    match s {
        RenderStage::Prepare => 0,
        RenderStage::PreQueue => 1,
        RenderStage::Queue => 2,
        RenderStage::FinishQueue => 3,
        RenderStage::Render => 4,
        RenderStage::CleanUp => 5,
    }
}

/// The stages of one frame, in the order they run.
pub open spec fn frame_order() -> Seq<RenderStage> {
    seq![
        RenderStage::Prepare,
        RenderStage::PreQueue,
        RenderStage::Queue,
        RenderStage::FinishQueue,
        RenderStage::Render,
        RenderStage::CleanUp,
    ]
}

impl RenderStage {
    /// Position of this stage in the fixed order, from 0 to 5.
    pub fn rank(&self) -> (r: usize)
        ensures
            r as nat == stage_rank(*self),
            r < STAGE_COUNT,
    {
        match self {
            RenderStage::Prepare => 0,
            RenderStage::PreQueue => 1,
            RenderStage::Queue => 2,
            RenderStage::FinishQueue => 3,
            RenderStage::Render => 4,
            RenderStage::CleanUp => 5,
        }
    }

    /// Whether this stage runs strictly before `other` within a frame.
    pub fn runs_before(&self, other: &RenderStage) -> (r: bool)
        ensures
            r == (stage_rank(*self) < stage_rank(*other)),
    {
        self.rank() < other.rank()
    }

    /// The stage that follows this one in the same frame, if any.
    pub fn next(&self) -> (r: Option<RenderStage>)
        ensures
            stage_rank(*self) < 5 ==> r == Some(frame_order()[stage_rank(*self) as int + 1]),
            stage_rank(*self) == 5 ==> r is None,
    {
        match self {
            RenderStage::Prepare => Some(RenderStage::PreQueue),
            RenderStage::PreQueue => Some(RenderStage::Queue),
            RenderStage::Queue => Some(RenderStage::FinishQueue),
            RenderStage::FinishQueue => Some(RenderStage::Render),
            RenderStage::Render => Some(RenderStage::CleanUp),
            RenderStage::CleanUp => None,
        }
    }
}

/// All stages, in the order one frame runs them.
pub fn all_stages() -> (r: Vec<RenderStage>)
    ensures
        r@ == frame_order(),
{
    let r = vec![
        RenderStage::Prepare,
        RenderStage::PreQueue,
        RenderStage::Queue,
        RenderStage::FinishQueue,
        RenderStage::Render,
        RenderStage::CleanUp,
    ];
    assert(r@ =~= frame_order());
    r
}

/// The fixed order is total and strict: each stage sits at its own rank.
pub proof fn lemma_frame_order_ranks()
    ensures
        frame_order().len() == STAGE_COUNT,
        forall|i: int| 0 <= i < 6 ==> stage_rank(#[trigger] frame_order()[i]) == i,
        forall|i: int, j: int|
            0 <= i < j < 6 ==> stage_rank(#[trigger] frame_order()[i]) < stage_rank(
                #[trigger] frame_order()[j],
            ),
{
}

} // verus!
