use ruxel::frame::{FrameError, FramePhase, FrameState, RenderPass};
use ruxel::scheduler::run_frame;
use ruxel::stage::{all_stages, RenderStage};
use ruxel::surface::{NativeHandle, Platform, SurfaceRegistry, WindowAttributes};

fn registry_with(ids: &[u64]) -> SurfaceRegistry {
    let mut reg = SurfaceRegistry::new();
    for &id in ids {
        let a = WindowAttributes { width: 100 + id as u32, height: 50, scale_percent: 100 };
        reg.create(id, a, NativeHandle { platform: Platform::Xlib, raw: id + 1 }).unwrap();
    }
    reg
}

const ORDER: [RenderStage; 6] = [
    RenderStage::Prepare,
    RenderStage::PreQueue,
    RenderStage::Queue,
    RenderStage::FinishQueue,
    RenderStage::Render,
    RenderStage::CleanUp,
];

#[test]
fn stage_order_is_fixed() {
    assert_eq!(all_stages(), ORDER.to_vec());
    for (i, s) in ORDER.iter().enumerate() {
        assert_eq!(s.rank(), i);
    }
    assert_eq!(RenderStage::Prepare.next(), Some(RenderStage::PreQueue));
    assert_eq!(RenderStage::Render.next(), Some(RenderStage::CleanUp));
    assert_eq!(RenderStage::CleanUp.next(), None);
    assert!(RenderStage::Queue.runs_before(&RenderStage::FinishQueue));
    assert!(!RenderStage::CleanUp.runs_before(&RenderStage::Prepare));
}

#[test]
fn frame_tick_runs_every_stage_in_order() {
    let reg = SurfaceRegistry::new();
    let mut frame = FrameState::new();
    let report = run_frame(&mut frame, &reg);
    assert_eq!(report.stages, ORDER.to_vec());
    assert!(report.faults.is_empty());
    assert_eq!(report.submission.unwrap().passes.len(), 0);
    assert_eq!(report.passes_recorded, 0);
}

#[test]
fn frame_tick_records_one_pass_per_surface() {
    let reg = registry_with(&[4, 9]);
    let mut frame = FrameState::new();
    let report = run_frame(&mut frame, &reg);
    let passes = report.submission.unwrap().passes;
    assert_eq!(
        passes,
        vec![
            RenderPass { window: 4, width: 104, height: 50 },
            RenderPass { window: 9, width: 109, height: 50 },
        ]
    );
    assert_eq!(report.passes_recorded, 2);
    assert_eq!(frame.phase(), FramePhase::Empty);
    assert!(!frame.recorder_active());
    assert_eq!(frame.pending_len(), 0);
}

#[test]
fn clean_up_leaves_frame_empty_after_failed_render() {
    let reg = registry_with(&[1]);
    let mut frame = FrameState::new();
    frame.prepare().unwrap();
    frame.queue(&reg).unwrap();
    // Render before FinishQueue is refused
    assert_eq!(frame.render().err(), Some(FrameError::OutOfOrder(FramePhase::PassesQueued)));
    frame.clean_up();
    assert_eq!(frame.phase(), FramePhase::Empty);
    assert!(!frame.recorder_active());
    assert_eq!(frame.pending_len(), 0);
}

#[test]
fn tick_on_a_dirty_frame_reports_faults_and_still_cleans_up() {
    let reg = registry_with(&[1]);
    let mut frame = FrameState::new();
    frame.prepare().unwrap();
    let report = run_frame(&mut frame, &reg);
    assert_eq!(report.stages, ORDER.to_vec());
    assert_eq!(report.faults, vec![(RenderStage::Prepare, FrameError::RecorderAlreadyActive)]);
    assert_eq!(report.submission.unwrap().passes.len(), 1);
    assert_eq!(frame.phase(), FramePhase::Empty);
    assert_eq!(frame.pending_len(), 0);
}

#[test]
fn prepare_twice_is_refused() {
    let mut frame = FrameState::new();
    assert_eq!(frame.prepare(), Ok(()));
    assert_eq!(frame.prepare(), Err(FrameError::RecorderAlreadyActive));
    assert_eq!(frame.phase(), FramePhase::Recording);
}

#[test]
fn pre_queue_tolerates_prepared_frame() {
    let mut frame = FrameState::new();
    assert_eq!(frame.pre_queue(), Ok(()));
    assert_eq!(frame.phase(), FramePhase::Recording);
    assert_eq!(frame.pre_queue(), Ok(()));
    assert!(frame.recorder_active());
}

#[test]
fn stages_out_of_order_are_refused() {
    let reg = registry_with(&[1]);
    let mut frame = FrameState::new();
    assert_eq!(frame.queue(&reg), Err(FrameError::OutOfOrder(FramePhase::Empty)));
    assert_eq!(frame.finish_queue(), Err(FrameError::OutOfOrder(FramePhase::Empty)));
    assert_eq!(frame.render().err(), Some(FrameError::OutOfOrder(FramePhase::Empty)));
    frame.prepare().unwrap();
    frame.finish_queue().unwrap();
    assert_eq!(frame.phase(), FramePhase::Finalized);
    assert_eq!(frame.prepare(), Err(FrameError::OutOfOrder(FramePhase::Finalized)));
    assert_eq!(frame.pre_queue(), Err(FrameError::OutOfOrder(FramePhase::Finalized)));
    let buf = frame.render().unwrap();
    assert!(buf.passes.is_empty());
    assert_eq!(frame.phase(), FramePhase::Submitted);
}

#[test]
fn window_without_surface_gets_no_pass() {
    let mut reg = registry_with(&[1, 2]);
    reg.destroy(1);
    let mut frame = FrameState::new();
    frame.prepare().unwrap();
    assert_eq!(frame.queue(&reg), Ok(1));
    frame.finish_queue().unwrap();
    let buf = frame.render().unwrap();
    assert!(buf.passes.iter().all(|p| p.window != 1));
    assert_eq!(buf.passes.len(), 1);
}

#[test]
fn queue_appends_in_registry_order() {
    let reg = registry_with(&[7, 3]);
    let mut frame = FrameState::new();
    frame.prepare().unwrap();
    assert_eq!(frame.queue(&reg), Ok(2));
    assert_eq!(frame.queue(&reg), Ok(2));
    assert_eq!(frame.pending_len(), 4);
    frame.finish_queue().unwrap();
    assert_eq!(frame.pending_len(), 0);
    let ws: Vec<u64> = frame.render().unwrap().passes.iter().map(|p| p.window).collect();
    assert_eq!(ws, vec![7, 3, 7, 3]);
}
