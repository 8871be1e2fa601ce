use ruxel::bridge::{
    u_create_surface, u_destroy_surface, CloseRequestedEvent, LifecycleError, WindowCreatedEvent,
    WindowRecord, WindowTable,
};
use ruxel::frame::FrameState;
use ruxel::scheduler::{run_frame, RenderSystem};
use ruxel::schedule::{RenderingPlugin, Schedule};
use ruxel::stage::RenderStage;
use ruxel::surface::{
    NativeHandle, Platform, SurfaceCreationError, SurfaceRegistry, WindowAttributes,
};

fn record(id: u64, raw: u64) -> WindowRecord {
    WindowRecord {
        id,
        attributes: WindowAttributes { width: 640, height: 480, scale_percent: 150 },
        handle: NativeHandle { platform: Platform::Win32, raw },
    }
}

fn created(ids: &[u64]) -> Vec<WindowCreatedEvent> {
    ids.iter().map(|&window_id| WindowCreatedEvent { window_id }).collect()
}

fn closed(ids: &[u64]) -> Vec<CloseRequestedEvent> {
    ids.iter().map(|&window_id| CloseRequestedEvent { window_id }).collect()
}

#[test]
fn window_created_then_frame_renders_it() {
    let mut windows = WindowTable::new();
    windows.insert(record(1, 77));
    let mut reg = SurfaceRegistry::new();
    let results = u_create_surface(&created(&[1]), &windows, &mut reg);
    assert_eq!(results, vec![Ok(())]);
    assert_eq!(reg.len(), 1);
    let s = reg.get(1).unwrap();
    assert_eq!(s.window, 1);
    assert_eq!(s.handle.raw, 77);

    let mut frame = FrameState::new();
    let report = run_frame(&mut frame, &reg);
    assert_eq!(report.passes_recorded, 1);
    let buf = report.submission.unwrap();
    assert_eq!(buf.passes.len(), 1);
    assert_eq!(buf.passes[0].window, 1);
    assert!(report.faults.is_empty());
    assert!(!frame.recorder_active());
    assert_eq!(frame.pending_len(), 0);
    assert!(reg.contains(1));
}

#[test]
fn close_requested_removes_surface_and_its_passes() {
    let mut windows = WindowTable::new();
    windows.insert(record(1, 5));
    let mut reg = SurfaceRegistry::new();
    u_create_surface(&created(&[1]), &windows, &mut reg);
    assert_eq!(u_destroy_surface(&closed(&[1]), &mut reg), 1);
    assert!(!reg.contains(1));
    let mut frame = FrameState::new();
    let report = run_frame(&mut frame, &reg);
    assert!(report.submission.unwrap().passes.iter().all(|p| p.window != 1));
    assert_eq!(report.passes_recorded, 0);
}

#[test]
fn close_of_unknown_window_is_noop() {
    let mut reg = SurfaceRegistry::new();
    assert_eq!(u_destroy_surface(&closed(&[3, 3]), &mut reg), 0);
    assert_eq!(reg.len(), 0);
}

#[test]
fn created_twice_reports_duplicate() {
    let mut windows = WindowTable::new();
    windows.insert(record(1, 5));
    let mut reg = SurfaceRegistry::new();
    let results = u_create_surface(&created(&[1, 1]), &windows, &mut reg);
    assert_eq!(
        results,
        vec![
            Ok(()),
            Err(LifecycleError::SurfaceCreation(1, SurfaceCreationError::AlreadyExists))
        ]
    );
    assert_eq!(reg.len(), 1);
}

#[test]
fn unknown_window_is_missing_data_and_others_go_on() {
    let mut windows = WindowTable::new();
    windows.insert(record(2, 8));
    windows.insert(record(3, 0));
    let mut reg = SurfaceRegistry::new();
    let results = u_create_surface(&created(&[9, 2, 3]), &windows, &mut reg);
    assert_eq!(
        results,
        vec![
            Err(LifecycleError::MissingWindowData(9)),
            Ok(()),
            Err(LifecycleError::SurfaceCreation(3, SurfaceCreationError::InvalidHandle)),
        ]
    );
    assert_eq!(reg.len(), 1);
    assert!(reg.contains(2));
}

#[test]
fn window_table_insert_replaces() {
    let mut windows = WindowTable::new();
    windows.insert(record(4, 1));
    windows.insert(record(5, 2));
    windows.insert(record(4, 3));
    assert_eq!(windows.lookup(4).unwrap().handle.raw, 3);
    assert_eq!(windows.lookup(5).unwrap().handle.raw, 2);
    assert!(windows.lookup(6).is_none());
}

#[test]
fn plugin_schedule_runs_the_pipeline() {
    let mut schedule = Schedule::new();
    RenderingPlugin.build(&mut schedule);
    assert_eq!(schedule.systems_in(RenderStage::PreQueue), vec![RenderSystem::CreateCommandEncoder]);
    assert_eq!(schedule.systems_in(RenderStage::CleanUp), vec![RenderSystem::ClearEntities]);

    let mut windows = WindowTable::new();
    windows.insert(record(1, 5));
    windows.insert(record(2, 6));
    let mut reg = SurfaceRegistry::new();
    u_create_surface(&created(&[1, 2]), &windows, &mut reg);

    let mut frame = FrameState::new();
    let by_schedule = schedule.run(&mut frame, &reg);
    let mut frame2 = FrameState::new();
    let by_tick = run_frame(&mut frame2, &reg);
    assert_eq!(by_schedule.stages, by_tick.stages);
    assert_eq!(by_schedule.systems, by_tick.systems);
    assert_eq!(by_schedule.faults, by_tick.faults);
    assert_eq!(by_schedule.submission.unwrap().passes, by_tick.submission.unwrap().passes);
    assert_eq!(frame.pending_len(), 0);
    assert!(!frame.recorder_active());
}

#[test]
fn empty_schedule_still_invokes_every_stage() {
    let schedule = Schedule::new();
    let reg = SurfaceRegistry::new();
    let mut frame = FrameState::new();
    let report = schedule.run(&mut frame, &reg);
    assert_eq!(report.stages.len(), 6);
    assert_eq!(report.stages[0], RenderStage::Prepare);
    assert_eq!(report.stages[5], RenderStage::CleanUp);
    assert!(report.systems.is_empty());
    assert!(report.submission.is_none());
}

#[test]
fn extra_system_runs_at_its_stage() {
    let mut schedule = Schedule::new();
    RenderingPlugin.build(&mut schedule);
    schedule.add_system(RenderStage::Prepare, RenderSystem::ClearEntities);
    let reg = SurfaceRegistry::new();
    let mut frame = FrameState::new();
    let report = schedule.run(&mut frame, &reg);
    assert_eq!(
        report.systems,
        vec![
            RenderSystem::CreateCommandEncoder,
            RenderSystem::ClearEntities,
            RenderSystem::CreateCommandEncoder,
            RenderSystem::BeginRenderPasses,
            RenderSystem::FinishQueue,
            RenderSystem::Render,
            RenderSystem::ClearEntities,
        ]
    );
    assert!(report.faults.is_empty());
}

#[test]
fn repeated_close_counts_each_surface_once() {
    let mut windows = WindowTable::new();
    windows.insert(record(1, 5));
    windows.insert(record(2, 6));
    let mut reg = SurfaceRegistry::new();
    u_create_surface(&created(&[1, 2]), &windows, &mut reg);
    assert_eq!(u_destroy_surface(&closed(&[1, 1, 2]), &mut reg), 2);
    assert_eq!(reg.len(), 0);
}
