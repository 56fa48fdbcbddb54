use boulder_dash::frame::{FrameCommand, LoopControl, LoopEvent, RenderLoop};

fn frame(count: i32) -> Vec<FrameCommand> {
    vec![
        FrameCommand::Clear,
        FrameCommand::UploadMatrices,
        FrameCommand::DrawTriangles { first: 0, count },
        FrameCommand::SwapBuffers,
    ]
}

#[test]
fn tick_draws_one_frame_of_all_vertices() {
    let mut l = RenderLoop::new(6);
    let s = l.step(LoopEvent::MainEventsCleared);
    assert_eq!(s.control, LoopControl::Poll);
    assert_eq!(s.commands, frame(6));
}

#[test]
fn other_events_draw_nothing() {
    let mut l = RenderLoop::new(6);
    let s = l.step(LoopEvent::Other);
    assert_eq!(s.control, LoopControl::Poll);
    assert!(s.commands.is_empty());
    assert!(!l.closed);
}

#[test]
fn close_exits_at_once() {
    let mut l = RenderLoop::new(6);
    let s = l.step(LoopEvent::CloseRequested);
    assert_eq!(s.control, LoopControl::Exit);
    assert!(s.commands.is_empty());
    assert!(l.closed);
    let s = l.step(LoopEvent::MainEventsCleared);
    assert_eq!(s.control, LoopControl::Exit);
    assert!(s.commands.is_empty());
}

#[test]
fn run_counts_one_of_each_per_tick() {
    let events = vec![
        LoopEvent::Other,
        LoopEvent::MainEventsCleared,
        LoopEvent::MainEventsCleared,
        LoopEvent::Other,
        LoopEvent::MainEventsCleared,
        LoopEvent::CloseRequested,
        LoopEvent::MainEventsCleared,
    ];
    let mut l = RenderLoop::new(6);
    let mut all: Vec<FrameCommand> = Vec::new();
    for e in events {
        all.extend(l.step(e).commands);
    }
    let clears = all.iter().filter(|c| **c == FrameCommand::Clear).count();
    let swaps = all.iter().filter(|c| **c == FrameCommand::SwapBuffers).count();
    let draws: Vec<&FrameCommand> =
        all.iter().filter(|c| matches!(c, FrameCommand::DrawTriangles { .. })).collect();
    assert_eq!(clears, 3);
    assert_eq!(swaps, 3);
    assert_eq!(draws.len(), 3);
    for d in draws {
        assert_eq!(*d, FrameCommand::DrawTriangles { first: 0, count: 6 });
    }
}
