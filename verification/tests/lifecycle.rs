use std::sync::Arc;

use engine_adapter::engine::CreatedWindow;
use engine_adapter::event::WindowEvent;
use engine_adapter::platform::{Platform, StartupStep, WindowAttributes};
use engine_adapter::Engine;

#[test]
fn new_engine_has_no_window_and_zero_size() {
    let engine: Engine<u32> = Engine::new();
    assert!(!engine.has_window());
    assert!(engine.window().is_none());
    assert_eq!(engine.last_size(), (0, 0));
}

#[test]
fn default_engine_has_no_window_and_zero_size() {
    let engine: Engine<u32> = Engine::default();
    assert!(!engine.has_window());
    assert!(engine.window().is_none());
    assert_eq!(engine.last_size(), (0, 0));
}

#[test]
fn resume_with_successful_creation_holds_one_window() {
    let mut engine: Engine<Arc<str>> = Engine::default();
    assert!(engine.resumed(Platform::Native).is_some());
    let window: Arc<str> = Arc::from("main window");
    let steps = engine.creation_finished(
        Platform::Native,
        Some(CreatedWindow { handle: window.clone(), width: 800, height: 600 }),
    );
    assert_eq!(engine.last_size(), (800, 600));
    assert!(engine.has_window());
    assert!(Arc::ptr_eq(engine.window().unwrap(), &window));
    assert_eq!(Arc::strong_count(&window), 2);
    assert_eq!(steps, vec![StartupStep::InitLogger, StartupStep::BlockOnStartupTask]);
}

#[test]
fn native_resume_asks_for_a_titled_window() {
    let engine: Engine<u32> = Engine::new();
    assert_eq!(
        engine.resumed(Platform::Native),
        Some(WindowAttributes::Titled("Winit Window"))
    );
}

#[test]
fn web_resume_asks_for_the_canvas() {
    let engine: Engine<u32> = Engine::new();
    assert_eq!(engine.resumed(Platform::Web), Some(WindowAttributes::Canvas("canvas")));
}

#[test]
fn platform_window_attributes() {
    assert_eq!(Platform::Native.window_attributes(), WindowAttributes::Titled("Winit Window"));
    assert_eq!(Platform::Web.window_attributes(), WindowAttributes::Canvas("canvas"));
}

#[test]
fn resume_with_window_asks_for_nothing() {
    let mut engine: Engine<u32> = Engine::new();
    engine.creation_finished(
        Platform::Native,
        Some(CreatedWindow { handle: 4, width: 800, height: 600 }),
    );
    assert_eq!(engine.resumed(Platform::Native), None);
    assert_eq!(engine.resumed(Platform::Web), None);
}

#[test]
fn failed_creation_is_passed_over() {
    let mut engine: Engine<u32> = Engine::new();
    let steps = engine.creation_finished(Platform::Native, None);
    assert!(steps.is_empty());
    assert!(!engine.has_window());
    assert_eq!(engine.last_size(), (0, 0));
    assert!(engine.resumed(Platform::Native).is_some());
}

#[test]
fn failed_creation_keeps_a_held_window() {
    let mut engine: Engine<u32> = Engine::new();
    engine.creation_finished(
        Platform::Web,
        Some(CreatedWindow { handle: 4, width: 300, height: 150 }),
    );
    let steps = engine.creation_finished(Platform::Web, None);
    assert!(steps.is_empty());
    assert_eq!(engine.window(), Some(&4));
    assert_eq!(engine.last_size(), (300, 150));
}

#[test]
fn creation_after_failure_is_still_the_first() {
    let mut engine: Engine<u32> = Engine::new();
    assert!(engine.creation_finished(Platform::Native, None).is_empty());
    let steps = engine.creation_finished(
        Platform::Native,
        Some(CreatedWindow { handle: 9, width: 1024, height: 768 }),
    );
    assert_eq!(steps, vec![StartupStep::InitLogger, StartupStep::BlockOnStartupTask]);
    assert_eq!(engine.window(), Some(&9));
    assert_eq!(engine.last_size(), (1024, 768));
}

#[test]
fn second_window_replaces_the_handle_only() {
    let mut engine: Engine<u32> = Engine::new();
    engine.creation_finished(
        Platform::Native,
        Some(CreatedWindow { handle: 1, width: 800, height: 600 }),
    );
    let steps = engine.creation_finished(
        Platform::Native,
        Some(CreatedWindow { handle: 2, width: 320, height: 240 }),
    );
    assert!(steps.is_empty());
    assert_eq!(engine.window(), Some(&2));
    assert_eq!(engine.last_size(), (800, 600));
}

#[test]
fn reported_zero_dimension_is_raised_to_one() {
    let mut engine: Engine<u32> = Engine::new();
    engine.creation_finished(
        Platform::Native,
        Some(CreatedWindow { handle: 1, width: 0, height: 600 }),
    );
    assert_eq!(engine.last_size(), (1, 600));
}

#[test]
fn reported_zero_by_zero_is_recorded_as_one_by_one() {
    let mut engine: Engine<u32> = Engine::new();
    engine.creation_finished(
        Platform::Native,
        Some(CreatedWindow { handle: 1, width: 0, height: 0 }),
    );
    assert!(engine.has_window());
    assert_eq!(engine.last_size(), (1, 1));
    engine.window_event(WindowEvent::Other);
    assert_eq!(engine.last_size(), (1, 1));
}

#[test]
fn native_startup_steps() {
    assert_eq!(
        Platform::Native.on_first_window_created(800, 600),
        vec![StartupStep::InitLogger, StartupStep::BlockOnStartupTask]
    );
}

#[test]
fn web_startup_steps_log_the_canvas_size() {
    assert_eq!(
        Platform::Web.on_first_window_created(300, 150),
        vec![
            StartupStep::InstallPanicHook,
            StartupStep::InitConsoleLogger,
            StartupStep::LogCanvasSize { width: 300, height: 150 },
            StartupStep::SpawnStartupTask,
        ]
    );
}

#[test]
fn web_creation_records_the_canvas_size() {
    let mut engine: Engine<u32> = Engine::new();
    let steps = engine.creation_finished(
        Platform::Web,
        Some(CreatedWindow { handle: 1, width: 4000, height: 0 }),
    );
    assert_eq!(engine.last_size(), (4000, 1));
    assert_eq!(
        steps,
        vec![
            StartupStep::InstallPanicHook,
            StartupStep::InitConsoleLogger,
            StartupStep::LogCanvasSize { width: 4000, height: 0 },
            StartupStep::SpawnStartupTask,
        ]
    );
}

#[test]
fn full_run_from_resume_to_close() {
    let mut engine: Engine<u32> = Engine::default();
    assert!(!engine.window_event(WindowEvent::Other).redraw);
    let request = engine.resumed(Platform::Native);
    assert_eq!(request, Some(WindowAttributes::Titled("Winit Window")));
    engine.creation_finished(
        Platform::Native,
        Some(CreatedWindow { handle: 7, width: 800, height: 600 }),
    );
    assert_eq!(engine.resumed(Platform::Native), None);
    assert!(engine.window_event(WindowEvent::Resized { width: 0, height: 900 }).redraw);
    assert_eq!(engine.last_size(), (1, 900));
    let reaction = engine.window_event(WindowEvent::CloseRequested);
    assert!(reaction.exit && reaction.redraw);
    assert_eq!(engine.window(), Some(&7));
    assert_eq!(engine.last_size(), (1, 900));
}
