use triangle::{Command, InitError, Key, LoopEvent, PresentMode, Size, State, SurfaceError, WindowInput};
use wgpu::TextureFormat;

fn formats() -> Vec<TextureFormat> {
    vec![TextureFormat::Bgra8UnormSrgb, TextureFormat::Rgba8Unorm]
}

fn state(width: u32, height: u32) -> State {
    State::new(Size::new(width, height), &formats(), 3).unwrap()
}

fn window(event: WindowInput) -> LoopEvent {
    LoopEvent::Window { event, own_window: true }
}

#[test]
fn new_takes_first_format_and_size() {
    let s = state(800, 600);
    assert_eq!(s.config.format, TextureFormat::Bgra8UnormSrgb);
    assert_eq!(s.config.width, 800);
    assert_eq!(s.config.height, 600);
    assert_eq!(s.config.present_mode, PresentMode::Fifo);
    assert_eq!(s.num_vertices, 3);
    assert_eq!(s.size(), Size::new(800, 600));
}

#[test]
fn new_without_formats_fails() {
    let r = State::new(Size::new(800, 600), &Vec::new(), 3);
    assert_eq!(r.unwrap_err(), InitError::NoSurfaceFormat);
}

#[test]
fn new_with_too_many_vertices_fails() {
    let r = State::new(Size::new(800, 600), &formats(), u32::MAX as usize + 1);
    assert_eq!(r.unwrap_err(), InitError::TooManyVertices);
    let s = State::new(Size::new(800, 600), &formats(), u32::MAX as usize).unwrap();
    assert_eq!(s.num_vertices, u32::MAX);
}

#[test]
fn resize_below_minimum_keeps_config() {
    let mut s = state(800, 600);
    assert!(!s.resize(Size::new(0, 500)));
    assert!(!s.resize(Size::new(500, 0)));
    assert!(!s.resize(Size::new(0, 0)));
    assert_eq!(s.size(), Size::new(800, 600));
}

#[test]
fn resize_above_minimum_sets_size_exactly() {
    let mut s = state(800, 600);
    assert!(s.resize(Size::new(1, 1)));
    assert_eq!(s.size(), Size::new(1, 1));
    assert!(s.resize(Size::new(1920, 1080)));
    assert_eq!(s.config.width, 1920);
    assert_eq!(s.config.height, 1080);
    assert_eq!(s.config.format, TextureFormat::Bgra8UnormSrgb);
    assert_eq!(s.num_vertices, 3);
}

#[test]
fn drawable_size() {
    assert!(Size::new(1, 1).is_drawable_size());
    assert!(!Size::new(0, 1).is_drawable_size());
    assert!(!Size::new(1, 0).is_drawable_size());
}

#[test]
fn input_consumes_nothing() {
    let mut s = state(800, 600);
    assert!(!s.input(&WindowInput::CloseRequested));
    assert!(!s.input(&WindowInput::Resized(Size::new(10, 10))));
    s.update();
    assert_eq!(s.size(), Size::new(800, 600));
}

#[test]
fn close_request_exits() {
    let mut s = state(800, 600);
    assert_eq!(s.on_event(&window(WindowInput::CloseRequested)), Command::Exit);
}

#[test]
fn escape_press_exits() {
    let mut s = state(800, 600);
    let press = WindowInput::KeyboardInput { pressed: true, key: Some(Key::Escape) };
    assert_eq!(s.on_event(&window(press)), Command::Exit);
}

#[test]
fn other_keys_continue() {
    let mut s = state(800, 600);
    let release = WindowInput::KeyboardInput { pressed: false, key: Some(Key::Escape) };
    let other = WindowInput::KeyboardInput { pressed: true, key: Some(Key::Other) };
    let unnamed = WindowInput::KeyboardInput { pressed: true, key: None };
    assert_eq!(s.on_event(&window(release)), Command::Continue);
    assert_eq!(s.on_event(&window(other)), Command::Continue);
    assert_eq!(s.on_event(&window(unnamed)), Command::Continue);
    assert_eq!(s.on_event(&window(WindowInput::Other)), Command::Continue);
}

#[test]
fn events_of_other_windows_are_ignored() {
    let mut s = state(800, 600);
    let close = LoopEvent::Window { event: WindowInput::CloseRequested, own_window: false };
    let resize = LoopEvent::Window { event: WindowInput::Resized(Size::new(5, 5)), own_window: false };
    assert_eq!(s.on_event(&close), Command::Continue);
    assert_eq!(s.on_event(&resize), Command::Continue);
    assert_eq!(s.on_event(&LoopEvent::RedrawRequested { own_window: false }), Command::Continue);
    assert_eq!(s.size(), Size::new(800, 600));
}

#[test]
fn resize_events_reconfigure() {
    let mut s = state(800, 600);
    let c = s.on_event(&window(WindowInput::Resized(Size::new(1024, 768))));
    assert_eq!(c, Command::Reconfigure);
    assert_eq!(s.size(), Size::new(1024, 768));
    let c = s.on_event(&window(WindowInput::ScaleFactorChanged(Size::new(2048, 1536))));
    assert_eq!(c, Command::Reconfigure);
    assert_eq!(s.size(), Size::new(2048, 1536));
}

#[test]
fn minimizing_does_not_reconfigure() {
    let mut s = state(800, 600);
    let c = s.on_window_event(&WindowInput::Resized(Size::new(0, 0)));
    assert_eq!(c, Command::Continue);
    assert_eq!(s.size(), Size::new(800, 600));
}

#[test]
fn redraw_and_cleared_events() {
    let mut s = state(800, 600);
    assert_eq!(s.on_event(&LoopEvent::RedrawRequested { own_window: true }), Command::Render);
    assert_eq!(s.on_event(&LoopEvent::MainEventsCleared), Command::RequestRedraw);
    assert_eq!(s.on_event(&LoopEvent::Other), Command::Continue);
}

#[test]
fn lost_surface_reconfigures_with_last_size() {
    let mut s = state(800, 600);
    s.resize(Size::new(640, 480));
    assert_eq!(s.on_frame_result(Err(SurfaceError::Lost)), Command::Reconfigure);
    assert_eq!(s.size(), Size::new(640, 480));
}

#[test]
fn lost_surface_of_empty_window_is_left_alone() {
    let mut s = state(0, 0);
    assert_eq!(s.on_frame_result(Err(SurfaceError::Lost)), Command::Continue);
    assert_eq!(s.size(), Size::new(0, 0));
}

#[test]
fn out_of_memory_exits() {
    let mut s = state(800, 600);
    assert_eq!(s.on_frame_result(Err(SurfaceError::OutOfMemory)), Command::Exit);
}

#[test]
fn other_frame_errors_are_reported() {
    let mut s = state(800, 600);
    assert_eq!(s.on_frame_result(Err(SurfaceError::Timeout)), Command::Report(SurfaceError::Timeout));
    assert_eq!(s.on_frame_result(Err(SurfaceError::Outdated)), Command::Report(SurfaceError::Outdated));
    assert_eq!(s.on_frame_result(Ok(())), Command::Continue);
    assert_eq!(s.num_vertices, 3);
}
