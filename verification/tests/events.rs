use rotating_cube::events::{
    surface_error_action, select_format_index, ClearColor, CubeConfig, ErrorAction, LoopAction,
    LoopEvent, SurfaceErrorKind, ViewState, WindowEvent,
};

#[test]
fn initial_state() {
    let s = ViewState::new(450, 400);
    assert_eq!(s.width, 450);
    assert_eq!(s.height, 400);
    assert_eq!(s.config_width, 450);
    assert_eq!(s.config_height, 400);
    assert_eq!(s.clear_color, ClearColor::Black);
    assert!(s.use_color);
}

#[test]
fn cursor_move_turns_background_blue() {
    let mut s = ViewState::new(100, 100);
    let handled = s.input(&WindowEvent::CursorMoved);
    assert!(handled);
    assert_eq!(s.clear_color, ClearColor::Blue);
}

#[test]
fn space_key_toggles_colors() {
    let mut s = ViewState::new(100, 100);
    assert!(s.input(&WindowEvent::SpaceKey { released: false }));
    assert!(!s.use_color);
    assert!(s.input(&WindowEvent::SpaceKey { released: true }));
    assert!(s.use_color);
}

#[test]
fn other_input_is_not_handled() {
    let mut s = ViewState::new(100, 100);
    assert!(!s.input(&WindowEvent::CloseRequested));
    assert!(!s.input(&WindowEvent::KeyOther));
    assert!(!s.input(&WindowEvent::RedrawRequested));
    assert_eq!(s, ViewState::new(100, 100));
}

#[test]
fn resize_applies_only_positive_sizes() {
    let mut s = ViewState::new(100, 100);
    assert!(!s.resize(0, 50));
    assert!(!s.resize(50, 0));
    assert_eq!(s.width, 100);
    assert_eq!(s.config_height, 100);
    assert!(s.resize(640, 480));
    assert_eq!(s.width, 640);
    assert_eq!(s.height, 480);
    assert_eq!(s.config_width, 640);
    assert_eq!(s.config_height, 480);
}

#[test]
fn close_and_foreign_keys_exit() {
    let mut s = ViewState::new(100, 100);
    assert_eq!(
        s.handle_event(&LoopEvent::Window(WindowEvent::CloseRequested)),
        LoopAction::Exit
    );
    assert_eq!(s.handle_event(&LoopEvent::Window(WindowEvent::KeyOther)), LoopAction::Exit);
}

#[test]
fn space_does_not_exit() {
    let mut s = ViewState::new(100, 100);
    let action = s.handle_event(&LoopEvent::Window(WindowEvent::SpaceKey { released: false }));
    assert_eq!(action, LoopAction::Nothing);
    assert!(!s.use_color);
}

#[test]
fn window_resize_reconfigures() {
    let mut s = ViewState::new(100, 100);
    let action =
        s.handle_event(&LoopEvent::Window(WindowEvent::Resized { width: 640, height: 480 }));
    assert_eq!(action, LoopAction::Reconfigure);
    assert_eq!(s.config_width, 640);
    let ignored =
        s.handle_event(&LoopEvent::Window(WindowEvent::Resized { width: 0, height: 480 }));
    assert_eq!(ignored, LoopAction::Nothing);
    assert_eq!(s.config_width, 640);
}

#[test]
fn idle_keeps_the_cube_spinning() {
    let mut s = ViewState::new(100, 100);
    assert_eq!(s.handle_event(&LoopEvent::AboutToWait), LoopAction::RequestRedraw);
    assert_eq!(
        s.handle_event(&LoopEvent::Window(WindowEvent::RedrawRequested)),
        LoopAction::Render
    );
    assert_eq!(s.handle_event(&LoopEvent::NewEvents), LoopAction::Nothing);
    assert_eq!(s.handle_event(&LoopEvent::Other), LoopAction::Nothing);
}

#[test]
fn canvas_loop_takes_every_resize() {
    let mut c = CubeConfig::new(450, 400);
    let action = c.handle_event(&LoopEvent::Window(WindowEvent::Resized { width: 0, height: 7 }));
    assert_eq!(action, LoopAction::Reconfigure);
    assert_eq!(c.width, 0);
    assert_eq!(c.height, 7);
}

#[test]
fn canvas_loop_never_exits() {
    let mut c = CubeConfig::new(450, 400);
    assert_eq!(c.handle_event(&LoopEvent::Window(WindowEvent::CloseRequested)), LoopAction::Nothing);
    assert_eq!(c.handle_event(&LoopEvent::AboutToWait), LoopAction::RequestRedraw);
    assert_eq!(
        c.handle_event(&LoopEvent::Window(WindowEvent::RedrawRequested)),
        LoopAction::Render
    );
    assert_eq!(c.handle_event(&LoopEvent::NewEvents), LoopAction::Nothing);
    assert_eq!(c, CubeConfig::new(450, 400));
}

#[test]
fn surface_errors() {
    assert_eq!(surface_error_action(&SurfaceErrorKind::Lost), ErrorAction::RetryResize);
    assert_eq!(surface_error_action(&SurfaceErrorKind::OutOfMemory), ErrorAction::Exit);
    assert_eq!(surface_error_action(&SurfaceErrorKind::Outdated), ErrorAction::Report);
    assert_eq!(surface_error_action(&SurfaceErrorKind::Timeout), ErrorAction::Report);
    assert_eq!(surface_error_action(&SurfaceErrorKind::Other), ErrorAction::Report);
}

#[test]
fn format_selection_prefers_first_srgb() {
    assert_eq!(select_format_index(&vec![false, true, true]), 1);
    assert_eq!(select_format_index(&vec![true, false]), 0);
    assert_eq!(select_format_index(&vec![false, false, false]), 0);
    assert_eq!(select_format_index(&vec![false]), 0);
}
