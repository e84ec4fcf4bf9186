use gl_display::backend::{Backend, BackendCall, NullBacked, StubBackend, SwapBuffersError};
use gl_display::context::{required_symbols, Context, DebugCallbackBehavior};
use gl_display::display::Display;
use gl_display::frame::FrameState;

fn every_symbol() -> Vec<String> {
    required_symbols().iter().map(|s| s.to_string()).collect()
}

fn stub_display(dimensions: (u32, u32)) -> Display<StubBackend> {
    Display::from_backend(
        StubBackend::new(dimensions, Vec::new()),
        DebugCallbackBehavior::Ignore,
        false,
    )
    .unwrap()
}

#[test]
fn draw_reports_the_backend_size() {
    let mut display = stub_display((800, 600));
    let frame = display.draw();
    assert_eq!(frame.get_dimensions(), (800, 600));
    assert_eq!(frame.state(), FrameState::Active);
    assert!(frame.is_active());
    assert!(frame.context.backend().calls.is_empty());
    frame.finish().unwrap();
    assert_eq!(display.last_framebuffer_dimensions(), (800, 600));
    assert_eq!(
        display.get_context().backend().calls,
        vec![BackendCall::SwapBuffers]
    );
}

#[test]
fn draw_on_the_built_in_backend_is_800_by_600() {
    let mut display = Display::unchecked().unwrap();
    assert_eq!(display.last_framebuffer_dimensions(), (800, 600));
    assert_eq!(display.get_framebuffer_dimensions(), (800, 600));
    let frame = display.draw();
    assert_eq!(frame.get_dimensions(), (800, 600));
    assert_eq!(frame.finish(), Ok(()));
    assert_eq!(display.last_framebuffer_dimensions(), (800, 600));
}

#[test]
fn draw_resizes_once_after_a_new_size() {
    let mut display = stub_display((800, 600));
    display.get_context_mut().backend_mut().dimensions = (1024, 768);
    let frame = display.draw();
    assert_eq!(
        frame.context.backend().calls,
        vec![BackendCall::Resize(1024, 768)]
    );
    assert_eq!(frame.get_dimensions(), (1024, 768));
    frame.finish().unwrap();
    assert_eq!(display.last_framebuffer_dimensions(), (1024, 768));
    assert_eq!(
        display.get_context().backend().calls,
        vec![BackendCall::Resize(1024, 768), BackendCall::SwapBuffers]
    );
}

#[test]
fn draw_twice_at_one_size_does_not_resize() {
    let mut display = stub_display((800, 600));
    let first = display.draw();
    first.finish().unwrap();
    let second = display.draw();
    assert_eq!(second.get_dimensions(), (800, 600));
    second.finish().unwrap();
    assert_eq!(
        display.get_context().backend().calls,
        vec![BackendCall::SwapBuffers, BackendCall::SwapBuffers]
    );
}

#[test]
fn draw_after_a_resize_stays_quiet_until_the_next_one() {
    let mut display = stub_display((800, 600));
    display.get_context_mut().backend_mut().dimensions = (1024, 768);
    let first = display.draw();
    first.finish().unwrap();
    let second = display.draw();
    assert_eq!(second.get_dimensions(), (1024, 768));
    second.finish().unwrap();
    display.get_context_mut().backend_mut().dimensions = (800, 600);
    let third = display.draw();
    assert_eq!(third.get_dimensions(), (800, 600));
    third.finish().unwrap();
    assert_eq!(
        display.get_context().backend().calls,
        vec![
            BackendCall::Resize(1024, 768),
            BackendCall::SwapBuffers,
            BackendCall::SwapBuffers,
            BackendCall::Resize(800, 600),
            BackendCall::SwapBuffers,
        ]
    );
}

#[test]
fn draw_with_dimensions_resizes_only_for_a_new_size() {
    let mut display = stub_display((640, 480));
    let mut same = display.draw_with_dimensions((640, 480));
    assert_eq!(same.get_dimensions(), (640, 480));
    assert!(same.context.backend().calls.is_empty());
    same.set_finish().unwrap();
    let mut wider = display.draw_with_dimensions((641, 480));
    assert_eq!(wider.get_dimensions(), (641, 480));
    wider.set_finish().unwrap();
    let mut taller = display.draw_with_dimensions((641, 481));
    assert_eq!(taller.get_dimensions(), (641, 481));
    taller.set_finish().unwrap();
    assert_eq!(display.last_framebuffer_dimensions(), (641, 481));
    assert_eq!(
        display.get_context().backend().calls,
        vec![
            BackendCall::SwapBuffers,
            BackendCall::Resize(641, 480),
            BackendCall::SwapBuffers,
            BackendCall::Resize(641, 481),
            BackendCall::SwapBuffers,
        ]
    );
}

#[test]
fn releasing_a_frame_swaps_exactly_once() {
    let mut display = stub_display((800, 600));
    let mut frame = display.draw();
    assert_eq!(frame.set_finish(), Ok(()));
    assert_eq!(frame.state(), FrameState::Released);
    assert!(!frame.is_active());
    assert_eq!(frame.get_dimensions(), (800, 600));
    assert_eq!(frame.set_finish(), Err(SwapBuffersError::AlreadySwapped));
    assert_eq!(frame.finish(), Err(SwapBuffersError::AlreadySwapped));
    assert_eq!(
        display.get_context().backend().calls,
        vec![BackendCall::SwapBuffers]
    );
}

#[test]
fn releasing_a_frame_reports_a_lost_context() {
    let mut display = stub_display((800, 600));
    display.get_context_mut().backend_mut().current = false;
    assert!(!display.is_current());
    let frame = display.draw();
    assert_eq!(frame.finish(), Err(SwapBuffersError::ContextLost));
    assert_eq!(
        display.get_context().backend().calls,
        vec![BackendCall::SwapBuffers]
    );
    display.get_context_mut().make_current();
    assert!(display.is_current());
    assert_eq!(display.swap_buffers(), Ok(()));
    assert_eq!(
        display.get_context().backend().calls,
        vec![
            BackendCall::SwapBuffers,
            BackendCall::MakeCurrent,
            BackendCall::SwapBuffers
        ]
    );
}

#[test]
fn unchecked_context_is_always_built() {
    let context = Context::new(
        StubBackend::new((1, 1), Vec::new()),
        false,
        DebugCallbackBehavior::PrintAll,
    )
    .unwrap();
    assert!(!context.is_checked());
    assert_eq!(context.debug_behavior(), DebugCallbackBehavior::PrintAll);
    assert_eq!(context.get_framebuffer_dimensions(), (1, 1));
    assert!(context.is_current());
    let null = Context::new(NullBacked::new(), false, DebugCallbackBehavior::Ignore).unwrap();
    assert_eq!(null.get_framebuffer_dimensions(), (800, 600));
    assert!(null.is_current());
    assert_eq!(null.get_proc_address("glClear"), 0);
}

#[test]
fn checked_context_is_built_on_a_complete_backend() {
    let context = Context::new(
        StubBackend::new((800, 600), every_symbol()),
        true,
        DebugCallbackBehavior::default(),
    )
    .unwrap();
    assert!(context.is_checked());
    assert_eq!(
        context.debug_behavior(),
        DebugCallbackBehavior::DebugMessageOnError
    );
    assert!(context.backend().calls.is_empty());
    assert_ne!(context.get_proc_address("glClear"), 0);
    assert_eq!(context.get_proc_address("glNoSuchThing"), 0);
}

#[test]
fn checked_context_is_refused_on_a_missing_feature() {
    let mut symbols = every_symbol();
    symbols.retain(|s| s != "glViewport");
    let outcome = Context::new(
        StubBackend::new((800, 600), symbols),
        true,
        DebugCallbackBehavior::default(),
    );
    match outcome {
        Err(error) => assert_eq!(error.0, "missing required OpenGL function: glViewport"),
        Ok(_) => panic!("a backend without glViewport was accepted"),
    }
}

#[test]
fn checked_context_names_the_first_missing_feature() {
    let outcome = Context::new(NullBacked::new(), true, DebugCallbackBehavior::Ignore);
    match outcome {
        Err(error) => assert_eq!(error.0, "missing required OpenGL function: glGetString"),
        Ok(_) => panic!("the built-in backend was accepted"),
    }
}

#[test]
fn stub_backend_resolves_what_it_lists() {
    let mut stub = StubBackend::new((3, 4), vec!["a".to_string(), "b".to_string()]);
    assert_eq!(stub.get_proc_address("a"), 1);
    assert_eq!(stub.get_proc_address("b"), 2);
    assert_eq!(stub.get_proc_address("c"), 0);
    assert_eq!(stub.get_framebuffer_dimensions(), (3, 4));
    stub.resize(5, 6);
    assert_eq!(stub.get_framebuffer_dimensions(), (3, 4));
    assert_eq!(stub.calls, vec![BackendCall::Resize(5, 6)]);
}

#[test]
fn display_forwards_to_its_context() {
    let display = Display::from_backend(
        StubBackend::new((320, 200), every_symbol()),
        DebugCallbackBehavior::Ignore,
        true,
    )
    .unwrap();
    assert_eq!(display.get_framebuffer_dimensions(), (320, 200));
    assert_eq!(display.last_framebuffer_dimensions(), (320, 200));
    assert!(display.is_current());
    assert_ne!(display.get_proc_address("glGetError"), 0);
    assert_eq!(display.get_proc_address("glBogus"), 0);
    assert!(display.get_context().is_checked());
}

#[test]
fn frame_without_drawing_still_presents_once() {
    let mut context = Context::new(
        StubBackend::new((16, 16), Vec::new()),
        false,
        DebugCallbackBehavior::Ignore,
    )
    .unwrap();
    let frame = gl_display::frame::Frame::new(&mut context, (16, 16));
    assert!(frame.context.backend().calls.is_empty());
    assert_eq!(frame.finish(), Ok(()));
    assert_eq!(context.backend().calls, vec![BackendCall::SwapBuffers]);
}

#[test]
fn context_resize_reaches_the_backend_once() {
    let mut context = Context::new(
        StubBackend::new((16, 16), Vec::new()),
        false,
        DebugCallbackBehavior::Ignore,
    )
    .unwrap();
    context.resize(32, 24);
    assert_eq!(context.backend().calls, vec![BackendCall::Resize(32, 24)]);
    assert_eq!(context.get_framebuffer_dimensions(), (16, 16));
}

#[test]
fn rebuild_on_keeps_the_remembered_size() {
    let mut display = stub_display((800, 600));
    display
        .rebuild_on(StubBackend::new((1024, 768), Vec::new()))
        .unwrap();
    assert_eq!(display.last_framebuffer_dimensions(), (800, 600));
    assert_eq!(display.get_framebuffer_dimensions(), (1024, 768));
    assert!(display.get_context().backend().calls.is_empty());
    let frame = display.draw();
    assert_eq!(frame.get_dimensions(), (1024, 768));
    frame.finish().unwrap();
    assert_eq!(
        display.get_context().backend().calls,
        vec![BackendCall::Resize(1024, 768), BackendCall::SwapBuffers]
    );
}

#[test]
fn rebuild_on_refuses_an_incomplete_backend_for_a_checked_display() {
    let mut display = Display::from_backend(
        StubBackend::new((800, 600), every_symbol()),
        DebugCallbackBehavior::PrintAll,
        true,
    )
    .unwrap();
    let mut symbols = every_symbol();
    symbols.retain(|s| s != "glClear");
    let outcome = display.rebuild_on(StubBackend::new((1, 1), symbols));
    match outcome {
        Err(error) => assert_eq!(
            error.description(),
            "missing required OpenGL function: glClear"
        ),
        Ok(()) => panic!("a backend without glClear was accepted"),
    }
    assert_eq!(display.get_framebuffer_dimensions(), (800, 600));
    assert!(display.get_context().is_checked());
    assert_eq!(
        display.get_context().debug_behavior(),
        DebugCallbackBehavior::PrintAll
    );
    display
        .rebuild_on(StubBackend::new((2, 2), every_symbol()))
        .unwrap();
    assert_eq!(display.get_framebuffer_dimensions(), (2, 2));
    assert!(display.get_context().is_checked());
}

#[test]
fn context_rebuild_swaps_the_backend_in_place() {
    let mut context = Context::new(
        StubBackend::new((16, 16), Vec::new()),
        false,
        DebugCallbackBehavior::Ignore,
    )
    .unwrap();
    context.resize(1, 1);
    assert!(context.rebuild(StubBackend::new((32, 32), Vec::new())).is_ok());
    assert_eq!(context.get_framebuffer_dimensions(), (32, 32));
    assert!(context.backend().calls.is_empty());
    assert!(!context.is_checked());
    assert_eq!(context.debug_behavior(), DebugCallbackBehavior::Ignore);
}

#[test]
fn rebuild_moves_the_display_to_the_backend_that_was_built() {
    let mut display = stub_display((800, 600));
    let first = display.draw();
    first.finish().unwrap();
    assert_eq!(
        display.rebuild(Ok(StubBackend::new((1024, 768), Vec::new()))).is_ok(),
        true
    );
    assert_eq!(display.last_framebuffer_dimensions(), (800, 600));
    assert_eq!(display.get_framebuffer_dimensions(), (1024, 768));
    assert!(display.get_context().backend().calls.is_empty());
    assert!(!display.get_context().is_checked());
    assert_eq!(
        display.get_context().debug_behavior(),
        DebugCallbackBehavior::Ignore
    );
    let frame = display.draw();
    assert_eq!(frame.get_dimensions(), (1024, 768));
    frame.finish().unwrap();
    assert_eq!(
        display.get_context().backend().calls,
        vec![BackendCall::Resize(1024, 768), BackendCall::SwapBuffers]
    );
}

#[test]
fn rebuild_hands_on_the_error_of_a_failed_build() {
    let mut display = stub_display((800, 600));
    let first = display.draw();
    first.finish().unwrap();
    let outcome = display.rebuild(Err(glutin::CreationError::OsError(
        "no display server".to_string(),
    )));
    match outcome {
        Err(gl_display::display::DisplayCreationError::GlutinCreationError(
            glutin::CreationError::OsError(text),
        )) => assert_eq!(text, "no display server"),
        _ => panic!("expected the error of the build"),
    }
    assert_eq!(display.get_framebuffer_dimensions(), (800, 600));
    assert_eq!(display.last_framebuffer_dimensions(), (800, 600));
    assert_eq!(
        display.get_context().backend().calls,
        vec![BackendCall::SwapBuffers]
    );
}

#[test]
fn rebuild_refuses_an_incomplete_backend_for_a_checked_display() {
    let mut display = Display::from_backend(
        StubBackend::new((800, 600), every_symbol()),
        DebugCallbackBehavior::PrintAll,
        true,
    )
    .unwrap();
    let mut symbols = every_symbol();
    symbols.retain(|s| s != "glGetError");
    match display.rebuild(Ok(StubBackend::new((1, 1), symbols))) {
        Err(gl_display::display::DisplayCreationError::IncompatibleOpenGl(error)) => {
            assert_eq!(error.0, "missing required OpenGL function: glGetError")
        }
        _ => panic!("expected an incompatibility"),
    }
    assert_eq!(display.get_framebuffer_dimensions(), (800, 600));
    assert!(display.get_context().is_checked());
    assert!(display
        .rebuild(Ok(StubBackend::new((2, 2), every_symbol())))
        .is_ok());
    assert_eq!(display.get_framebuffer_dimensions(), (2, 2));
    assert!(display.get_context().is_checked());
    assert_eq!(
        display.get_context().debug_behavior(),
        DebugCallbackBehavior::PrintAll
    );
}
