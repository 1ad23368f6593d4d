use hexil::frame::RenderCommand;
use hexil::window::send_or_exit_decision;
use hexil::window::window_event_response;
use hexil::window::WindowEventKind;

#[test]
fn resize_events_forward_the_new_size() {
    let r = window_event_response(WindowEventKind::Resized {
        width: 640,
        height: 480,
    });
    assert_eq!(r.command, Some(RenderCommand::WindowResized(640, 480)));
    assert!(!r.exit);
    assert!(!r.set_poll);
}

#[test]
fn close_requests_shut_down_and_exit() {
    let r = window_event_response(WindowEventKind::CloseRequested);
    assert_eq!(r.command, Some(RenderCommand::Shutdown));
    assert!(r.exit);
}

#[test]
fn destruction_shuts_down_without_exiting() {
    let r = window_event_response(WindowEventKind::Destroyed);
    assert_eq!(r.command, Some(RenderCommand::Shutdown));
    assert!(!r.exit);
}

#[test]
fn redraw_requests_forward_and_poll() {
    let r = window_event_response(WindowEventKind::RedrawRequested);
    assert_eq!(r.command, Some(RenderCommand::Redraw));
    assert!(r.set_poll);
}

#[test]
fn unrelated_events_are_ignored() {
    let r = window_event_response(WindowEventKind::Other);
    assert_eq!(r.command, None);
    assert!(!r.exit);
    assert!(!r.set_poll);
}

#[test]
fn dead_render_thread_makes_the_event_loop_exit() {
    // The render thread's receiver is gone, so sending fails; the event
    // loop must exit rather than hang.
    assert!(send_or_exit_decision(true));
    assert!(!send_or_exit_decision(false));
}
