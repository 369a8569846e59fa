use mobile_bridge::backend::{Lifecycle, MobileBackend};
use mobile_bridge::event_bus::{
    cleanup, init, init_events, send_exit, send_render, send_resize, send_touch, MobileEventBus,
};
use mobile_bridge::event_queue::EventQueue;
use mobile_bridge::events::{process_events, MobileEvent, NativeEvent, TouchAction};
use mobile_bridge::registry::DispatchRegistry;
use mobile_bridge::window::MobileWindow;

fn ready_backend() -> MobileBackend {
    let mut backend = MobileBackend::new(1000);
    backend.initialize(800, 600);
    backend
}

#[test]
fn drain_returns_pushes_in_order_then_nothing() {
    let mut q: EventQueue<u32> = EventQueue::new();
    assert!(q.is_empty());
    for i in 0..10u32 {
        q.push(i * 3);
    }
    assert_eq!(q.len(), 10);
    let first = q.drain();
    assert_eq!(first, (0..10u32).map(|i| i * 3).collect::<Vec<u32>>());
    assert!(q.drain().is_empty());
    assert!(q.is_empty());
}

#[test]
fn drain_of_empty_queue_is_empty() {
    let mut q: EventQueue<NativeEvent> = EventQueue::new();
    assert!(q.drain().is_empty());
}

#[test]
fn clear_drops_everything() {
    let mut q: EventQueue<u8> = EventQueue::new();
    q.push(1);
    q.push(2);
    q.clear();
    assert_eq!(q.len(), 0);
    assert!(q.drain().is_empty());
}

#[test]
fn interleaved_producers_keep_their_order() {
    let mut q: EventQueue<MobileEvent> = EventQueue::new();
    for i in 0..100i64 {
        q.push(MobileEvent::Touch { x: i, y: -i, action: TouchAction::Move });
        q.push(MobileEvent::Resize { width: i as u32, height: 2 * i as u32 });
    }
    let drained = q.drain();
    assert_eq!(drained.len(), 200);
    let touches: Vec<MobileEvent> =
        drained.iter().copied().filter(|e| matches!(e, MobileEvent::Touch { .. })).collect();
    let resizes: Vec<MobileEvent> =
        drained.iter().copied().filter(|e| matches!(e, MobileEvent::Resize { .. })).collect();
    let want_touches: Vec<MobileEvent> = (0..100i64)
        .map(|i| MobileEvent::Touch { x: i, y: -i, action: TouchAction::Move })
        .collect();
    let want_resizes: Vec<MobileEvent> = (0..100i64)
        .map(|i| MobileEvent::Resize { width: i as u32, height: 2 * i as u32 })
        .collect();
    assert_eq!(touches, want_touches);
    assert_eq!(resizes, want_resizes);
    assert!(q.drain().is_empty());
}

#[test]
fn touch_action_codes() {
    assert_eq!(TouchAction::from(0), TouchAction::Down);
    assert_eq!(TouchAction::from(1), TouchAction::Up);
    assert_eq!(TouchAction::from(2), TouchAction::Move);
    assert_eq!(TouchAction::from(3), TouchAction::Up);
    assert_eq!(TouchAction::from(-1), TouchAction::Up);
}

#[test]
fn touches_translate_to_native_events() {
    let down = MobileEvent::Touch { x: 1500, y: -20, action: TouchAction::Down };
    let moved = MobileEvent::Touch { x: 7, y: 8, action: TouchAction::Move };
    let up = MobileEvent::Touch { x: 9, y: 10, action: TouchAction::Up };
    assert_eq!(process_events(&down), Some(NativeEvent::TouchStart { id: 0, x: 1500, y: -20 }));
    assert_eq!(process_events(&moved), Some(NativeEvent::TouchMove { id: 0, x: 7, y: 8 }));
    assert_eq!(process_events(&up), Some(NativeEvent::TouchEnd { id: 0, x: 9, y: 10 }));
    assert_eq!(process_events(&MobileEvent::Render), None);
    assert_eq!(process_events(&MobileEvent::Exit), None);
    assert_eq!(process_events(&MobileEvent::Resize { width: 1, height: 2 }), None);
}

#[test]
fn window_resize_keeps_scale() {
    let mut w = MobileWindow::new(800, 600, 2500);
    assert_eq!(w.id(), 0);
    w.resize(1024, 768);
    assert_eq!(w.size(), (1024, 768));
    assert_eq!(w.screen_size(), (1024, 768));
    assert_eq!(w.dpi(), 2500);
}

#[test]
fn window_set_size_needs_positive_sides() {
    let mut w = MobileWindow::new(800, 600, 1000);
    w.set_size(0, 100);
    assert_eq!(w.size(), (800, 600));
    w.set_size(-5, -5);
    assert_eq!(w.size(), (800, 600));
    w.set_size(320, 240);
    assert_eq!(w.size(), (320, 240));
}

#[test]
fn backend_before_setup_ignores_events() {
    let mut backend = MobileBackend::new(1000);
    assert_eq!(backend.state(), Lifecycle::Uninitialized);
    assert!(!backend.has_windows());
    assert!(!backend.handle_event(MobileEvent::Render));
    assert!(!backend.handle_event(MobileEvent::Resize { width: 5, height: 5 }));
    assert_eq!(backend.frame_count(), 0);
    assert!(backend.events_iter().is_empty());
    assert_eq!(backend.window_size(), None);
}

#[test]
fn backend_setup_happens_once() {
    let mut backend = ready_backend();
    assert_eq!(backend.state(), Lifecycle::Initialized);
    assert!(backend.has_windows());
    backend.initialize(1, 1);
    assert_eq!(backend.window_size(), Some((800, 600)));
    backend.start();
    assert_eq!(backend.state(), Lifecycle::Running);
}

#[test]
fn backend_handles_each_kind_of_event() {
    let mut backend = ready_backend();
    assert!(backend.handle_event(MobileEvent::Render));
    assert_eq!(backend.frame_count(), 1);
    assert!(!backend.handle_event(MobileEvent::Touch { x: 5, y: 6, action: TouchAction::Down }));
    assert!(!backend.handle_event(MobileEvent::Resize { width: 1024, height: 768 }));
    assert_eq!(backend.window_size(), Some((1024, 768)));
    assert_eq!(backend.window_scale(), 1000);
    assert_eq!(
        backend.events_iter(),
        vec![
            NativeEvent::TouchStart { id: 0, x: 5, y: 6 },
            NativeEvent::WindowResize { width: 1024, height: 768 },
        ]
    );
    assert!(backend.events_iter().is_empty());
}

#[test]
fn render_after_exit_runs_no_frame() {
    let mut backend = ready_backend();
    assert!(backend.handle_event(MobileEvent::Render));
    assert!(!backend.handle_event(MobileEvent::Exit));
    assert!(backend.exit_requested());
    assert_eq!(backend.state(), Lifecycle::ExitRequested);
    assert!(!backend.handle_event(MobileEvent::Render));
    assert!(!backend.handle_event(MobileEvent::Render));
    assert_eq!(backend.frame_count(), 1);
    assert!(!backend.handle_event(MobileEvent::Touch { x: 1, y: 1, action: TouchAction::Up }));
    assert!(backend.events_iter().is_empty());
    backend.destroy();
    assert_eq!(backend.state(), Lifecycle::Destroyed);
}

#[test]
fn backend_exit_call_stops_frames() {
    let mut backend = ready_backend();
    backend.exit();
    assert!(backend.exit_requested());
    assert!(!backend.handle_event(MobileEvent::Render));
    assert_eq!(backend.frame_count(), 0);
}

#[test]
fn dispatch_without_handler_does_nothing() {
    let mut reg = init();
    assert_eq!(reg.slot(), None);
    assert!(!send_render(&mut reg));
    send_touch(&mut reg, 1, 2, 0);
    send_resize(&mut reg, 3, 4);
    send_exit(&mut reg);
    assert_eq!(reg.slot(), None);
    let mut other = init_events();
    assert!(!other.dispatch(MobileEvent::Render));
}

#[test]
fn published_events_reach_the_session() {
    let mut reg = init();
    let mut bus = MobileEventBus::new();
    assert_eq!(bus.handler_id(), None);
    assert!(bus.run_event_loop(&mut reg, ready_backend()));
    let id = bus.handler_id().unwrap();
    assert_eq!(reg.slot(), Some(id));
    assert_eq!(reg.handler(id).unwrap().state(), Lifecycle::Running);
    assert!(send_render(&mut reg));
    assert!(MobileEventBus::publish_event(&mut reg, MobileEvent::Render));
    assert_eq!(reg.handler(id).unwrap().frame_count(), 2);
    send_touch(&mut reg, 10, 20, 9);
    send_resize(&mut reg, 640, 480);
    assert_eq!(reg.handler(id).unwrap().window_size(), Some((640, 480)));
    assert_eq!(
        reg.take_events(id),
        vec![
            NativeEvent::TouchEnd { id: 0, x: 10, y: 20 },
            NativeEvent::WindowResize { width: 640, height: 480 },
        ]
    );
    assert!(reg.take_events(id).is_empty());
}

#[test]
fn cleanup_stops_dispatch_and_can_repeat() {
    let mut reg = init();
    let mut bus = MobileEventBus::new();
    assert!(bus.run_event_loop(&mut reg, ready_backend()));
    let id = bus.handler_id().unwrap();
    assert!(send_render(&mut reg));
    bus.cleanup(&mut reg);
    assert_eq!(reg.slot(), None);
    assert!(reg.handler(id).is_none());
    assert!(bus.handler_id().is_none());
    assert!(!send_render(&mut reg));
    bus.cleanup(&mut reg);
    cleanup(&mut reg);
    assert_eq!(reg.slot(), None);
}

#[test]
fn exit_ends_dispatch() {
    let mut reg = init();
    let mut bus = MobileEventBus::new();
    assert!(bus.run_event_loop(&mut reg, ready_backend()));
    let id = bus.handler_id().unwrap();
    send_exit(&mut reg);
    assert_eq!(reg.slot(), None);
    assert!(reg.handler(id).is_none());
    assert!(!send_render(&mut reg));
    assert!(reg.take_events(id).is_empty());
}

#[test]
fn slot_whose_handler_was_let_go_is_a_no_op() {
    let mut reg = DispatchRegistry::new();
    let id = reg.adopt(ready_backend()).unwrap();
    reg.set_handler(id);
    assert!(reg.dispatch(MobileEvent::Render));
    reg.release(id);
    assert_eq!(reg.slot(), Some(id));
    assert!(!reg.dispatch(MobileEvent::Render));
    assert!(!reg.dispatch(MobileEvent::Exit));
    assert_eq!(reg.slot(), Some(id));
}

#[test]
fn slot_pointing_elsewhere_reaches_nothing() {
    let mut reg = DispatchRegistry::new();
    let id = reg.adopt(ready_backend()).unwrap();
    reg.set_handler(id + 7);
    assert!(!reg.dispatch(MobileEvent::Render));
    assert_eq!(reg.handler(id).unwrap().frame_count(), 0);
    reg.clear();
    reg.clear();
    assert_eq!(reg.slot(), None);
}

#[test]
fn second_run_replaces_the_handler() {
    let mut reg = init();
    let mut bus = MobileEventBus::new();
    assert!(bus.run_event_loop(&mut reg, ready_backend()));
    let first = bus.handler_id().unwrap();
    assert!(bus.run_event_loop(&mut reg, ready_backend()));
    let second = bus.handler_id().unwrap();
    assert_ne!(first, second);
    assert_eq!(reg.slot(), Some(second));
    assert!(reg.handler(first).is_none());
    assert!(send_render(&mut reg));
    assert_eq!(reg.handler(second).unwrap().frame_count(), 1);
}

#[test]
fn scale_factor_survives_resizes() {
    let mut backend = MobileBackend::new(2625);
    backend.initialize(800, 600);
    assert!(!backend.handle_event(MobileEvent::Resize { width: 100, height: 50 }));
    assert!(!backend.handle_event(MobileEvent::Resize { width: 0, height: 0 }));
    assert_eq!(backend.window_scale(), 2625);
    assert_eq!(backend.window_size(), Some((0, 0)));
}

#[test]
fn handler_registered_before_setup_never_ticks() {
    let mut reg = init();
    let mut bus = MobileEventBus::new();
    assert!(bus.run_event_loop(&mut reg, MobileBackend::new(1000)));
    let id = bus.handler_id().unwrap();
    assert_eq!(reg.handler(id).unwrap().state(), Lifecycle::Uninitialized);
    assert!(!send_render(&mut reg));
    send_touch(&mut reg, 1, 1, 0);
    assert!(reg.take_events(id).is_empty());
}
