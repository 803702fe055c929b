use shuiqi::config::ShuiqiOptions;
use shuiqi::render::wgpu::WgpuRenderer;
use shuiqi::render::{PhysicalSize, Renderer};
use shuiqi::scheduler::{
    Action, PendingResize, ResizeOrder, ShuqiApp, ShuqiIntermediateApp, WindowEvent,
};

fn handler() -> ShuqiIntermediateApp {
    let mut handler = ShuqiIntermediateApp::new(ShuqiApp::default());
    handler.resumed();
    handler
}

fn order_of(action: Action) -> ResizeOrder {
    match action {
        Action::Schedule(order) => order,
        other => panic!("expected an order to schedule, got {:?}", other),
    }
}

#[test]
fn default_interval_is_250() {
    assert_eq!(ShuiqiOptions::default().resize_interval, 250);
    assert_eq!(ShuqiApp::default().resize_interval(), 250);
    assert_eq!(ShuqiApp::new(ShuiqiOptions { resize_interval: 40 }).resize_interval(), 40);
}

#[test]
fn new_handler_is_idle_and_has_no_renderer() {
    let handler = ShuqiIntermediateApp::new(ShuqiApp::default());
    assert!(!handler.is_ready());
    assert_eq!(handler.pending(), None);
}

#[test]
fn close_request_exits() {
    let mut handler = handler();
    assert_eq!(handler.window_event(WindowEvent::CloseRequested), Action::Exit);
    assert_eq!(handler.pending(), None);
}

#[test]
fn other_events_are_ignored() {
    let mut handler = handler();
    assert_eq!(handler.window_event(WindowEvent::Other), Action::Ignore);
    assert_eq!(handler.pending(), None);
}

#[test]
fn redraw_draws_when_idle() {
    let mut handler = handler();
    assert_eq!(handler.window_event(WindowEvent::RedrawRequested), Action::Render);
}

#[test]
fn redraw_before_there_is_a_renderer_draws_nothing() {
    let mut handler = ShuqiIntermediateApp::new(ShuqiApp::default());
    assert_eq!(handler.window_event(WindowEvent::RedrawRequested), Action::Ignore);
}

#[test]
fn first_resize_schedules_without_cancelling() {
    let mut handler = handler();
    let size = PhysicalSize::new(100, 100);
    let order = order_of(handler.window_event(WindowEvent::Resized(size)));
    assert_eq!(order, ResizeOrder { cancel: None, ticket: 1, delay_millis: 250, size });
    assert_eq!(handler.pending(), Some(PendingResize { ticket: 1, size }));
}

#[test]
fn delay_is_the_configured_interval() {
    let mut handler =
        ShuqiIntermediateApp::new(ShuqiApp::new(ShuiqiOptions { resize_interval: 1000 }));
    handler.resumed();
    let order = handler.schedule_resize(PhysicalSize::new(1, 1));
    assert_eq!(order.delay_millis, 1000);
}

#[test]
fn delay_keeps_the_low_64_bits_of_the_interval() {
    let interval: u128 = (1u128 << 64) + 17;
    let mut handler =
        ShuqiIntermediateApp::new(ShuqiApp::new(ShuiqiOptions { resize_interval: interval }));
    handler.resumed();
    let order = handler.schedule_resize(PhysicalSize::new(1, 1));
    assert_eq!(order.delay_millis, 17);
    assert_eq!(order.delay_millis, interval as u64);
}

#[test]
fn burst_of_resizes_applies_only_the_last_size() {
    let mut handler = handler();
    let mut renderer = WgpuRenderer::init(PhysicalSize::new(50, 50), &vec![true]);
    let sizes = [
        PhysicalSize::new(100, 100),
        PhysicalSize::new(150, 150),
        PhysicalSize::new(200, 200),
    ];
    let mut tickets = Vec::new();
    let mut previous: Option<u64> = None;
    for size in sizes {
        let order = order_of(handler.window_event(WindowEvent::Resized(size)));
        assert_eq!(order.cancel, previous);
        assert_eq!(order.size, size);
        assert_eq!(order.delay_millis, 250);
        previous = Some(order.ticket);
        tickets.push(order.ticket);
    }
    assert_eq!(tickets, vec![1, 2, 3]);

    let mut mutations = 0;
    for ticket in tickets {
        if let Some(size) = handler.resize_elapsed(ticket) {
            assert_eq!(size, PhysicalSize::new(200, 200));
            assert!(renderer.resize(size));
            mutations += 1;
        }
    }
    assert_eq!(mutations, 1);
    assert_eq!(renderer.size, PhysicalSize::new(200, 200));
    assert_eq!(renderer.config().width, 200);
    assert_eq!(renderer.config().height, 200);
    assert_eq!(handler.pending(), None);
    assert_eq!(handler.resize_elapsed(3), None);
}

#[test]
fn superseded_ticket_changes_nothing() {
    let mut handler = handler();
    let first = handler.schedule_resize(PhysicalSize::new(10, 10));
    let second = handler.schedule_resize(PhysicalSize::new(20, 20));
    assert_eq!(second.cancel, Some(first.ticket));
    assert_eq!(handler.resize_elapsed(first.ticket), None);
    assert_eq!(
        handler.pending(),
        Some(PendingResize { ticket: second.ticket, size: PhysicalSize::new(20, 20) })
    );
    assert_eq!(handler.resize_elapsed(second.ticket), Some(PhysicalSize::new(20, 20)));
    assert_eq!(handler.pending(), None);
}

#[test]
fn elapsed_ticket_without_a_pending_resize_changes_nothing() {
    let mut handler = handler();
    assert_eq!(handler.resize_elapsed(0), None);
    assert_eq!(handler.resize_elapsed(1), None);
    assert_eq!(handler.pending(), None);
}

#[test]
fn redraw_is_dropped_while_a_resize_is_pending() {
    let mut handler = handler();
    let order = order_of(handler.window_event(WindowEvent::Resized(PhysicalSize::new(300, 200))));
    assert_eq!(handler.window_event(WindowEvent::RedrawRequested), Action::Ignore);
    assert_eq!(handler.window_event(WindowEvent::RedrawRequested), Action::Ignore);
    assert_eq!(
        handler.pending(),
        Some(PendingResize { ticket: order.ticket, size: PhysicalSize::new(300, 200) })
    );
    assert_eq!(handler.resize_elapsed(order.ticket), Some(PhysicalSize::new(300, 200)));
    assert_eq!(handler.window_event(WindowEvent::RedrawRequested), Action::Render);
}

#[test]
fn zero_area_resize_is_scheduled_but_not_applied() {
    let mut handler = handler();
    let mut renderer = WgpuRenderer::init(PhysicalSize::new(640, 480), &vec![true]);
    let order = order_of(handler.window_event(WindowEvent::Resized(PhysicalSize::new(0, 480))));
    let size = handler.resize_elapsed(order.ticket).expect("the resize is due");
    assert_eq!(size, PhysicalSize::new(0, 480));
    assert!(!renderer.resize(size));
    assert_eq!(renderer.size, PhysicalSize::new(640, 480));
    assert_eq!(renderer.config().width, 640);
    assert_eq!(renderer.config().height, 480);
    assert_eq!(handler.window_event(WindowEvent::RedrawRequested), Action::Render);
}

#[test]
fn tickets_count_up_across_bursts() {
    let mut handler = handler();
    let a = handler.schedule_resize(PhysicalSize::new(1, 1));
    assert_eq!(handler.resize_elapsed(a.ticket), Some(PhysicalSize::new(1, 1)));
    let b = handler.schedule_resize(PhysicalSize::new(2, 2));
    assert_eq!(b.cancel, None);
    assert_eq!(b.ticket, a.ticket + 1);
    assert_eq!(handler.resize_elapsed(a.ticket), None);
    assert_eq!(handler.resize_elapsed(b.ticket), Some(PhysicalSize::new(2, 2)));
}
