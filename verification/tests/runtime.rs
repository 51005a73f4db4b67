use crux_core::capability::CapabilityContext;
use crux_core::channels::channel;
use crux_core::driver::{Core, ResolveError};
use crux_core::lsp_ext::{Health, ServerStatusParams};
use crux_core::render::Render;
use crux_core::Step;

#[test]
fn render_delivers_exactly_one_empty_step() {
    let (steps, queue) = channel::<Step<()>>();
    let (events, event_queue) = channel::<i32>();
    let context = CapabilityContext::new(steps, events);
    let render = Render::new(context);

    render.render();

    assert!(matches!(queue.receive(), Some(Step::Once(()))));
    assert!(queue.receive().is_none());
    assert!(event_queue.receive().is_none());
}

#[test]
fn render_remapped_into_a_parent_event_type() {
    let (steps, queue) = channel::<Step<()>>();
    let (events, event_queue) = channel::<i32>();
    let context = CapabilityContext::new(steps, events);
    let child: Render<bool, _, _> = Render::new(context).map_event(|flag: bool| {
        if flag {
            1
        } else {
            0
        }
    });

    child.render();
    assert!(matches!(queue.receive(), Some(Step::Once(()))));
    assert!(queue.receive().is_none());
    drop(event_queue);
}

#[test]
fn context_events_travel_through_the_projection() {
    let (steps, step_queue) = channel::<Step<()>>();
    let (events, event_queue) = channel::<i32>();
    let context = CapabilityContext::new(steps, events);
    let remapped = context.map_event(|flag: bool| if flag { 1 } else { 0 });

    remapped.update_app(true);
    remapped.update_app(false);
    assert_eq!(event_queue.receive(), Some(1));
    assert_eq!(event_queue.receive(), Some(0));
    assert_eq!(event_queue.receive(), None);
    assert!(step_queue.receive().is_none());
}

#[test]
fn process_event_registers_requests_and_resolve_feeds_back() {
    let (sender, receiver) = channel::<Step<i32>>();
    let update = move |event: i32| {
        if event > 0 {
            sender.send(Step::once(event * 100));
        }
    };
    let mut core = Core::new(update, receiver);

    let effects = core.process_event(3);
    assert_eq!(effects.len(), 1);
    assert_eq!(effects[0].effect, 300);
    let handle = effects[0].handle;

    let more = core.resolve(handle, 2).expect("first resolution is accepted");
    assert_eq!(more.len(), 1);
    assert_eq!(more[0].effect, 200);
    assert_ne!(more[0].handle, handle);

    let again = core.resolve(handle, 2);
    assert!(matches!(again, Err(ResolveError::UnknownRequest)));

    let nothing = core.process_event(-1);
    assert!(nothing.is_empty());
}

#[test]
fn resolve_rejects_a_handle_never_issued() {
    let (sender, receiver) = channel::<Step<i32>>();
    let update = move |_event: i32| {
        let _keep = &sender;
    };
    let mut core = Core::new(update, receiver);
    assert!(matches!(core.resolve(7, 0), Err(ResolveError::UnknownRequest)));
}

#[test]
fn notification_travels_under_its_method_name() {
    assert_eq!(crux_core::lsp_ext::server_status_method(), "experimental/serverStatus");
}

#[test]
fn server_status_params_compare_by_value() {
    let a = ServerStatusParams { health: Health::Good, quiescent: true, message: None };
    let b = ServerStatusParams { health: Health::Good, quiescent: true, message: None };
    let c = ServerStatusParams {
        health: Health::Warning,
        quiescent: false,
        message: Some(String::from("indexing")),
    };
    assert!(a == b);
    assert!(a != c);
    assert!(matches!(c.health, Health::Warning));
}
