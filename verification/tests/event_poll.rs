use oxr_sync::events::{OxrEvent, OxrEventHandler, OxrEventHandlers, PollCycle};

#[test]
fn polling_zero_events_invokes_no_handler_and_keeps_registration() {
    let mut handlers = OxrEventHandlers::new();
    handlers.add_oxr_event_handler(OxrEventHandler(10));
    handlers.add_oxr_event_handler(OxrEventHandler(20));

    let cycle = PollCycle::new(handlers);
    // No event was pending: the cycle ends without a single delivery.
    assert_eq!(cycle.event_count(), 0);
    assert_eq!(cycle.invocation_count(), 0);
    assert_eq!(cycle.failure_count(), 0);
    let returned = cycle.finish();
    assert_eq!(returned.len(), 2);
    assert_eq!(returned.handlers[0], OxrEventHandler(10));
    assert_eq!(returned.handlers[1], OxrEventHandler(20));
}

#[test]
fn failing_handler_is_skipped_not_blocking() {
    let mut handlers = OxrEventHandlers::new();
    handlers.add_oxr_event_handler(OxrEventHandler(1));
    handlers.add_oxr_event_handler(OxrEventHandler(2));
    handlers.add_oxr_event_handler(OxrEventHandler(3));

    let mut cycle = PollCycle::new(handlers);
    let mut delivered: Vec<(u64, u64)> = Vec::new();

    // Two queued events; the middle handler fails on every delivery.
    for event in [700u64, 701u64] {
        cycle.start_event();
        while let Some(handler) = cycle.pending_handler() {
            delivered.push((event, handler.0));
            let failed = handler.0 == 2;
            cycle.handler_done(failed);
        }
    }

    // The same event still reached the handler after the failing one, and
    // the second event was processed in full.
    assert_eq!(
        delivered,
        vec![(700, 1), (700, 2), (700, 3), (701, 1), (701, 2), (701, 3)]
    );
    assert_eq!(cycle.event_count(), 2);
    assert_eq!(cycle.invocation_count(), 6);
    assert_eq!(cycle.failure_count(), 2);

    let returned = cycle.finish();
    assert_eq!(returned.len(), 3);
}

#[test]
fn delivery_follows_registration_order() {
    let mut handlers = OxrEventHandlers::new();
    for id in [5u64, 9, 7] {
        handlers.add_oxr_event_handler(OxrEventHandler(id));
    }
    let mut cycle = PollCycle::new(handlers);
    cycle.start_event();
    let mut order: Vec<u64> = Vec::new();
    while let Some(handler) = cycle.pending_handler() {
        order.push(handler.0);
        cycle.handler_done(false);
    }
    assert_eq!(order, vec![5, 9, 7]);
}

#[test]
fn event_payload_is_withdrawn_after_delivery_scope() {
    let mut event = OxrEvent::new(42);
    assert_eq!(event.get(), Some(42));
    event.invalidate();
    // A handle kept past the delivering scope observes nothing.
    assert_eq!(event.get(), None);
}

#[test]
fn poll_cycle_with_no_handlers_delivers_nothing() {
    let handlers = OxrEventHandlers::new();
    let mut cycle = PollCycle::new(handlers);
    cycle.start_event();
    assert_eq!(cycle.pending_handler(), None);
    assert_eq!(cycle.invocation_count(), 0);
    assert_eq!(cycle.event_count(), 1);
    let returned = cycle.finish();
    assert_eq!(returned.len(), 0);
}
