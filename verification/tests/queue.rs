use wpe::native::{
    deliver_load_event, deliver_progress, deliver_script_bytes, deliver_script_text,
    deliver_title, deliver_uri, Delivery, LoadState, LoadTracker, NavigationEvent,
};
use wpe::ipc::{DecodeError, EnvelopeDefect, FrontendMessage};
use wpe::queue::{BindingState, EventQueue};

#[test]
fn queue_starts_unbound_and_empty() {
    let queue: EventQueue<u32> = EventQueue::new();
    assert_eq!(queue.state(), BindingState::Unbound);
    assert_eq!(queue.len(), 0);
    assert!(queue.is_empty());
}

#[test]
fn queue_takes_records_only_while_bound() {
    let mut queue: EventQueue<u32> = EventQueue::new();
    assert!(!queue.push(1));
    assert!(queue.is_empty());
    assert!(queue.bind());
    assert_eq!(queue.state(), BindingState::Bound);
    assert!(queue.push(2));
    assert!(queue.push(3));
    assert_eq!(queue.len(), 2);
    assert!(queue.disconnect());
    assert_eq!(queue.state(), BindingState::Disconnected);
    assert!(!queue.push(4));
    assert_eq!(queue.drain(), vec![2, 3]);
    assert!(queue.is_empty());
}

#[test]
fn queue_is_bound_once() {
    let mut queue: EventQueue<u32> = EventQueue::new();
    assert!(queue.bind());
    assert!(!queue.bind());
    assert_eq!(queue.state(), BindingState::Bound);
}

#[test]
fn disconnect_is_final() {
    let mut queue: EventQueue<u32> = EventQueue::new();
    assert!(!queue.disconnect());
    assert_eq!(queue.state(), BindingState::Disconnected);
    assert!(!queue.bind());
    assert_eq!(queue.state(), BindingState::Disconnected);
    assert!(!queue.push(1));
    assert!(!queue.disconnect());
    assert_eq!(queue.state(), BindingState::Disconnected);
    assert!(queue.drain().is_empty());
}

#[test]
fn drain_keeps_the_order_and_the_binding() {
    let mut queue: EventQueue<&str> = EventQueue::new();
    queue.bind();
    queue.push("a");
    queue.push("b");
    queue.push("c");
    assert_eq!(queue.drain(), vec!["a", "b", "c"]);
    assert_eq!(queue.state(), BindingState::Bound);
    assert!(queue.drain().is_empty());
    queue.push("d");
    assert_eq!(queue.drain(), vec!["d"]);
}

#[test]
fn new_load_begins_before_the_last_was_drained() {
    let mut queue: EventQueue<NavigationEvent> = EventQueue::new();
    queue.bind();
    // Started, Committed, Finished, and a new Started, with no drain between
    for code in [0, 2, 3, 0] {
        assert!(deliver_load_event(&mut queue, code));
    }
    let events = queue.drain();
    assert_eq!(events.len(), 4);
    let mut tracker = LoadTracker::new();
    let mut states = Vec::new();
    for event in &events {
        match event {
            NavigationEvent::LoadChanged(state) => {
                tracker.observe(*state);
                states.push((*state, tracker.cycles(), tracker.is_loading()));
            }
            other => panic!("unexpected event {:?}", other),
        }
    }
    assert_eq!(
        states,
        vec![
            (LoadState::Started, 1, true),
            (LoadState::Committed, 1, true),
            (LoadState::Finished, 1, false),
            (LoadState::Started, 2, true),
        ]
    );
    assert_eq!(tracker.state(), Some(LoadState::Started));
}

#[test]
fn load_tracker_counts_started_loads() {
    let mut tracker = LoadTracker::new();
    assert_eq!(tracker.cycles(), 0);
    assert_eq!(tracker.state(), None);
    assert!(!tracker.is_loading());
    tracker.observe(LoadState::Started);
    tracker.observe(LoadState::Redirected);
    tracker.observe(LoadState::Redirected);
    assert_eq!(tracker.cycles(), 1);
    assert!(tracker.is_loading());
    // a fresh load before the first finished
    tracker.observe(LoadState::Started);
    assert_eq!(tracker.cycles(), 2);
    tracker.observe(LoadState::Committed);
    tracker.observe(LoadState::Finished);
    assert_eq!(tracker.cycles(), 2);
    assert_eq!(tracker.state(), Some(LoadState::Finished));
    assert!(!tracker.is_loading());
}

#[test]
fn load_codes_decode_and_unknown_is_started() {
    assert_eq!(LoadState::from_webkit(0), LoadState::Started);
    assert_eq!(LoadState::from_webkit(1), LoadState::Redirected);
    assert_eq!(LoadState::from_webkit(2), LoadState::Committed);
    assert_eq!(LoadState::from_webkit(3), LoadState::Finished);
    assert_eq!(LoadState::from_webkit(4), LoadState::Started);
    assert_eq!(LoadState::from_webkit(u32::MAX), LoadState::Started);
}

#[test]
fn navigation_events_keep_emission_order() {
    let mut queue: EventQueue<NavigationEvent> = EventQueue::new();
    queue.bind();
    assert!(deliver_load_event(&mut queue, 0));
    assert!(deliver_uri(&mut queue, Some("https://example.com/".to_string())));
    assert!(deliver_progress(&mut queue, 0.5_f64.to_bits()));
    assert!(deliver_title(&mut queue, Some("Example".to_string())));
    assert!(!deliver_title(&mut queue, None));
    assert!(!deliver_uri(&mut queue, None));
    assert!(deliver_load_event(&mut queue, 3));
    let events = queue.drain();
    assert_eq!(events.len(), 5);
    assert!(matches!(events[0], NavigationEvent::LoadChanged(LoadState::Started)));
    assert!(matches!(&events[1], NavigationEvent::UrlChanged(url) if url == "https://example.com/"));
    assert!(
        matches!(events[2], NavigationEvent::ProgressChanged(bits) if f64::from_bits(bits) == 0.5)
    );
    assert!(matches!(&events[3], NavigationEvent::TitleChanged(title) if title == "Example"));
    assert!(matches!(events[4], NavigationEvent::LoadChanged(LoadState::Finished)));
}

#[test]
fn events_for_an_unbound_queue_are_dropped() {
    let mut queue: EventQueue<NavigationEvent> = EventQueue::new();
    assert!(!deliver_load_event(&mut queue, 0));
    assert!(!deliver_title(&mut queue, Some("t".to_string())));
    assert!(!deliver_uri(&mut queue, Some("u".to_string())));
    assert!(!deliver_progress(&mut queue, 0));
    assert!(queue.is_empty());
}

#[test]
fn script_message_is_decoded_and_queued() {
    let mut queue: EventQueue<FrontendMessage> = EventQueue::new();
    queue.bind();
    let outcome = deliver_script_bytes(
        &mut queue,
        "{\"type\":\"ping\",\"payload\":{\"t\":1},\"_requestId\":\"r1\"}".as_bytes(),
    );
    assert!(matches!(outcome, Delivery::Queued));
    assert!(matches!(deliver_script_text(&mut queue, "{\"type\":\"second\"}"), Delivery::Queued));
    let messages = queue.drain();
    assert_eq!(messages.len(), 2);
    assert_eq!(messages[0].message_type, "ping");
    assert_eq!(messages[0].request_id, Some("r1".to_string()));
    assert_eq!(messages[1].message_type, "second");
}

#[test]
fn malformed_script_message_is_dropped() {
    let mut queue: EventQueue<FrontendMessage> = EventQueue::new();
    queue.bind();
    assert!(matches!(
        deliver_script_text(&mut queue, "not json"),
        Delivery::Malformed(DecodeError::Syntax(_))
    ));
    assert!(matches!(
        deliver_script_text(&mut queue, "{\"payload\":1}"),
        Delivery::Malformed(DecodeError::Envelope(EnvelopeDefect::MissingType))
    ));
    assert!(matches!(
        deliver_script_bytes(&mut queue, b"[]"),
        Delivery::Malformed(DecodeError::Envelope(EnvelopeDefect::NotAnObject))
    ));
    assert!(queue.is_empty());
    assert_eq!(queue.state(), BindingState::Bound);
}

#[test]
fn bytes_that_are_not_text_are_dropped() {
    let mut queue: EventQueue<FrontendMessage> = EventQueue::new();
    queue.bind();
    assert!(matches!(deliver_script_bytes(&mut queue, &[0xFF, 0xFE, 0x7B]), Delivery::NotText));
    assert!(matches!(deliver_script_bytes(&mut queue, &[0xC3]), Delivery::NotText));
    assert!(queue.is_empty());
}

#[test]
fn script_message_with_unicode_text() {
    let mut queue: EventQueue<FrontendMessage> = EventQueue::new();
    queue.bind();
    let text = "{\"type\":\"gr\u{00FC}\u{00DF}\"}";
    assert!(matches!(deliver_script_bytes(&mut queue, text.as_bytes()), Delivery::Queued));
    assert_eq!(queue.drain()[0].message_type, "gr\u{00FC}\u{00DF}");
}

#[test]
fn script_message_for_a_disconnected_queue_is_dropped() {
    let mut queue: EventQueue<FrontendMessage> = EventQueue::new();
    assert!(matches!(deliver_script_text(&mut queue, "{\"type\":\"a\"}"), Delivery::Unbound));
    queue.bind();
    queue.disconnect();
    assert!(matches!(deliver_script_text(&mut queue, "{\"type\":\"a\"}"), Delivery::Unbound));
    // a malformed message is reported as such whatever the binding
    assert!(matches!(deliver_script_text(&mut queue, "{"), Delivery::Malformed(_)));
    assert!(queue.is_empty());
}
