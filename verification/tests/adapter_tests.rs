use veter::adapters::{
    EgressAction, InboundFrame, egress_authenticate, egress_preamble, egress_step,
    ingress_authenticate, ingress_step,
};
use veter::auth::{HttpError, rejection_handler};
use veter::bus::Bus;
use veter::metrics::init_metrics;
use veter::registry::standard_registry;

#[test]
fn text_frames_are_counted_and_published() {
    let mut bus = Bus::new(10);
    let mut metrics = init_metrics(1);
    let mut sub = bus.subscribe();
    ingress_step(&mut bus, &mut metrics, 0, InboundFrame::Text("a".to_string()));
    assert_eq!(metrics.channels[0].received, 1);
    assert_eq!(bus.message_count(), 1);
    assert_eq!(
        egress_step(&bus, &mut sub, &mut metrics, 0),
        EgressAction::Emit("a".to_string())
    );
}

#[test]
fn non_text_and_errored_frames_are_silently_skipped() {
    let mut bus = Bus::new(10);
    let mut metrics = init_metrics(1);
    ingress_step(&mut bus, &mut metrics, 0, InboundFrame::NonText);
    ingress_step(&mut bus, &mut metrics, 0, InboundFrame::ReadError);
    assert_eq!(metrics.channels[0].received, 0);
    assert_eq!(bus.message_count(), 0);
}

#[test]
fn egress_counts_sent_messages() {
    let mut bus = Bus::new(10);
    let mut metrics = init_metrics(1);
    let mut sub = bus.subscribe();
    bus.publish("a".to_string());
    bus.publish("b".to_string());
    assert_eq!(
        egress_step(&bus, &mut sub, &mut metrics, 0),
        EgressAction::Emit("a".to_string())
    );
    assert_eq!(
        egress_step(&bus, &mut sub, &mut metrics, 0),
        EgressAction::Emit("b".to_string())
    );
    assert_eq!(metrics.channels[0].sent, 2);
    assert_eq!(metrics.channels[0].lag_events, 0);
}

#[test]
fn egress_counts_lag_and_emits_nothing_for_it() {
    let mut bus = Bus::new(2);
    let mut metrics = init_metrics(1);
    let mut sub = bus.subscribe();
    for message in ["a", "b", "c", "d"] {
        bus.publish(message.to_string());
    }
    assert_eq!(egress_step(&bus, &mut sub, &mut metrics, 0), EgressAction::Skip);
    assert_eq!(metrics.channels[0].lag_events, 1);
    assert_eq!(metrics.channels[0].lag_messages, 2);
    assert_eq!(
        egress_step(&bus, &mut sub, &mut metrics, 0),
        EgressAction::Emit("c".to_string())
    );
    assert_eq!(
        egress_step(&bus, &mut sub, &mut metrics, 0),
        EgressAction::Emit("d".to_string())
    );
    assert_eq!(metrics.channels[0].sent, 2);
}

#[test]
fn egress_waits_when_open_and_stops_when_closed() {
    let mut bus = Bus::new(4);
    let mut metrics = init_metrics(1);
    let mut sub = bus.subscribe();
    assert_eq!(egress_step(&bus, &mut sub, &mut metrics, 0), EgressAction::Wait);
    bus.close();
    assert_eq!(egress_step(&bus, &mut sub, &mut metrics, 0), EgressAction::Stop);
    assert_eq!(metrics.channels[0].sent, 0);
}

#[test]
fn preamble_is_a_fixed_block_of_filler() {
    let preamble = egress_preamble();
    assert_eq!(preamble.len(), 2048);
    assert!(preamble.chars().all(|c| c == ' '));
}

#[test]
fn stream_auth_follows_the_channel_policy() {
    // GET /interaction/stream with `Authorization: Token wrong` is
    // rejected as 401 "Invalid token provided"; with
    // `Authorization: Token secret` the stream begins.
    let registry = standard_registry();
    let interaction = registry.find_channel(&"interaction".to_string()).unwrap();
    let config = &registry.configs[interaction];

    let wrong = "Token wrong".to_string();
    let outcome = egress_authenticate(config, Some(&wrong), "secret");
    assert_eq!(outcome, Err(HttpError::InvalidToken));
    let (status, body) = rejection_handler(outcome.unwrap_err());
    assert_eq!(status, 401);
    assert_eq!(body, "Invalid token provided".to_string());

    let right = "Token secret".to_string();
    assert_eq!(egress_authenticate(config, Some(&right), "secret"), Ok(()));

    // The state channel's stream needs no credential at all.
    let state = registry.find_channel(&"state".to_string()).unwrap();
    assert_eq!(egress_authenticate(&registry.configs[state], None, "secret"), Ok(()));
}

#[test]
fn push_auth_follows_the_channel_policy() {
    let registry = standard_registry();
    let state = registry.find_channel(&"state".to_string()).unwrap();
    let config = &registry.configs[state];

    assert_eq!(
        ingress_authenticate(config, None, "secret"),
        Err(HttpError::InvalidToken)
    );
    let wrong = "auth-guess".to_string();
    assert_eq!(
        ingress_authenticate(config, Some(&wrong), "secret"),
        Err(HttpError::InvalidToken)
    );
    let right = "auth-secret".to_string();
    assert_eq!(ingress_authenticate(config, Some(&right), "secret"), Ok(()));

    // The interaction channel's push side is open.
    let interaction = registry.find_channel(&"interaction".to_string()).unwrap();
    assert_eq!(
        ingress_authenticate(&registry.configs[interaction], None, "secret"),
        Ok(())
    );
}
