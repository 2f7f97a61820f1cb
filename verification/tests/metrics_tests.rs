use veter::metrics::{ConnectionActor, ConnectionGuard, init_metrics, update_uptime};

#[test]
fn init_metrics_zeroes_every_channel() {
    let metrics = init_metrics(2);
    assert_eq!(metrics.channels.len(), 2);
    assert_eq!(metrics.uptime_seconds, 0);
    for channel in metrics.channels.iter() {
        assert_eq!(channel.publishers.active, 0);
        assert_eq!(channel.publishers.connected, 0);
        assert_eq!(channel.publishers.disconnected, 0);
        assert_eq!(channel.subscribers.active, 0);
        assert_eq!(channel.subscribers.connected, 0);
        assert_eq!(channel.subscribers.disconnected, 0);
        assert_eq!(channel.received, 0);
        assert_eq!(channel.sent, 0);
        assert_eq!(channel.lag_events, 0);
        assert_eq!(channel.lag_messages, 0);
    }
}

#[test]
fn active_gauge_tracks_open_connections() {
    // The gauge for a (channel, role) pair equals the number of open
    // connections of that role at every observation point.
    let mut metrics = init_metrics(2);

    let first = ConnectionGuard::new(&mut metrics, 0, ConnectionActor::Subscriber);
    assert_eq!(metrics.channels[0].subscribers.active, 1);
    assert_eq!(metrics.channels[0].subscribers.connected, 1);
    assert_eq!(metrics.channels[0].subscribers.disconnected, 0);

    let second = ConnectionGuard::new(&mut metrics, 0, ConnectionActor::Subscriber);
    assert_eq!(metrics.channels[0].subscribers.active, 2);

    // An abrupt disconnect releases the guard like any other end.
    second.release(&mut metrics);
    assert_eq!(metrics.channels[0].subscribers.active, 1);
    assert_eq!(metrics.channels[0].subscribers.connected, 2);
    assert_eq!(metrics.channels[0].subscribers.disconnected, 1);

    first.release(&mut metrics);
    assert_eq!(metrics.channels[0].subscribers.active, 0);
    assert_eq!(metrics.channels[0].subscribers.connected, 2);
    assert_eq!(metrics.channels[0].subscribers.disconnected, 2);
}

#[test]
fn roles_and_channels_are_tracked_independently() {
    let mut metrics = init_metrics(2);
    let publisher = ConnectionGuard::new(&mut metrics, 0, ConnectionActor::Publisher);
    let subscriber = ConnectionGuard::new(&mut metrics, 1, ConnectionActor::Subscriber);
    assert_eq!(metrics.channels[0].publishers.active, 1);
    assert_eq!(metrics.channels[0].subscribers.active, 0);
    assert_eq!(metrics.channels[1].publishers.active, 0);
    assert_eq!(metrics.channels[1].subscribers.active, 1);
    publisher.release(&mut metrics);
    assert_eq!(metrics.channels[0].publishers.active, 0);
    assert_eq!(metrics.channels[1].subscribers.active, 1);
    subscriber.release(&mut metrics);
    assert_eq!(metrics.channels[1].subscribers.active, 0);
}

#[test]
fn throughput_counters_accumulate() {
    let mut metrics = init_metrics(1);
    metrics.record_received(0);
    metrics.record_received(0);
    metrics.record_sent(0);
    metrics.record_lag(0, 5);
    metrics.record_lag(0, 2);
    assert_eq!(metrics.channels[0].received, 2);
    assert_eq!(metrics.channels[0].sent, 1);
    assert_eq!(metrics.channels[0].lag_events, 2);
    assert_eq!(metrics.channels[0].lag_messages, 7);
}

#[test]
fn invariant_check_sees_through_corruption() {
    let mut metrics = init_metrics(2);
    assert!(metrics.is_wf());
    let guard = ConnectionGuard::new(&mut metrics, 1, ConnectionActor::Publisher);
    assert!(metrics.is_wf());
    guard.release(&mut metrics);
    assert!(metrics.is_wf());
    // Counters that no guard produced break the invariant.
    metrics.channels[1].publishers.active = 3;
    assert!(!metrics.is_wf());
}

#[test]
fn uptime_is_overwritten_not_accumulated() {
    let mut metrics = init_metrics(1);
    update_uptime(&mut metrics, 10);
    assert_eq!(metrics.uptime_seconds, 10);
    update_uptime(&mut metrics, 11);
    assert_eq!(metrics.uptime_seconds, 11);
    assert_eq!(metrics.channels[0].received, 0);
}
