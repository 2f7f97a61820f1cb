//! The protocol adapters' decision logic.
//!
//! An ingress connection feeds inbound frames to the bus; an egress
//! connection drains the bus into an event stream. Both run as loops in
//! the embedding application — only it can wait on a socket — and each
//! loop iteration hands one event to a step function here, which makes
//! every decision: what to authenticate against, what to publish, what
//! to count, what to emit, when to stop.

use vstd::prelude::*;

use crate::auth::{
    HttpError,
    authorization_auth,
    authorization_credential,
    header_auth,
    subprotocol_auth,
    subprotocol_credential,
};
use crate::bus::{
    Bus,
    BusView,
    NextResult,
    Subscription,
    cursor_after,
    lag_skip_count,
    reads_lag,
    reads_message,
};
use crate::metrics::{ChannelMetrics, Metrics};
use crate::registry::ChannelConfig;

verus! {

/// How many bytes of filler an event stream sends before its first real
/// event, so that intermediaries flush the connection promptly.
pub const PREAMBLE_BYTES: usize = 2048;

/// One inbound frame, as the ingress loop sees it.
#[derive(Debug, PartialEq, Eq)]
pub enum InboundFrame {
    /// A textual frame: its payload is relayed.
    Text(String),
    /// A well-formed frame that carries no text: silently skipped.
    NonText,
    /// A malformed frame or a transport read error: silently skipped.
    ReadError,
}

/// What the egress loop must do after one step.
#[derive(Debug, PartialEq, Eq)]
pub enum EgressAction {
    /// Send this message to the client as one discrete event.
    Emit(String),
    /// A lag was recorded; send nothing for it.
    Skip,
    /// Nothing unread: wait for the next publish, then step again.
    Wait,
    /// End of stream: close the connection.
    Stop,
}

/// The ingress gate: publishers must present the subprotocol credential
/// on channels whose inbound policy demands it, and pass freely on the
/// others.
pub fn ingress_authenticate(config: &ChannelConfig, header: Option<&String>, token: &str) -> (outcome:
    Result<(), HttpError>)
    ensures
        outcome is Ok <==> (!config.inbound_requires_auth || (header matches Some(value)
            && value@ == subprotocol_credential(token@))),
        outcome is Err ==> outcome == Err::<(), HttpError>(HttpError::InvalidToken),
{
    if config.inbound_requires_auth {
        let expected = subprotocol_auth(token);
        header_auth(header, &expected)
    } else {
        Ok(())
    }
}

/// The egress gate: subscribers must present the authorization
/// credential on channels whose outbound policy demands it, and pass
/// freely on the others.
pub fn egress_authenticate(config: &ChannelConfig, header: Option<&String>, token: &str) -> (outcome:
    Result<(), HttpError>)
    ensures
        outcome is Ok <==> (!config.outbound_requires_auth || (header matches Some(value)
            && value@ == authorization_credential(token@))),
        outcome is Err ==> outcome == Err::<(), HttpError>(HttpError::InvalidToken),
{
    if config.outbound_requires_auth {
        let expected = authorization_auth(token);
        header_auth(header, &expected)
    } else {
        Ok(())
    }
}

/// One ingress iteration: a textual frame is counted and published to
/// the bus; every other frame is skipped and changes nothing. Transport
/// errors never reach the bus or anyone else's connection.
pub fn ingress_step(bus: &mut Bus, metrics: &mut Metrics, channel: usize, frame: InboundFrame)
    requires
        old(bus).wf(),
        old(bus)@.history.len() < u64::MAX,
        channel < old(metrics).channels@.len(),
        old(metrics).channels@[channel as int].received < u64::MAX,
    ensures
        final(bus).wf(),
        frame matches InboundFrame::Text(message) ==> final(bus)@ == (BusView {
            history: old(bus)@.history.push(message@),
            ..old(bus)@
        }) && final(metrics).channels@ =~= old(metrics).channels@.update(
            channel as int,
            (ChannelMetrics {
                received: (old(metrics).channels@[channel as int].received + 1) as u64,
                ..old(metrics).channels@[channel as int]
            }),
        ) && final(metrics).uptime_seconds == old(metrics).uptime_seconds,
        !(frame matches InboundFrame::Text(_)) ==> *final(bus) == *old(bus) && *final(metrics)
            == *old(metrics),
{
    match frame {
        InboundFrame::Text(message) => {
            metrics.record_received(channel);
            bus.publish(message);
        },
        InboundFrame::NonText => {},
        InboundFrame::ReadError => {},
    }
}

/// One egress iteration: reads the subscription once and decides. A
/// message is counted as sent and emitted; a lag report is counted —
/// once as an event, and once per message skipped — and nothing is
/// emitted for it; an empty open bus means wait; an empty closed bus
/// means stop. A slow subscriber only ever loses messages; it never
/// blocks the bus.
pub fn egress_step(
    bus: &Bus,
    subscription: &mut Subscription,
    metrics: &mut Metrics,
    channel: usize,
) -> (action: EgressAction)
    requires
        bus.wf(),
        old(subscription)@ <= bus@.history.len(),
        channel < old(metrics).channels@.len(),
        old(metrics).channels@[channel as int].sent < u64::MAX,
        old(metrics).channels@[channel as int].lag_events < u64::MAX,
        old(metrics).channels@[channel as int].lag_messages + bus@.history.len() <= u64::MAX,
    ensures
        final(subscription)@ == cursor_after(
            bus@.history.len() as int,
            bus@.capacity as int,
            old(subscription)@,
        ),
        reads_message(bus@.history.len() as int, bus@.capacity as int, old(subscription)@) ==> (
        action matches EgressAction::Emit(message) && message@ == bus@.history[old(subscription)@]
            && final(metrics).channels@ =~= old(metrics).channels@.update(
            channel as int,
            (ChannelMetrics {
                sent: (old(metrics).channels@[channel as int].sent + 1) as u64,
                ..old(metrics).channels@[channel as int]
            }),
        ) && final(metrics).uptime_seconds == old(metrics).uptime_seconds),
        reads_lag(bus@.history.len() as int, bus@.capacity as int, old(subscription)@) ==> action
            == EgressAction::Skip && final(metrics).channels@ =~= old(metrics).channels@.update(
            channel as int,
            (ChannelMetrics {
                lag_events: (old(metrics).channels@[channel as int].lag_events + 1) as u64,
                lag_messages: (old(metrics).channels@[channel as int].lag_messages + lag_skip_count(
                    bus@.history.len() as int,
                    bus@.capacity as int,
                    old(subscription)@,
                )) as u64,
                ..old(metrics).channels@[channel as int]
            }),
        ) && final(metrics).uptime_seconds == old(metrics).uptime_seconds,
        old(subscription)@ == bus@.history.len() ==> (action == if bus@.closed {
            EgressAction::Stop
        } else {
            EgressAction::Wait
        }) && *final(metrics) == *old(metrics),
{
    match bus.next(subscription) {
        NextResult::Message(message) => {
            metrics.record_sent(channel);
            EgressAction::Emit(message)
        },
        NextResult::Lagged(skipped) => {
            metrics.record_lag(channel, skipped);
            EgressAction::Skip
        },
        NextResult::Pending => EgressAction::Wait,
        NextResult::Closed => EgressAction::Stop,
    }
}

/// The filler block an event stream sends before its first real event:
/// `PREAMBLE_BYTES` spaces.
pub fn egress_preamble() -> (preamble: String)
    ensures
        preamble@.len() == PREAMBLE_BYTES,
        forall|i: int| 0 <= i < preamble@.len() ==> preamble@[i] == ' ',
{
    let mut preamble = String::new();
    let mut i: usize = 0;
    while i < PREAMBLE_BYTES
        invariant
            i <= PREAMBLE_BYTES,
            preamble@.len() == i,
            forall|j: int| 0 <= j < i ==> preamble@[j] == ' ',
        decreases PREAMBLE_BYTES - i,
    {
        proof {
            reveal_strlit(" ");
        }
        preamble.append(" ");
        i = i + 1;
    }
    preamble
}

} // verus!
