//! Delivery-order laws of the bus.
//!
//! A subscriber's life is an interleaving of publishes on the bus and
//! reads by the subscriber. The functions here run such a trace over the
//! same spec functions that [`crate::bus::Bus::next`] is specified with:
//! `cursor_after` moves the cursor, `reads_message` and `reads_lag` say
//! what a read returns. The lemmas then state the ordering guarantees:
//! a subscriber that never lags sees exactly the messages published
//! after it subscribed, in publish order; no subscriber ever sees a
//! message from before its subscription; and no message is delivered
//! twice or out of order, even across lag.

use vstd::prelude::*;

use crate::bus::{cursor_after, lag_skip_count, reads_lag, reads_message};

verus! {

/// One event in the life of a subscriber: a publish on the bus (by
/// anyone), or a read by this subscriber.
pub enum BusStep {
    /// A message is published on the bus.
    Publish(Seq<char>),
    /// This subscriber performs one read.
    Read,
}

/// The messages published during a trace, in order.
pub open spec fn published(steps: Seq<BusStep>) -> Seq<Seq<char>>
    decreases steps.len(),
{
    if steps.len() == 0 {
        Seq::empty()
    } else {
        match steps.first() {
            BusStep::Publish(m) => seq![m] + published(steps.drop_first()),
            BusStep::Read => published(steps.drop_first()),
        }
    }
}

/// The bus history after a trace, starting from history `h`.
pub open spec fn history_after(h: Seq<Seq<char>>, steps: Seq<BusStep>) -> Seq<Seq<char>>
    decreases steps.len(),
{
    if steps.len() == 0 {
        h
    } else {
        match steps.first() {
            BusStep::Publish(m) => history_after(h.push(m), steps.drop_first()),
            BusStep::Read => history_after(h, steps.drop_first()),
        }
    }
}

/// The subscriber's cursor after a trace, starting from history `h` and
/// cursor `c` on a bus of capacity `cap`.
pub open spec fn cursor_end(h: Seq<Seq<char>>, cap: int, c: int, steps: Seq<BusStep>) -> int
    decreases steps.len(),
{
    if steps.len() == 0 {
        c
    } else {
        match steps.first() {
            BusStep::Publish(m) => cursor_end(h.push(m), cap, c, steps.drop_first()),
            BusStep::Read => cursor_end(
                h,
                cap,
                cursor_after(h.len() as int, cap, c),
                steps.drop_first(),
            ),
        }
    }
}

/// The history positions at which the subscriber's reads returned a
/// message, in the order the reads happened.
pub open spec fn observed_positions(h: Seq<Seq<char>>, cap: int, c: int, steps: Seq<BusStep>) -> Seq<
    int,
>
    decreases steps.len(),
{
    if steps.len() == 0 {
        Seq::empty()
    } else {
        match steps.first() {
            BusStep::Publish(m) => observed_positions(h.push(m), cap, c, steps.drop_first()),
            BusStep::Read => if reads_message(h.len() as int, cap, c) {
                seq![c] + observed_positions(h, cap, c + 1, steps.drop_first())
            } else {
                observed_positions(
                    h,
                    cap,
                    cursor_after(h.len() as int, cap, c),
                    steps.drop_first(),
                )
            },
        }
    }
}

/// The messages the subscriber's reads returned, in the order the reads
/// happened.
pub open spec fn observed_messages(h: Seq<Seq<char>>, cap: int, c: int, steps: Seq<BusStep>) -> Seq<
    Seq<char>,
>
    decreases steps.len(),
{
    if steps.len() == 0 {
        Seq::empty()
    } else {
        match steps.first() {
            BusStep::Publish(m) => observed_messages(h.push(m), cap, c, steps.drop_first()),
            BusStep::Read => if reads_message(h.len() as int, cap, c) {
                seq![h[c]] + observed_messages(h, cap, c + 1, steps.drop_first())
            } else {
                observed_messages(
                    h,
                    cap,
                    cursor_after(h.len() as int, cap, c),
                    steps.drop_first(),
                )
            },
        }
    }
}

/// No read in the trace reports lag.
pub open spec fn never_lags(h: Seq<Seq<char>>, cap: int, c: int, steps: Seq<BusStep>) -> bool
    decreases steps.len(),
{
    if steps.len() == 0 {
        true
    } else {
        match steps.first() {
            BusStep::Publish(m) => never_lags(h.push(m), cap, c, steps.drop_first()),
            BusStep::Read => !reads_lag(h.len() as int, cap, c) && never_lags(
                h,
                cap,
                cursor_after(h.len() as int, cap, c),
                steps.drop_first(),
            ),
        }
    }
}

/// The total of the skip counts that the subscriber's lag reports
/// carried during a trace.
pub open spec fn skipped_total(h: Seq<Seq<char>>, cap: int, c: int, steps: Seq<BusStep>) -> int
    decreases steps.len(),
{
    if steps.len() == 0 {
        0
    } else {
        match steps.first() {
            BusStep::Publish(m) => skipped_total(h.push(m), cap, c, steps.drop_first()),
            BusStep::Read => if reads_lag(h.len() as int, cap, c) {
                lag_skip_count(h.len() as int, cap, c) + skipped_total(
                    h,
                    cap,
                    cursor_after(h.len() as int, cap, c),
                    steps.drop_first(),
                )
            } else {
                skipped_total(
                    h,
                    cap,
                    cursor_after(h.len() as int, cap, c),
                    steps.drop_first(),
                )
            },
        }
    }
}

/// Nothing is lost without being counted: over any trace, the messages
/// the subscriber observed plus the skip counts its lag reports carried
/// account for exactly the stretch of history its cursor moved over.
pub proof fn lemma_skip_counts_account_for_every_message(
    h: Seq<Seq<char>>,
    cap: int,
    c: int,
    steps: Seq<BusStep>,
)
    requires
        cap >= 1,
        0 <= c <= h.len(),
    ensures
        observed_positions(h, cap, c, steps).len() + skipped_total(h, cap, c, steps) == cursor_end(
            h,
            cap,
            c,
            steps,
        ) - c,
    decreases steps.len(),
{
    if steps.len() == 0 {
    } else {
        let rest = steps.drop_first();
        match steps.first() {
            BusStep::Publish(m) => {
                lemma_skip_counts_account_for_every_message(h.push(m), cap, c, rest);
            },
            BusStep::Read => {
                let c2 = cursor_after(h.len() as int, cap, c);
                lemma_skip_counts_account_for_every_message(h, cap, c2, rest);
            },
        }
    }
}

/// Publishing only appends: the history after a trace is the starting
/// history followed by exactly the messages published during the trace.
pub proof fn lemma_history_after(h: Seq<Seq<char>>, steps: Seq<BusStep>)
    ensures
        history_after(h, steps) =~= h + published(steps),
    decreases steps.len(),
{
    if steps.len() == 0 {
        assert(history_after(h, steps) =~= h + published(steps));
    } else {
        match steps.first() {
            BusStep::Publish(m) => {
                lemma_history_after(h.push(m), steps.drop_first());
                assert(h.push(m) + published(steps.drop_first()) =~= h + (seq![m] + published(
                    steps.drop_first(),
                )));
            },
            BusStep::Read => {
                lemma_history_after(h, steps.drop_first());
            },
        }
    }
}

/// The cursor never moves backwards over a trace, and never runs past
/// the end of the history.
pub proof fn lemma_cursor_end_bounds(h: Seq<Seq<char>>, cap: int, c: int, steps: Seq<BusStep>)
    requires
        cap >= 1,
        0 <= c <= h.len(),
    ensures
        c <= cursor_end(h, cap, c, steps) <= history_after(h, steps).len(),
    decreases steps.len(),
{
    if steps.len() == 0 {
    } else {
        match steps.first() {
            BusStep::Publish(m) => {
                lemma_cursor_end_bounds(h.push(m), cap, c, steps.drop_first());
            },
            BusStep::Read => {
                lemma_cursor_end_bounds(
                    h,
                    cap,
                    cursor_after(h.len() as int, cap, c),
                    steps.drop_first(),
                );
            },
        }
    }
}

/// Every message a subscriber observes was published after it
/// subscribed, none is observed twice, and none out of publish order:
/// the observed positions all lie at or after the starting cursor,
/// within the final history, strictly increasing, and each observed
/// message is the history entry at its position.
pub proof fn lemma_observations_fresh_ordered(
    h: Seq<Seq<char>>,
    cap: int,
    c: int,
    steps: Seq<BusStep>,
)
    requires
        cap >= 1,
        0 <= c <= h.len(),
    ensures
        observed_positions(h, cap, c, steps).len() == observed_messages(h, cap, c, steps).len(),
        forall|k: int|
            0 <= k < observed_positions(h, cap, c, steps).len() ==> c <= #[trigger] observed_positions(
                h,
                cap,
                c,
                steps,
            )[k] < history_after(h, steps).len(),
        forall|k1: int, k2: int|
            0 <= k1 < k2 < observed_positions(h, cap, c, steps).len() ==> #[trigger] observed_positions(
                h,
                cap,
                c,
                steps,
            )[k1] < #[trigger] observed_positions(h, cap, c, steps)[k2],
        forall|k: int|
            0 <= k < observed_positions(h, cap, c, steps).len() ==> #[trigger] observed_messages(
                h,
                cap,
                c,
                steps,
            )[k] == history_after(h, steps)[observed_positions(h, cap, c, steps)[k]],
    decreases steps.len(),
{
    if steps.len() == 0 {
    } else {
        let rest = steps.drop_first();
        match steps.first() {
            BusStep::Publish(m) => {
                lemma_observations_fresh_ordered(h.push(m), cap, c, rest);
            },
            BusStep::Read => {
                let hlen = h.len() as int;
                if reads_message(hlen, cap, c) {
                    lemma_observations_fresh_ordered(h, cap, c + 1, rest);
                    lemma_history_after(h, rest);
                    assert(history_after(h, steps)[c] == h[c]);
                    assert forall|k: int|
                        0 <= k < observed_positions(h, cap, c, steps).len() implies c
                        <= #[trigger] observed_positions(h, cap, c, steps)[k] < history_after(
                        h,
                        steps,
                    ).len() by {
                        if k > 0 {
                            assert(observed_positions(h, cap, c, steps)[k] == observed_positions(
                                h,
                                cap,
                                c + 1,
                                rest,
                            )[k - 1]);
                        }
                    }
                    assert forall|k: int|
                        0 <= k < observed_positions(h, cap, c, steps).len() implies #[trigger] observed_messages(
                        h,
                        cap,
                        c,
                        steps,
                    )[k] == history_after(h, steps)[observed_positions(h, cap, c, steps)[k]] by {
                        if k > 0 {
                            assert(observed_messages(h, cap, c, steps)[k] == observed_messages(
                                h,
                                cap,
                                c + 1,
                                rest,
                            )[k - 1]);
                            assert(observed_positions(h, cap, c, steps)[k] == observed_positions(
                                h,
                                cap,
                                c + 1,
                                rest,
                            )[k - 1]);
                        }
                    }
                } else {
                    let c2 = cursor_after(hlen, cap, c);
                    lemma_observations_fresh_ordered(h, cap, c2, rest);
                }
            },
        }
    }
}

/// A subscriber that never lags observes, in order, exactly the slice of
/// the final history from its starting cursor to its final cursor.
pub proof fn lemma_never_lags_in_order(h: Seq<Seq<char>>, cap: int, c: int, steps: Seq<BusStep>)
    requires
        cap >= 1,
        0 <= c <= h.len(),
        never_lags(h, cap, c, steps),
    ensures
        observed_messages(h, cap, c, steps) =~= history_after(h, steps).subrange(
            c,
            cursor_end(h, cap, c, steps),
        ),
    decreases steps.len(),
{
    if steps.len() == 0 {
    } else {
        let rest = steps.drop_first();
        match steps.first() {
            BusStep::Publish(m) => {
                lemma_never_lags_in_order(h.push(m), cap, c, rest);
            },
            BusStep::Read => {
                let hlen = h.len() as int;
                if reads_message(hlen, cap, c) {
                    lemma_never_lags_in_order(h, cap, c + 1, rest);
                    lemma_cursor_end_bounds(h, cap, c + 1, rest);
                    lemma_history_after(h, rest);
                    let fin = history_after(h, steps);
                    let end = cursor_end(h, cap, c, steps);
                    assert(end == cursor_end(h, cap, c + 1, rest));
                    assert(fin[c] == h[c]);
                    assert(observed_messages(h, cap, c, steps) =~= seq![h[c]] + fin.subrange(
                        c + 1,
                        end,
                    ));
                    assert(fin.subrange(c, end) =~= seq![fin[c]] + fin.subrange(c + 1, end));
                } else {
                    assert(cursor_after(hlen, cap, c) == c);
                    lemma_never_lags_in_order(h, cap, c, rest);
                }
            },
        }
    }
}

/// A subscriber that subscribes before the first publish of a trace,
/// never lags, and has caught up with the bus by the end of the trace
/// has observed exactly the messages published during the trace, in
/// publish order.
pub proof fn lemma_subscribe_before_sees_all(h: Seq<Seq<char>>, cap: int, steps: Seq<BusStep>)
    requires
        cap >= 1,
        never_lags(h, cap, h.len() as int, steps),
        cursor_end(h, cap, h.len() as int, steps) == history_after(h, steps).len(),
    ensures
        observed_messages(h, cap, h.len() as int, steps) =~= published(steps),
{
    let c = h.len() as int;
    lemma_never_lags_in_order(h, cap, c, steps);
    lemma_history_after(h, steps);
    assert(history_after(h, steps).subrange(c, history_after(h, steps).len() as int)
        =~= published(steps));
}

/// A subscriber that subscribes after a trace's publishes observes none
/// of them: every position it can ever observe lies at or after its
/// starting cursor, which is the history length at subscribe time. This
/// is the first ensures clause of `lemma_observations_fresh_ordered`,
/// restated for the subscribe point.
pub proof fn lemma_subscribe_after_sees_none(h: Seq<Seq<char>>, cap: int, steps: Seq<BusStep>)
    requires
        cap >= 1,
    ensures
        forall|k: int|
            0 <= k < observed_positions(h, cap, h.len() as int, steps).len()
                ==> h.len() <= #[trigger] observed_positions(h, cap, h.len() as int, steps)[k],
{
    lemma_observations_fresh_ordered(h, cap, h.len() as int, steps);
}

/// A read that reports lag skips exactly the messages between the cursor
/// and the oldest message still buffered, repositions the cursor to that
/// oldest message, and an immediate further read returns it: delivery
/// resumes with no duplicate and no gap beyond the reported one.
pub proof fn lemma_lag_resumes_at_oldest(hlen: int, cap: int, c: int)
    requires
        cap >= 1,
        0 <= c <= hlen,
        reads_lag(hlen, cap, c),
    ensures
        lag_skip_count(hlen, cap, c) == (hlen - cap) - c,
        cursor_after(hlen, cap, c) == hlen - cap,
        reads_message(hlen, cap, hlen - cap),
        cursor_after(hlen, cap, hlen - cap) == hlen - cap + 1,
{
}

} // verus!
