//! The headless listener: which delivery logs of each poll are forwarded,
//! and what it prints.

use vstd::prelude::*;
use vstd::string::StringExecFns;
use crate::api::models::{DeliveryLogSummaryDto, WebhookDeliveryLogStatus};
use crate::text::{id_prefix, short_id, str_equal, text_or};

verus! {

/// Ids of the delivery logs seen so far, each recorded once (see
/// [`ListenTracker::wf`]).
#[derive(Debug)]
pub struct ListenTracker {
    pub seen: Vec<String>,
}

/// Positions in `logs` of the successful deliveries whose ids are not in
/// `seen`, in order.
pub open spec fn fresh_successes(logs: Seq<DeliveryLogSummaryDto>, seen: Seq<Seq<char>>) -> Seq<int>
    decreases logs.len(),
{
    if logs.len() == 0 {
        Seq::empty()
    } else {
        let rest = fresh_successes(logs.drop_last(), seen);
        let l = logs.last();
        if l.status == WebhookDeliveryLogStatus::Success && !seen.contains(l.id@) {
            rest.push(logs.len() - 1)
        } else {
            rest
        }
    }
}

/// The ids of `logs`, in order.
pub open spec fn summary_ids(logs: Seq<DeliveryLogSummaryDto>) -> Seq<Seq<char>> {
    logs.map_values(|l: DeliveryLogSummaryDto| l.id@)
}

impl ListenTracker {
    /// No id is recorded twice.
    pub open spec fn wf(self) -> bool {
        self.seen.deep_view().no_duplicates()
    }

    /// A tracker that has seen nothing.
    pub fn new() -> (t: Self)
        ensures
            t.seen@.len() == 0,
            t.wf(),
    {
        ListenTracker { seen: Vec::new() }
    }

    /// Whether `id` was seen.
    pub fn has_seen(&self, id: &str) -> (r: bool)
        ensures
            r == self.seen.deep_view().contains(id@),
    {
        let mut i: usize = 0;
        while i < self.seen.len()
            invariant
                i <= self.seen@.len(),
                forall|j: int| 0 <= j < i ==> #[trigger] self.seen@[j]@ != id@,
            decreases self.seen@.len() - i,
        {
            if str_equal(self.seen[i].as_str(), id) {
                assert(self.seen.deep_view()[i as int] == id@);
                return true;
            }
            i = i + 1;
        }
        assert forall|j: int| 0 <= j < self.seen.deep_view().len() implies self.seen.deep_view()[j]
            != id@ by {
            assert(self.seen.deep_view()[j] == self.seen@[j]@);
        }
        false
    }

    /// Records every id of `logs` as seen.
    pub fn mark_all(&mut self, logs: &Vec<DeliveryLogSummaryDto>)
        ensures
            forall|x: Seq<char>|
                #[trigger] final(self).seen.deep_view().contains(x) <==> (old(self).seen.deep_view().contains(x)
                    || summary_ids(logs@).contains(x)),
            old(self).wf() ==> final(self).wf(),
    {
        let ghost s0 = self.seen.deep_view();
        let mut i: usize = 0;
        while i < logs.len()
            invariant
                i <= logs@.len(),
                forall|x: Seq<char>|
                    #[trigger] self.seen.deep_view().contains(x) <==> (s0.contains(x) || summary_ids(
                        logs@.take(i as int),
                    ).contains(x)),
                s0.no_duplicates() ==> self.seen.deep_view().no_duplicates(),
            decreases logs@.len() - i,
        {
            let ghost prev_ids = summary_ids(logs@.take(i as int));
            let ghost before = self.seen.deep_view();
            let id = logs[i].id.clone();
            assert(summary_ids(logs@.take(i + 1)) =~= prev_ids.push(id@));
            if !self.has_seen(id.as_str()) {
                self.seen.push(id);
                assert(self.seen.deep_view() =~= before.push(logs@[i as int].id@));
                proof {
                    let after = self.seen.deep_view();
                    if before.no_duplicates() {
                        assert forall|a: int, b: int| 0 <= a < after.len() && 0 <= b < after.len() && a != b implies after[a]
                            != after[b] by {
                            if a < before.len() && b < before.len() {
                                assert(after[a] == before[a] && after[b] == before[b]);
                            } else if a < before.len() {
                                assert(after[a] == before[a]);
                                assert(before.contains(before[a]));
                            } else {
                                assert(after[b] == before[b]);
                                assert(before.contains(before[b]));
                            }
                        }
                    }
                }
            }
            proof {
                let now = self.seen.deep_view();
                let p2 = prev_ids.push(logs@[i as int].id@);
                assert forall|x: Seq<char>| #[trigger] now.contains(x) <==> (s0.contains(x) || p2.contains(x)) by {
                    if now.contains(x) {
                        let w = choose|w: int| 0 <= w < now.len() && now[w] == x;
                        if w < before.len() {
                            assert(before[w] == x);
                            assert(before.contains(x));
                        } else {
                            assert(p2[prev_ids.len() as int] == x);
                        }
                    }
                    if before.contains(x) {
                        let w = choose|w: int| 0 <= w < before.len() && before[w] == x;
                        assert(now[w] == x);
                    }
                    if p2.contains(x) {
                        let w = choose|w: int| 0 <= w < p2.len() && p2[w] == x;
                        if w < prev_ids.len() {
                            assert(prev_ids[w] == x);
                            assert(prev_ids.contains(x));
                        } else {
                            assert(before.contains(x) || now[now.len() - 1] == x);
                        }
                    }
                    if prev_ids.contains(x) {
                        let w = choose|w: int| 0 <= w < prev_ids.len() && prev_ids[w] == x;
                        assert(p2[w] == x);
                    }
                    if s0.contains(x) || prev_ids.contains(x) {
                        assert(before.contains(x));
                    }
                }
            }
            i = i + 1;
        }
        assert(logs@.take(logs@.len() as int) =~= logs@);
    }

    /// Takes in a poll: returns the positions of the successful deliveries
    /// not seen before (to be forwarded, in poll order), then remembers
    /// every id of the poll.
    pub fn poll(&mut self, logs: &Vec<DeliveryLogSummaryDto>) -> (r: Vec<usize>)
        ensures
            r@.map_values(|p: usize| p as int) == fresh_successes(logs@, old(self).seen.deep_view()),
            forall|j: int|
                0 <= j < r@.len() ==> #[trigger] r@[j] < logs@.len() && logs@[r@[j] as int].status
                    == WebhookDeliveryLogStatus::Success && !old(self).seen.deep_view().contains(
                    logs@[r@[j] as int].id@,
                ),
            forall|x: Seq<char>|
                #[trigger] final(self).seen.deep_view().contains(x) <==> (old(self).seen.deep_view().contains(x)
                    || summary_ids(logs@).contains(x)),
            old(self).wf() ==> final(self).wf(),
    {
        let mut out: Vec<usize> = Vec::new();
        let ghost s0 = self.seen.deep_view();
        let mut i: usize = 0;
        while i < logs.len()
            invariant
                i <= logs@.len(),
                s0 == self.seen.deep_view(),
                out@.map_values(|p: usize| p as int) == fresh_successes(logs@.take(i as int), s0),
            decreases logs@.len() - i,
        {
            let ghost prev = out@;
            assert(logs@.take(i + 1).drop_last() =~= logs@.take(i as int));
            if logs[i].status == WebhookDeliveryLogStatus::Success && !self.has_seen(logs[i].id.as_str()) {
                out.push(i);
                assert(out@.map_values(|p: usize| p as int) =~= prev.map_values(|p: usize| p as int).push(
                    i as int,
                ));
            }
            i = i + 1;
        }
        assert(logs@.take(logs@.len() as int) =~= logs@);
        proof {
            lemma_poll_forwards_only_new_successes(logs@, s0);
            assert forall|j: int| 0 <= j < out@.len() implies #[trigger] out@[j] < logs@.len() && logs@[out@[j] as int].status
                == WebhookDeliveryLogStatus::Success && !s0.contains(logs@[out@[j] as int].id@) by {
                assert(out@.map_values(|p: usize| p as int)[j] == out@[j] as int);
            }
        }
        self.mark_all(logs);
        out
    }
}

/// The first line the listener prints.
pub fn banner(profile: &str, forward_to: &str) -> (r: String)
    ensures
        r@ == "flute-webhook listen — profile=["@ + profile@ + "] forwarding to "@ + forward_to@,
{
    let mut s = String::from_str("flute-webhook listen — profile=[");
    s.append(profile);
    s.append("] forwarding to ");
    s.append(forward_to);
    s
}

/// The line printed after forwarding delivery `id` of `event_type`.
pub fn forwarded_line(id: &str, event_type: &Option<String>) -> (r: String)
    ensures
        r@ == "forwarded "@ + id_prefix(id@) + "… ("@ + text_or(*event_type, Seq::empty()) + ")"@,
{
    let mut s = String::from_str("forwarded ");
    let p = short_id(id);
    s.append(p.as_str());
    s.append("… (");
    match event_type {
        Some(e) => {
            s.append(e.as_str());
        },
        None => {},
    }
    s.append(")");
    s
}

/// The line printed when forwarding delivery `id` failed with `reason`.
pub fn forward_failed_line(id: &str, reason: &str) -> (r: String)
    ensures
        r@ == "forward "@ + id_prefix(id@) + "… failed: "@ + reason@,
{
    let mut s = String::from_str("forward ");
    let p = short_id(id);
    s.append(p.as_str());
    s.append("… failed: ");
    s.append(reason);
    s
}


/// When every log of a poll was seen before, the poll forwards nothing.
pub proof fn lemma_seen_polls_forward_nothing(logs: Seq<DeliveryLogSummaryDto>, seen: Seq<Seq<char>>)
    requires
        forall|x: Seq<char>| #[trigger] summary_ids(logs).contains(x) ==> seen.contains(x),
    ensures
        fresh_successes(logs, seen).len() == 0,
    decreases logs.len(),
{
    if logs.len() > 0 {
        let init = logs.drop_last();
        assert forall|x: Seq<char>| #[trigger] summary_ids(init).contains(x) implies seen.contains(x) by {
            let w = choose|w: int| 0 <= w < summary_ids(init).len() && summary_ids(init)[w] == x;
            assert(init[w] == logs[w]);
            assert(summary_ids(init)[w] == init[w].id@);
            assert(summary_ids(logs)[w] == logs[w].id@);
            assert(summary_ids(logs).contains(x));
        }
        lemma_seen_polls_forward_nothing(init, seen);
        assert(summary_ids(logs)[logs.len() - 1] == logs.last().id@);
        assert(summary_ids(logs).contains(logs.last().id@));
    }
}

/// Polling the same logs a second time forwards nothing: each delivery is
/// forwarded at most once.
pub proof fn lemma_repeated_listen_poll_forwards_nothing(
    logs: Seq<DeliveryLogSummaryDto>,
    seen_before: Seq<Seq<char>>,
    seen_after: Seq<Seq<char>>,
)
    requires
        forall|x: Seq<char>|
            #[trigger] seen_after.contains(x) <==> (seen_before.contains(x) || summary_ids(logs).contains(x)),
    ensures
        fresh_successes(logs, seen_after).len() == 0,
{
    assert forall|x: Seq<char>| #[trigger] summary_ids(logs).contains(x) implies seen_after.contains(x) by {}
    lemma_seen_polls_forward_nothing(logs, seen_after);
}


/// A poll forwards exactly the successful deliveries it has not seen
/// before, each once, in poll order: every position it returns is that of a
/// log whose status is `Success` and whose id was not seen, every such log
/// is returned, and positions only increase.
pub proof fn lemma_poll_forwards_only_new_successes(logs: Seq<DeliveryLogSummaryDto>, seen: Seq<Seq<char>>)
    ensures
        forall|j: int|
            #![trigger fresh_successes(logs, seen)[j]]
            0 <= j < fresh_successes(logs, seen).len() ==> {
                let p = fresh_successes(logs, seen)[j];
                &&& 0 <= p < logs.len()
                &&& logs[p].status == WebhookDeliveryLogStatus::Success
                &&& !seen.contains(logs[p].id@)
            },
        forall|i: int|
            0 <= i < logs.len() && #[trigger] logs[i].status == WebhookDeliveryLogStatus::Success
                && !seen.contains(logs[i].id@) ==> fresh_successes(logs, seen).contains(i),
        forall|j: int, k: int|
            0 <= j < k < fresh_successes(logs, seen).len() ==> #[trigger] fresh_successes(logs, seen)[j]
                < #[trigger] fresh_successes(logs, seen)[k],
    decreases logs.len(),
{
    if logs.len() > 0 {
        let init = logs.drop_last();
        lemma_poll_forwards_only_new_successes(init, seen);
        let rest = fresh_successes(init, seen);
        let f = fresh_successes(logs, seen);
        assert forall|j: int| 0 <= j < rest.len() implies #[trigger] rest[j] < logs.len() - 1 by {}
        assert forall|j: int| #![trigger f[j]] 0 <= j < f.len() implies {
            let p = f[j];
            &&& 0 <= p < logs.len()
            &&& logs[p].status == WebhookDeliveryLogStatus::Success
            &&& !seen.contains(logs[p].id@)
        } by {
            if j < rest.len() {
                assert(f[j] == rest[j]);
                assert(logs[rest[j]] == init[rest[j]]);
            }
        }
        assert forall|i: int|
            0 <= i < logs.len() && #[trigger] logs[i].status == WebhookDeliveryLogStatus::Success
                && !seen.contains(logs[i].id@) implies f.contains(i) by {
            if i < logs.len() - 1 {
                assert(init[i] == logs[i]);
                let w = choose|w: int| 0 <= w < rest.len() && rest[w] == i;
                assert(f[w] == i);
            } else {
                assert(f[f.len() - 1] == i);
            }
        }
    }
}
} // verus!
