use std::collections::HashMap;

use mio::Events;
use vstd::multiset::Multiset;
use vstd::prelude::*;

use crate::token_heap::{is_greatest, TokenHeap};

verus! {

broadcast use vstd::seq_lib::group_to_multiset_ensures;

/// Token under which the idle source is registered with the poll.
pub const IDLE_TOKEN: usize = usize::MAX;

/// Token under which the client is registered with the poll.
pub const CLIENT_TOKEN: usize = 1usize;

/// The poll timeout, in microseconds, that the event stream waits for new
/// readiness events.
pub const NO_TIMEOUT_MICROS: u64 = 1u64;

/// The state the run loop works on.
pub struct State {
    pub peers: Vec<()>,
}

/// Where a readiness event can come from.
#[derive(Clone, Copy, Debug, PartialEq, Eq, Structural)]
pub enum EventSource {
    Client,
    Plugin,
    Idle,
    Timer,
    FileSystem,
}

#[verifier::external_type_specification]
#[verifier::external_body]
pub struct ExEvents(mio::Events);

/// The events that a `mio::Events` buffer holds, in order: for each, its
/// token and whether its readiness includes readable.
pub uninterp spec fn events_held(events: Events) -> Seq<(usize, bool)>;

/// Calls `mio::Events::with_capacity`; the buffer it makes holds no event.
/// Its vector of at most 16-byte `epoll_event`s panics on a capacity whose
/// size in bytes exceeds `isize::MAX`, which `requires` leaves out.
#[verifier::external_body]
fn events_with_capacity(capacity: usize) -> (events: Events)
    requires
        capacity * 16 <= isize::MAX,
    ensures
        events_held(events) == Seq::<(usize, bool)>::empty(),
{
    Events::with_capacity(capacity)
}

/// Calls `mio::Events::get`, which the buffer's own iterator also calls, and
/// hands out the event's token (`Event::token`) and whether its readiness is
/// readable (`Event::readiness`, `Ready::is_readable`): the event at `idx`,
/// or `None` past the last one.
#[allow(deprecated)]
#[verifier::external_body]
fn event_at(events: &Events, idx: usize) -> (r: Option<(usize, bool)>)
    ensures
        r == (if idx < events_held(*events).len() {
            Some(events_held(*events)[idx as int])
        } else {
            None::<(usize, bool)>
        }),
{
    match events.get(idx) {
        Some(event) => Some((event.token().0, event.readiness().is_readable())),
        None => None,
    }
}

/// Calls `mio::Events::len`: the number of events the buffer holds.
#[allow(deprecated)]
#[verifier::external_body]
fn events_len(events: &Events) -> (n: usize)
    ensures
        n == events_held(*events).len(),
{
    events.len()
}

/// Calls `mio::Events::clear`, which empties the buffer as the next poll
/// would before filling it.
#[verifier::external_body]
fn events_clear(events: &mut Events)
    ensures
        events_held(*final(events)) == Seq::<(usize, bool)>::empty(),
{
    events.clear()
}

/// The tokens of the readable events, in order, leaving out the idle token.
pub open spec fn queued_tokens(evs: Seq<(usize, bool)>) -> Seq<usize>
    decreases evs.len(),
{
    if evs.len() == 0 {
        Seq::empty()
    } else {
        let rest = queued_tokens(evs.drop_last());
        let e = evs.last();
        if e.1 && e.0 != IDLE_TOKEN {
            rest.push(e.0)
        } else {
            rest
        }
    }
}

/// Whether a readable event carries the idle token.
pub open spec fn idle_seen(evs: Seq<(usize, bool)>) -> bool {
    exists|i: int| 0 <= i < evs.len() && #[trigger] evs[i].1 && evs[i].0 == IDLE_TOKEN
}

/// The idle token is only ever noted, never queued.
pub proof fn lemma_idle_never_queued(evs: Seq<(usize, bool)>)
    ensures
        !queued_tokens(evs).contains(IDLE_TOKEN),
    decreases evs.len(),
{
    if evs.len() > 0 {
        lemma_idle_never_queued(evs.drop_last());
        let rest = queued_tokens(evs.drop_last());
        let e = evs.last();
        if e.1 && e.0 != IDLE_TOKEN {
            assert forall|i: int| 0 <= i < rest.push(e.0).len() implies rest.push(e.0)[i] != IDLE_TOKEN by {
                if i < rest.len() {
                    assert(rest.push(e.0)[i] == rest[i]);
                }
            }
        }
    }
}

/// A stream whose queue does not hold the idle token never hands it out:
/// whatever the events of the last poll, `next` gives another token.
pub proof fn lemma_next_never_idle(ready: Multiset<usize>, evs: Seq<(usize, bool)>, t: usize)
    requires
        ready.count(IDLE_TOKEN) == 0,
        is_greatest(ready.add(queued_tokens(evs).to_multiset()), t),
    ensures
        t != IDLE_TOKEN,
{
    broadcast use vstd::multiset::group_multiset_axioms;
    lemma_idle_never_queued(evs);
    assert(queued_tokens(evs).to_multiset().count(IDLE_TOKEN) == 0);
}

/// The number of readable events in `evs` that carry the token `t`.
pub open spec fn readable_count(evs: Seq<(usize, bool)>, t: usize) -> nat
    decreases evs.len(),
{
    if evs.len() == 0 {
        0
    } else {
        readable_count(evs.drop_last(), t) + (if evs.last() == (t, true) {
            1nat
        } else {
            0nat
        })
    }
}

/// Taking in the events of a poll queues each readable event's token once,
/// and the idle token never: a token other than the idle one is queued as
/// often as readable events carry it.
pub proof fn lemma_queued_counts(evs: Seq<(usize, bool)>, t: usize)
    ensures
        queued_tokens(evs).to_multiset().count(t) == (if t == IDLE_TOKEN {
            0
        } else {
            readable_count(evs, t)
        }),
    decreases evs.len(),
{
    broadcast use vstd::multiset::group_multiset_axioms;
    if evs.len() == 0 {
        assert(queued_tokens(evs).to_multiset() =~= Multiset::empty());
    } else {
        lemma_queued_counts(evs.drop_last(), t);
    }
}

/// The idle source is noted exactly when a readable event carries the idle
/// token.
pub proof fn lemma_idle_seen_iff(evs: Seq<(usize, bool)>)
    ensures
        idle_seen(evs) <==> readable_count(evs, IDLE_TOKEN) > 0,
    decreases evs.len(),
{
    if evs.len() > 0 {
        let rest = evs.drop_last();
        lemma_idle_seen_iff(rest);
        let n = evs.len() - 1;
        if idle_seen(evs) {
            let k = choose|k: int| 0 <= k < evs.len() && #[trigger] evs[k].1 && evs[k].0 == IDLE_TOKEN;
            if k < n {
                assert(rest[k] == evs[k]);
                assert(idle_seen(rest));
            } else {
                assert(evs.last() == (IDLE_TOKEN, true));
            }
        }
        if readable_count(evs, IDLE_TOKEN) > 0 {
            if readable_count(rest, IDLE_TOKEN) > 0 {
                let k = choose|k: int| 0 <= k < rest.len() && #[trigger] rest[k].1 && rest[k].0 == IDLE_TOKEN;
                assert(evs[k] == rest[k]);
            } else {
                assert(evs[n].1 && evs[n].0 == IDLE_TOKEN);
            }
        }
    }
}

/// A single readable event with any token other than the idle one leaves the
/// queue with exactly that token added; a single readable idle event is
/// noted.
pub proof fn lemma_one_readable_event(ready: Multiset<usize>, t: usize)
    ensures
        t != IDLE_TOKEN ==> ready.add(queued_tokens(seq![(t, true)]).to_multiset()) == ready.insert(t),
        idle_seen(seq![(IDLE_TOKEN, true)]),
{
    broadcast use vstd::multiset::group_multiset_axioms;
    let evs = seq![(t, true)];
    assert(evs.len() == 1);
    assert(evs.last() == (t, true));
    assert(evs.drop_last() =~= Seq::<(usize, bool)>::empty());
    assert(queued_tokens(evs.drop_last()) =~= Seq::<usize>::empty());
    if t != IDLE_TOKEN {
        assert(queued_tokens(evs) =~= Seq::<usize>::empty().push(t));
        assert(Seq::<usize>::empty().to_multiset() =~= Multiset::empty());
        assert(ready.add(queued_tokens(evs).to_multiset()) =~= ready.insert(t));
    }
    let idle = seq![(IDLE_TOKEN, true)];
    assert(idle.len() == 1);
    assert(idle[0].1 && idle[0].0 == IDLE_TOKEN);
}

/// A stream of ready event sources, fed by a poll: readable events are queued
/// by token, the greatest token served first; the idle source is only noted.
pub struct EventStream {
    sources: HashMap<usize, EventSource>,
    event_buffer: Events,
    ready_events: TokenHeap,
    has_idle: bool,
}

impl EventStream {
    /// The events that the last poll left in the buffer.
    pub closed spec fn buffered(self) -> Seq<(usize, bool)> {
        events_held(self.event_buffer)
    }

    /// The sources registered with the stream, by token.
    pub closed spec fn sources(self) -> Map<usize, EventSource> {
        self.sources@
    }

    /// The event buffer that the last poll filled.
    pub closed spec fn buffer(self) -> Events {
        self.event_buffer
    }

    /// The tokens queued and not yet handed out.
    pub closed spec fn ready(self) -> Multiset<usize> {
        self.ready_events@
    }

    /// Whether a readable idle event has been seen.
    pub closed spec fn idle(self) -> bool {
        self.has_idle
    }

    /// A stream with no source registered, nothing queued and an empty event
    /// buffer that holds up to `capacity` events.
    pub fn new(capacity: usize) -> (s: Self)
        requires
            capacity * 16 <= isize::MAX,
        ensures
            s.buffered() == Seq::<(usize, bool)>::empty(),
            s.sources() == Map::<usize, EventSource>::empty(),
            s.ready() == Multiset::<usize>::empty(),
            !s.idle(),
    {
        EventStream {
            sources: HashMap::new(),
            event_buffer: events_with_capacity(capacity),
            ready_events: TokenHeap::new(),
            has_idle: false,
        }
    }

    /// The event buffer, for a poll to fill.
    pub fn events_mut(&mut self) -> (events: &mut Events)
        ensures
            *events == old(self).buffer(),
            events_held(*events) == old(self).buffered(),
            final(self).buffer() == *final(events),
            final(self).buffered() == events_held(*final(events)),
            final(self).sources() == old(self).sources(),
            final(self).ready() == old(self).ready(),
            final(self).idle() == old(self).idle(),
    {
        &mut self.event_buffer
    }

    /// Whether a readable idle event has been seen.
    pub fn has_idle(&self) -> (b: bool)
        ensures
            b == self.idle(),
    {
        self.has_idle
    }

    /// Number of tokens queued and not yet handed out.
    pub fn ready_len(&self) -> (n: usize)
        ensures
            n == self.ready().len(),
    {
        self.ready_events.len()
    }

    /// Handles newly ready events: queues the token of each readable event,
    /// and notes a readable idle event instead of queueing it. The buffer is
    /// left as it is, so a poll is to come between two calls, lest the same
    /// events be taken in twice.
    pub fn process_new_events(&mut self)
        ensures
            final(self).buffer() == old(self).buffer(),
            final(self).buffered() == old(self).buffered(),
            final(self).sources() == old(self).sources(),
            final(self).ready() == old(self).ready().add(
                queued_tokens(old(self).buffered()).to_multiset(),
            ),
            final(self).idle() == (old(self).idle() || idle_seen(old(self).buffered())),
            forall|t: usize| #[trigger] final(self).ready().count(t) == old(self).ready().count(t) + (
                if t == IDLE_TOKEN {
                    0nat
                } else {
                    readable_count(old(self).buffered(), t)
                }),
            final(self).idle() == (old(self).idle() || readable_count(old(self).buffered(), IDLE_TOKEN) > 0),
    {
        let ghost evs = events_held(self.event_buffer);
        let ghost start = self.ready_events@;
        let ghost idle0 = self.has_idle;
        let ghost buffer0 = self.event_buffer;
        let ghost sources0 = self.sources@;
        let n = events_len(&self.event_buffer);
        let mut i: usize = 0;
        while i < n
            invariant
                self.event_buffer == buffer0,
                self.sources@ == sources0,
                evs == events_held(self.event_buffer),
                n == evs.len(),
                0 <= i <= n,
                self.ready_events@ == start.add(queued_tokens(evs.take(i as int)).to_multiset()),
                self.has_idle == (idle0 || idle_seen(evs.take(i as int))),
            decreases n - i,
        {
            if let Some((token, readable)) = event_at(&self.event_buffer, i) {
                proof {
                    let pre = evs.take(i as int);
                    let post = evs.take(i + 1);
                    assert(post.drop_last() =~= pre);
                    assert(post.last() == (token, readable));
                    broadcast use vstd::multiset::group_multiset_axioms;
                    if readable && token == IDLE_TOKEN {
                        assert(post[i as int] == (token, readable));
                        assert(idle_seen(post));
                    }
                    if idle_seen(pre) {
                        let k = choose|k: int| 0 <= k < pre.len() && #[trigger] pre[k].1 && pre[k].0 == IDLE_TOKEN;
                        assert(post[k] == pre[k]);
                    }
                    if idle_seen(post) && !(readable && token == IDLE_TOKEN) {
                        let k = choose|k: int| 0 <= k < post.len() && #[trigger] post[k].1 && post[k].0 == IDLE_TOKEN;
                        assert(k < i);
                        assert(pre[k] == post[k]);
                    }
                    assert(start.add(queued_tokens(pre).to_multiset()).insert(token)
                        =~= start.add(queued_tokens(pre).push(token).to_multiset()));
                }
                if readable {
                    if token == IDLE_TOKEN {
                        self.has_idle = true;
                    } else {
                        self.ready_events.push(token);
                    }
                }
            }
            i = i + 1;
        }
        proof {
            assert(evs.take(evs.len() as int) =~= evs);
            broadcast use vstd::multiset::group_multiset_axioms;
            assert forall|t: usize| #[trigger] self.ready_events@.count(t) == start.count(t) + (
                if t == IDLE_TOKEN {
                    0nat
                } else {
                    readable_count(evs, t)
                }) by {
                lemma_queued_counts(evs, t);
            }
            lemma_idle_seen_iff(evs);
        }
    }

    /// The tokens that are queued once the events of the last poll are taken
    /// in.
    pub open spec fn queued_after_poll(self) -> Multiset<usize> {
        self.ready().add(queued_tokens(self.buffered()).to_multiset())
    }

    /// A token other than the idle one is queued once the events of the last
    /// poll are taken in as often as it was queued before, plus once for each
    /// readable event that carries it; the idle token is not added.
    pub proof fn lemma_queued_after_poll_counts(self, t: usize)
        ensures
            self.queued_after_poll().count(t) == self.ready().count(t) + (if t == IDLE_TOKEN {
                0nat
            } else {
                readable_count(self.buffered(), t)
            }),
    {
        broadcast use vstd::multiset::group_multiset_axioms;
        lemma_queued_counts(self.buffered(), t);
    }

    /// Takes in the events of the last poll and hands out the greatest ready
    /// token; some token must be ready by then. The events taken in leave the
    /// buffer, so each event of a poll is taken in once.
    pub fn next(&mut self) -> (r: Option<usize>)
        requires
            old(self).queued_after_poll().len() > 0,
        ensures
            final(self).buffered() == Seq::<(usize, bool)>::empty(),
            final(self).sources() == old(self).sources(),
            final(self).idle() == (old(self).idle() || idle_seen(old(self).buffered())),
            r matches Some(t) && is_greatest(old(self).queued_after_poll(), t)
                && final(self).ready() == old(self).queued_after_poll().remove(t),
    {
        self.process_new_events();
        events_clear(&mut self.event_buffer);
        self.ready_events.pop()
    }

    /// Like `next`, but where no token is ready once the events of the last
    /// poll are taken in, hands out `None` instead.
    pub fn next_if_ready(&mut self) -> (r: Option<usize>)
        ensures
            final(self).buffered() == Seq::<(usize, bool)>::empty(),
            final(self).sources() == old(self).sources(),
            final(self).idle() == (old(self).idle() || idle_seen(old(self).buffered())),
            match r {
                None => old(self).queued_after_poll().len() == 0
                    && final(self).ready() == old(self).queued_after_poll(),
                Some(t) => is_greatest(old(self).queued_after_poll(), t)
                    && final(self).ready() == old(self).queued_after_poll().remove(t),
            },
    {
        self.process_new_events();
        events_clear(&mut self.event_buffer);
        if self.ready_events.is_empty() {
            None
        } else {
            self.ready_events.pop()
        }
    }
}

} // verus!
