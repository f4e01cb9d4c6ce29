//! The payment watcher: consumes the ordered state transitions of one
//! receive operation and resolves, exactly once, to a terminal outcome.

use vstd::prelude::*;

verus! {

/// A state reported by the payment backend for an incoming payment.
#[derive(Debug, PartialEq, Eq)]
pub enum PaymentState {
    /// The invoice exists; nothing has been paid yet.
    Created,
    /// Funds are on their way but not yet confirmed.
    Pending,
    /// The payment was received and claimed: terminal success.
    Claimed,
    /// The payment will never complete: terminal failure, with the backend's reason.
    Canceled { reason: String },
}

impl Clone for PaymentState {
    fn clone(&self) -> (r: Self)
        ensures
            r == *self,
    {
        match self {
            PaymentState::Created => PaymentState::Created,
            PaymentState::Pending => PaymentState::Pending,
            PaymentState::Claimed => PaymentState::Claimed,
            PaymentState::Canceled { reason } => PaymentState::Canceled { reason: reason.clone() },
        }
    }
}

/// The terminal outcome of a watched payment.
#[derive(Debug, PartialEq, Eq)]
pub enum Outcome {
    Claimed,
    Canceled { reason: String },
}

/// A failure of the watch itself, as opposed to a canceled payment.
#[derive(Debug, Clone, Copy, PartialEq, Eq)]
pub enum WatchError {
    /// The backend closed the stream before any terminal state was seen.
    StreamClosedUnexpectedly,
}

/// Whether a state ends the payment's life.
pub open spec fn is_terminal(e: PaymentState) -> bool {
    e is Claimed || e is Canceled
}

/// The resolution after one more event: a resolved watch stays as it is; an
/// unresolved one resolves on a terminal state and ignores any other.
pub open spec fn next_resolution(current: Option<Outcome>, e: PaymentState) -> Option<Outcome> {
    match current {
        Some(o) => Some(o),
        None => match e {
            PaymentState::Claimed => Some(Outcome::Claimed),
            PaymentState::Canceled { reason } => Some(Outcome::Canceled { reason }),
            _ => None,
        },
    }
}

/// The resolution reached from `start` after the events, in order.
pub open spec fn resolution_after(start: Option<Outcome>, events: Seq<PaymentState>) -> Option<
    Outcome,
>
    decreases events.len(),
{
    if events.len() == 0 {
        start
    } else {
        next_resolution(resolution_after(start, events.drop_last()), events.last())
    }
}

/// What watching a stream that delivers `events` and then closes yields.
pub open spec fn outcome_of(events: Seq<PaymentState>) -> Result<Outcome, WatchError> {
    match resolution_after(None, events) {
        Some(o) => Ok(o),
        None => Err(WatchError::StreamClosedUnexpectedly),
    }
}

/// The watch of one operation. It owns its state alone: two watchers never
/// share anything.
pub struct Watcher {
    resolved: Option<Outcome>,
}

impl Watcher {
    /// The resolution reached so far; `None` while still watching.
    pub closed spec fn resolution(&self) -> Option<Outcome> {
        self.resolved
    }

    /// A watcher that has seen no event.
    pub fn new() -> (r: Watcher)
        ensures
            r.resolution() is None,
    {
        Watcher { resolved: None }
    }

    /// Whether a terminal state has been seen.
    pub fn is_resolved(&self) -> (r: bool)
        ensures
            r == self.resolution() is Some,
    {
        self.resolved.is_some()
    }

    /// Feeds the next event of the stream. Returns the outcome exactly when
    /// this event is the one that resolves the watch; every later event is
    /// ignored and returns `None`.
    pub fn on_event(&mut self, event: PaymentState) -> (r: Option<Outcome>)
        ensures
            final(self).resolution() == next_resolution(old(self).resolution(), event),
            r == (if old(self).resolution() is None {
                final(self).resolution()
            } else {
                None
            }),
    {
        if self.resolved.is_some() {
            return None;
        }
        match event {
            PaymentState::Claimed => {
                self.resolved = Some(Outcome::Claimed);
                Some(Outcome::Claimed)
            },
            PaymentState::Canceled { reason } => {
                let again = reason.clone();
                self.resolved = Some(Outcome::Canceled { reason });
                Some(Outcome::Canceled { reason: again })
            },
            _ => None,
        }
    }

    /// The result once the stream has closed: the outcome if one was reached,
    /// else `StreamClosedUnexpectedly`.
    pub fn on_close(self) -> (r: Result<Outcome, WatchError>)
        ensures
            r == (match self.resolution() {
                Some(o) => Ok(o),
                None => Err(WatchError::StreamClosedUnexpectedly),
            }),
    {
        match self.resolved {
            Some(o) => Ok(o),
            None => Err(WatchError::StreamClosedUnexpectedly),
        }
    }
}

/// Watches a stream that delivers `events` in order and then closes. Reading
/// stops at the first terminal state.
pub fn await_outcome(events: &Vec<PaymentState>) -> (r: Result<Outcome, WatchError>)
    ensures
        r == outcome_of(events@),
{
    let mut watcher = Watcher::new();
    let mut i: usize = 0;
    while i < events.len()
        invariant
            i <= events@.len(),
            watcher.resolution() == resolution_after(None, events@.take(i as int)),
            watcher.resolution() is None,
        decreases events@.len() - i,
    {
        let event = events[i].clone();
        proof {
            assert(events@.take(i + 1).drop_last() =~= events@.take(i as int));
        }
        if let Some(o) = watcher.on_event(event) {
            proof {
                lemma_resolution_is_final(o, events@.skip(i + 1));
                lemma_resolution_split(events@.take(i + 1), events@.skip(i + 1));
                assert(events@.take(i + 1) + events@.skip(i + 1) =~= events@);
            }
            return Ok(o);
        }
        i = i + 1;
    }
    proof {
        assert(events@.take(i as int) =~= events@);
    }
    watcher.on_close()
}

/// Whether a watch's result allows the item to be dispensed: only a claimed
/// payment does; a canceled one or a failed watch never does.
pub fn dispense_allowed(result: &Result<Outcome, WatchError>) -> (r: bool)
    ensures
        r == (*result matches Ok(Outcome::Claimed)),
{
    match result {
        Ok(Outcome::Claimed) => true,
        _ => false,
    }
}

/// Once resolved, a watch keeps its outcome whatever events follow: a payment
/// is claimed or canceled at most once.
pub proof fn lemma_resolution_is_final(o: Outcome, later: Seq<PaymentState>)
    ensures
        resolution_after(Some(o), later) == Some(o),
    decreases later.len(),
{
    if later.len() > 0 {
        lemma_resolution_is_final(o, later.drop_last());
    }
}

/// Watching `a` and then `b` is watching `b` from where `a` left off.
pub proof fn lemma_resolution_split(a: Seq<PaymentState>, b: Seq<PaymentState>)
    ensures
        resolution_after(None, a + b) == resolution_after(resolution_after(None, a), b),
    decreases b.len(),
{
    if b.len() > 0 {
        lemma_resolution_split(a, b.drop_last());
        assert((a + b).drop_last() =~= a + b.drop_last());
    }
}

/// The events of an interleaved delivery that are addressed to one watch
/// (`true` for the first, `false` for the second), in order.
pub open spec fn events_for(delivery: Seq<(bool, PaymentState)>, first: bool) -> Seq<PaymentState>
    decreases delivery.len(),
{
    if delivery.len() == 0 {
        Seq::empty()
    } else {
        let earlier = events_for(delivery.drop_last(), first);
        if delivery.last().0 == first {
            earlier.push(delivery.last().1)
        } else {
            earlier
        }
    }
}

/// The resolutions of two watches after an interleaved delivery, each event
/// going to the watch it is addressed to.
pub open spec fn resolutions_of_pair(delivery: Seq<(bool, PaymentState)>) -> (
    Option<Outcome>,
    Option<Outcome>,
)
    decreases delivery.len(),
{
    if delivery.len() == 0 {
        (None, None)
    } else {
        let (a, b) = resolutions_of_pair(delivery.drop_last());
        let (first, e) = delivery.last();
        if first {
            (next_resolution(a, e), b)
        } else {
            (a, next_resolution(b, e))
        }
    }
}

/// Two watches running side by side do not interfere: however their events
/// interleave, each resolves as it would on its own stream alone.
pub proof fn lemma_watches_independent(delivery: Seq<(bool, PaymentState)>)
    ensures
        resolutions_of_pair(delivery) == (
            resolution_after(None, events_for(delivery, true)),
            resolution_after(None, events_for(delivery, false)),
        ),
    decreases delivery.len(),
{
    if delivery.len() > 0 {
        let earlier = delivery.drop_last();
        lemma_watches_independent(earlier);
        let e = delivery.last().1;
        assert(events_for(earlier, true).push(e).drop_last() =~= events_for(earlier, true));
        assert(events_for(earlier, false).push(e).drop_last() =~= events_for(earlier, false));
    }
}

} // verus!
