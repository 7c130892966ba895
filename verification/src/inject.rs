//! Injecting events, and releasing what a tracker holds.

use vstd::prelude::*;

use crate::error::InputError;
use crate::event::{event_finite, InputEvent};
use crate::state::{clean_state, release_sequence, InputStateTracker};
use crate::state_laws::lemma_clean_releases_nothing;

verus! {

/// One injection attempt: the event handed over, and what came back.
pub type Attempt = (InputEvent, Result<(), InputError>);

/// A platform backend that synthesises input on this machine.
///
/// An implementation may keep accounts of what it was asked to do:
/// `attempts` lists every event handed to `inject` with its outcome, and
/// `releases` the outcome of every `release_all`, oldest first. One that does
/// says so by making `keeps_accounts` true, and Verus then holds it to the
/// contracts below. The default is false: an implementation written in
/// ordinary Rust (a platform backend, a test double) states nothing, and
/// nothing is claimed of it beyond what holds whatever it returns.
pub trait InputInject {
    /// True when this implementation keeps `attempts` and `releases` as
    /// `inject` and `release_all` describe.
    open spec fn keeps_accounts() -> bool {
        false
    }

    /// Every event handed to `inject` so far, with what each call returned.
    open spec fn attempts(&self) -> Seq<Attempt> {
        Seq::empty()
    }

    /// What every call of `release_all` so far returned.
    open spec fn releases(&self) -> Seq<Result<(), InputError>> {
        Seq::empty()
    }

    /// Injects one event.
    fn inject(&mut self, event: &InputEvent) -> (r: Result<(), InputError>)
        ensures
            Self::keeps_accounts() ==> final(self).attempts() == old(self).attempts().push(
                (*event, r),
            ),
            Self::keeps_accounts() ==> final(self).releases() == old(self).releases(),
    ;

    /// Releases every key and button this injector knows it is holding.
    fn release_all(&mut self) -> (r: Result<(), InputError>)
        ensures
            Self::keeps_accounts() ==> final(self).releases() == old(self).releases().push(r),
            Self::keeps_accounts() ==> final(self).attempts() == old(self).attempts(),
    ;
}

/// The outcome of a run of attempts: the first failure, or success when none
/// failed.
pub open spec fn first_failure(attempts: Seq<Attempt>) -> Result<(), InputError>
    decreases attempts.len(),
{
    if attempts.len() == 0 {
        Ok(())
    } else if attempts[0].1 is Err {
        attempts[0].1
    } else {
        first_failure(attempts.drop_first())
    }
}

/// An injector that refuses events carrying non-finite numbers before they
/// reach the platform layer.
pub struct Validated<T> {
    inner: T,
    rejected: u64,
    history: Ghost<Seq<Attempt>>,
    inner_start: Ghost<Seq<Attempt>>,
}

/// How many of `attempts` carried a non-finite number.
pub open spec fn refusals(attempts: Seq<Attempt>) -> nat
    decreases attempts.len(),
{
    if attempts.len() == 0 {
        0
    } else {
        refusals(attempts.drop_last()) + if event_finite(attempts.last().0) {
            0nat
        } else {
            1nat
        }
    }
}

/// The attempts among `attempts` whose numbers are all finite, in order.
pub open spec fn passed_on(attempts: Seq<Attempt>) -> Seq<Attempt>
    decreases attempts.len(),
{
    if attempts.len() == 0 {
        Seq::empty()
    } else if event_finite(attempts.last().0) {
        passed_on(attempts.drop_last()).push(attempts.last())
    } else {
        passed_on(attempts.drop_last())
    }
}

/// `n`, held at the counter's maximum.
pub open spec fn saturated(n: nat) -> u64 {
    if n >= u64::MAX {
        u64::MAX
    } else {
        n as u64
    }
}

/// Every attempt with a non-finite number was answered with the refusal.
pub open spec fn refusals_answered(attempts: Seq<Attempt>) -> bool {
    forall|k: int|
        0 <= k < attempts.len() && !event_finite(#[trigger] attempts[k].0) ==> attempts[k].1
            == non_finite_refusal()
}

/// The refusal counter after one more refusal, held at its maximum.
pub open spec fn one_more_refusal(count: u64) -> u64 {
    if count == u64::MAX {
        u64::MAX
    } else {
        (count + 1) as u64
    }
}

/// What a non-finite event is refused with.
pub open spec fn non_finite_refusal() -> Result<(), InputError> {
    Err(InputError::Malformed { reason: "coordinate is not a finite number" })
}

impl<T: InputInject> Validated<T> {
    /// Wraps an injector.
    pub fn new(inner: T) -> (v: Validated<T>)
        ensures
            v.inner_view() == inner,
            v.rejected_view() == 0,
            v.attempts() == Seq::<Attempt>::empty(),
            v.inner_start() == inner.attempts(),
            v.well_formed(),
    {
        let ghost start = inner.attempts();
        let v = Validated {
            inner,
            rejected: 0,
            history: Ghost(Seq::empty()),
            inner_start: Ghost(start),
        };
        assert(v.inner.attempts() =~= start + passed_on(Seq::<Attempt>::empty()));
        v
    }

    /// What the wrapped injector had been handed before it was wrapped.
    pub closed spec fn inner_start(&self) -> Seq<Attempt> {
        self.inner_start@
    }

    /// The wrapper's accounts agree: the refusal counter counts the refused
    /// attempts, each refused attempt was answered with the refusal, and,
    /// where the wrapped injector keeps accounts, it was handed exactly the
    /// other attempts, in order.
    pub closed spec fn well_formed(&self) -> bool {
        &&& self.rejected == saturated(refusals(self.history@))
        &&& refusals_answered(self.history@)
        &&& T::keeps_accounts() ==> self.inner.attempts() == self.inner_start@ + passed_on(
            self.history@,
        )
    }

    /// The wrapped injector.
    pub closed spec fn inner_view(&self) -> T {
        self.inner
    }

    /// The number of events refused so far.
    pub closed spec fn rejected_view(&self) -> u64 {
        self.rejected
    }

    /// Events refused so far.
    pub fn rejected_count(&self) -> (n: u64)
        ensures
            n == self.rejected_view(),
    {
        self.rejected
    }

    /// Unwraps the injector.
    pub fn into_inner(self) -> (t: T)
        ensures
            t == self.inner_view(),
    {
        self.inner
    }
}

impl<T: InputInject> InputInject for Validated<T> {
    /// The wrapper keeps its own record of attempts; its releases are the
    /// wrapped injector's, so it keeps accounts when that injector does.
    open spec fn keeps_accounts() -> bool {
        T::keeps_accounts()
    }

    /// Every event offered to this wrapper, refused or passed on.
    closed spec fn attempts(&self) -> Seq<Attempt> {
        self.history@
    }

    /// The wrapped injector's releases.
    closed spec fn releases(&self) -> Seq<Result<(), InputError>> {
        self.inner.releases()
    }

    /// Passes `event` to the wrapped injector if every number in it is finite;
    /// otherwise refuses it and counts the refusal, saturating at the counter's
    /// maximum, and the wrapped injector never sees it.
    fn inject(&mut self, event: &InputEvent) -> (r: Result<(), InputError>)
        ensures
            final(self).attempts() == old(self).attempts().push((*event, r)),
            !event_finite(*event) ==> {
                &&& r == non_finite_refusal()
                &&& final(self).rejected_view() == one_more_refusal(old(self).rejected_view())
                &&& final(self).inner_view() == old(self).inner_view()
            },
            event_finite(*event) ==> final(self).rejected_view() == old(self).rejected_view(),
            event_finite(*event) && T::keeps_accounts() ==> {
                &&& final(self).inner_view().attempts() == old(self).inner_view().attempts().push(
                    (*event, r),
                )
                &&& final(self).inner_view().releases() == old(self).inner_view().releases()
            },
            final(self).inner_start() == old(self).inner_start(),
            old(self).well_formed() ==> final(self).well_formed(),
    {
        let ghost h0 = self.history@;
        if !event.is_finite() {
            self.rejected = self.rejected.saturating_add(1);
            let r = Err(InputError::Malformed { reason: "coordinate is not a finite number" });
            self.history = Ghost(self.history@.push((*event, r)));
            proof {
                let h = self.history@;
                assert(h.drop_last() =~= h0);
                assert(passed_on(h) == passed_on(h0));
                assert(refusals(h) == refusals(h0) + 1);
            }
            return r;
        }
        let r = self.inner.inject(event);
        self.history = Ghost(self.history@.push((*event, r)));
        proof {
            let h = self.history@;
            assert(h.drop_last() =~= h0);
            assert(passed_on(h) == passed_on(h0).push((*event, r)));
            assert(refusals(h) == refusals(h0));
            if old(self).well_formed() && T::keeps_accounts() {
                assert(self.inner.attempts() =~= self.inner_start@ + passed_on(h));
            }
        }
        r
    }

    /// Releases through the wrapped injector and returns what it returned.
    fn release_all(&mut self) -> (r: Result<(), InputError>)
        ensures
            T::keeps_accounts() ==> final(self).inner_view().releases() == old(
                self,
            ).inner_view().releases().push(r),
            T::keeps_accounts() ==> final(self).inner_view().attempts() == old(
                self,
            ).inner_view().attempts(),
            final(self).attempts() == old(self).attempts(),
            final(self).rejected_view() == old(self).rejected_view(),
            final(self).inner_start() == old(self).inner_start(),
            old(self).well_formed() ==> final(self).well_formed(),
    {
        self.inner.release_all()
    }
}

/// `after` is `before` followed by one attempt for each of `events`, in order.
pub open spec fn attempted_each(
    before: Seq<Attempt>,
    after: Seq<Attempt>,
    events: Seq<InputEvent>,
) -> bool {
    &&& after.len() == before.len() + events.len()
    &&& after.take(before.len() as int) == before
    &&& forall|i: int|
        0 <= i < events.len() ==> (#[trigger] after[before.len() + i]).0 == events[i]
}

/// Injects every event, in order, continuing past failures, and reports the
/// first failure. Abandoning a release sequence halfway would leave keys held.
pub fn inject_all<T: InputInject>(injector: &mut T, events: &[InputEvent]) -> (r: Result<
    (),
    InputError,
>)
    ensures
        events@.len() == 0 ==> r == Ok::<(), InputError>(()),
        T::keeps_accounts() ==> attempted_each(
            old(injector).attempts(),
            final(injector).attempts(),
            events@,
        ),
        T::keeps_accounts() ==> r == first_failure(
            final(injector).attempts().skip(old(injector).attempts().len() as int),
        ),
        T::keeps_accounts() ==> final(injector).releases() == old(injector).releases(),
{
    let ghost start = injector.attempts();
    let mut first_error: Option<InputError> = None;
    let mut i: usize = 0;
    while i < events.len()
        invariant
            i <= events@.len(),
            start == old(injector).attempts(),
            i == 0 ==> first_error is None,
            T::keeps_accounts() ==> {
                &&& injector.attempts().len() == start.len() + i
                &&& injector.attempts().take(start.len() as int) == start
                &&& forall|j: int|
                    0 <= j < i ==> (#[trigger] injector.attempts()[start.len() + j]).0
                        == events@[j]
                &&& injector.releases() == old(injector).releases()
                &&& first_failure(injector.attempts().skip(start.len() as int)) == match first_error {
                    Some(e) => Err(e),
                    None => Ok(()),
                }
            },
        decreases events@.len() - i,
    {
        let ghost before = injector.attempts();
        let result = injector.inject(&events[i]);
        proof {
            if T::keeps_accounts() {
                let done = before.skip(start.len() as int);
                lemma_first_failure_push(done, (events@[i as int], result));
                assert(injector.attempts().skip(start.len() as int) =~= done.push(
                    (events@[i as int], result),
                ));
                assert(injector.attempts().take(start.len() as int) =~= before.take(
                    start.len() as int,
                ));
            }
        }
        if let Err(e) = result {
            if first_error.is_none() {
                first_error = Some(e);
            }
        }
        i = i + 1;
    }
    match first_error {
        Some(e) => Err(e),
        None => Ok(()),
    }
}

/// Appending an attempt changes the outcome only when none had failed yet.
proof fn lemma_first_failure_push(done: Seq<Attempt>, next: Attempt)
    ensures
        first_failure(done.push(next)) == if first_failure(done) is Err {
            first_failure(done)
        } else if next.1 is Err {
            next.1
        } else {
            Ok(())
        },
    decreases done.len(),
{
    if done.len() > 0 {
        assert(done.push(next).drop_first() =~= done.drop_first().push(next));
        lemma_first_failure_push(done.drop_first(), next);
    } else {
        let single = done.push(next);
        assert(single[0] == next);
        assert(single.drop_first() =~= Seq::<Attempt>::empty());
        assert(first_failure(single.drop_first()) == Ok::<(), InputError>(()));
    }
}

/// Injects the tracker's release events and clears the tracker, even when
/// injection fails: keeping stale held state would make the next release
/// attempt wrong as well.
pub fn release_tracked<T: InputInject>(injector: &mut T, tracker: &mut InputStateTracker) -> (r:
    Result<(), InputError>)
    ensures
        final(tracker)@ == clean_state(),
        old(tracker)@ == clean_state() ==> r == Ok::<(), InputError>(()),
        T::keeps_accounts() ==> attempted_each(
            old(injector).attempts(),
            final(injector).attempts(),
            release_sequence(old(tracker)@),
        ),
        T::keeps_accounts() ==> r == first_failure(
            final(injector).attempts().skip(old(injector).attempts().len() as int),
        ),
        T::keeps_accounts() ==> final(injector).releases() == old(injector).releases(),
        T::keeps_accounts() && old(tracker)@ == clean_state() ==> final(injector).attempts() == old(
            injector,
        ).attempts(),
{
    let events = tracker.release_events();
    let result = inject_all(injector, events.as_slice());
    proof {
        if old(tracker)@ == clean_state() {
            lemma_clean_releases_nothing();
            assert(events@.len() == 0);
            if T::keeps_accounts() {
                let after = injector.attempts();
                let n = old(injector).attempts().len();
                assert(after =~= after.take(n as int));
                assert(after.skip(n as int) =~= Seq::<Attempt>::empty());
            }
        }
    }
    tracker.clear();
    result
}


/// Over any run of injections through a wrapper, the refusal counter equals
/// the number of events that carried a non-finite number (held at its
/// maximum), and each of those was answered with the refusal; and where the
/// wrapped injector keeps accounts, it was handed exactly the other events,
/// each once, in order.
pub proof fn law_refusals_are_counted<T: InputInject>(v: Validated<T>)
    requires
        v.well_formed(),
    ensures
        v.rejected_view() == saturated(refusals(v.attempts())),
        refusals_answered(v.attempts()),
        T::keeps_accounts() ==> v.inner_view().attempts() == v.inner_start() + passed_on(
            v.attempts(),
        ),
{
}

} // verus!
