//! Error classification and the per-worker circuit breaker.
//!
//! Every fallible attempt a worker makes is tagged transient or fatal by its
//! own error type.  The breaker counts consecutive transient failures and
//! keeps them from surfacing until an unbroken run of them reaches a fixed
//! threshold; a success clears the count and a fatal failure passes through
//! untouched.

use vstd::prelude::*;

verus! {

/// How many consecutive transient failures a breaker absorbs before it trips.
pub const BREAKER_THRESHOLD: usize = 10;

/// Errors that tell a transient failure (expected noise, e.g. one flaky
/// network read) from a fatal one (anything else).
pub trait IsTransient {
    /// Whether this error counts as transient.
    spec fn transient(&self) -> bool;

    /// Executable form of [`IsTransient::transient`].
    fn is_transient(&self) -> (b: bool)
        ensures
            b == self.transient(),
    ;
}

/// Classification of one attempt outcome, as the breaker sees it.
pub enum AttemptKind {
    Success,
    Transient,
    Fatal,
}

/// The class of an attempt result: success, transient failure or fatal
/// failure.
pub open spec fn kind_of<T, E: IsTransient>(r: Result<T, E>) -> AttemptKind {
    match r {
        Ok(_) => AttemptKind::Success,
        Err(e) => if e.transient() {
            AttemptKind::Transient
        } else {
            AttemptKind::Fatal
        },
    }
}

/// The breaker's counter after it sees one outcome of the given kind.  The
/// counter never leaves `0 ..= BREAKER_THRESHOLD`.
pub open spec fn next_failure_count(count: nat, kind: AttemptKind) -> nat {
    match kind {
        AttemptKind::Success => 0,
        AttemptKind::Transient => if count < BREAKER_THRESHOLD as nat {
            count + 1
        } else {
            count
        },
        AttemptKind::Fatal => count,
    }
}

/// What the breaker decides for one outcome: pass the result through
/// (`Ran`), swallow a transient failure (`Suppressed`), or escalate a run of
/// transient failures that reached the threshold (`Tripped`).
pub enum Disposition {
    Ran,
    Suppressed,
    Tripped,
}

/// The breaker's disposition for one outcome of the given kind, seen at the
/// given counter value.
pub open spec fn disposition(count: nat, kind: AttemptKind) -> Disposition {
    match kind {
        AttemptKind::Success => Disposition::Ran,
        AttemptKind::Transient => if count + 1 < BREAKER_THRESHOLD as nat {
            Disposition::Suppressed
        } else {
            Disposition::Tripped
        },
        AttemptKind::Fatal => Disposition::Ran,
    }
}

/// The breaker's counter after it sees a whole sequence of outcome kinds.
pub open spec fn count_after(count: nat, kinds: Seq<AttemptKind>) -> nat
    decreases kinds.len(),
{
    if kinds.len() == 0 {
        count
    } else {
        count_after(next_failure_count(count, kinds[0]), kinds.drop_first())
    }
}

/// The error a tripped breaker escalates: too many consecutive transient
/// failures.
#[derive(Debug, PartialEq, Eq, Structural)]
pub struct BreakerError {}

/// A per-worker circuit breaker: a single counter of consecutive transient
/// failures, owned exclusively by one worker.
#[derive(Debug)]
pub struct Breaker {
    failure_count: usize,
}

impl Breaker {
    #[verifier::type_invariant]
    spec fn bounded(self) -> bool {
        self.failure_count <= BREAKER_THRESHOLD
    }

    /// The current count of consecutive transient failures.
    pub closed spec fn count(self) -> nat {
        self.failure_count as nat
    }

    /// Executable form of [`Breaker::count`].
    pub fn failures(&self) -> (n: usize)
        ensures
            n as nat == self.count(),
    {
        self.failure_count
    }

    /// Route one attempt result through the breaker.
    ///
    /// A success resets the counter and is passed through.  A transient
    /// failure increments the counter and is swallowed while the unbroken run
    /// stays below [`BREAKER_THRESHOLD`]; the failure that reaches the
    /// threshold trips the breaker instead.  A fatal failure passes through
    /// at once and never touches the counter.
    pub fn check<T, E: IsTransient>(&mut self, r: Result<T, E>) -> (d: Result<
        Option<Result<T, E>>,
        BreakerError,
    >)
        ensures
            final(self).count() == next_failure_count(old(self).count(), kind_of(r)),
            match r {
                Ok(v) => d == Ok::<Option<Result<T, E>>, BreakerError>(Some(Ok(v))),
                Err(e) => if e.transient() {
                    if old(self).count() + 1 < BREAKER_THRESHOLD as nat {
                        d == Ok::<Option<Result<T, E>>, BreakerError>(None)
                    } else {
                        d == Err::<Option<Result<T, E>>, BreakerError>(BreakerError {})
                    }
                } else {
                    d == Ok::<Option<Result<T, E>>, BreakerError>(Some(Err(e)))
                },
            },
    {
        proof {
            use_type_invariant(&*self);
        }
        match r {
            Ok(v) => {
                self.failure_count = 0;
                Ok(Some(Ok(v)))
            }
            Err(e) => {
                if e.is_transient() {
                    if self.failure_count < BREAKER_THRESHOLD {
                        self.failure_count = self.failure_count + 1;
                    }
                    if self.failure_count < BREAKER_THRESHOLD {
                        Ok(None)
                    } else {
                        Err(BreakerError {})
                    }
                } else {
                    Ok(Some(Err(e)))
                }
            }
        }
    }
}

impl Default for Breaker {
    /// A fresh breaker with the counter at zero.
    fn default() -> (b: Self)
        ensures
            b.count() == 0,
    {
        Breaker { failure_count: 0 }
    }
}

/// An unbroken run of transient failures drives the counter up one per
/// failure, as long as it stays within the threshold.
pub proof fn lemma_transient_run(count: nat, kinds: Seq<AttemptKind>)
    requires
        count + kinds.len() <= BREAKER_THRESHOLD as nat,
        forall|j: int| 0 <= j < kinds.len() ==> kinds[j] is Transient,
    ensures
        count_after(count, kinds) == count + kinds.len(),
    decreases kinds.len(),
{
    if kinds.len() > 0 {
        lemma_transient_run(count + 1, kinds.drop_first());
    }
}

/// Breaker suppression: starting from a fresh breaker, a run of consecutive
/// transient failures shorter than the threshold is suppressed at every step
/// and leaves the counter at the run's length; one more transient failure
/// after a run of length `BREAKER_THRESHOLD - 1` trips the breaker.
pub proof fn lemma_breaker_suppression(kinds: Seq<AttemptKind>, i: int)
    requires
        kinds.len() < BREAKER_THRESHOLD as nat,
        forall|j: int| 0 <= j < kinds.len() ==> kinds[j] is Transient,
        0 <= i < kinds.len(),
    ensures
        count_after(0, kinds) == kinds.len(),
        disposition(count_after(0, kinds.take(i)), kinds[i]) is Suppressed,
        kinds.len() == BREAKER_THRESHOLD as nat - 1 ==> disposition(
            count_after(0, kinds),
            AttemptKind::Transient,
        ) is Tripped,
{
    lemma_transient_run(0, kinds);
    assert(forall|j: int| 0 <= j < i ==> kinds.take(i)[j] is Transient);
    lemma_transient_run(0, kinds.take(i));
}

/// Breaker reset: whatever the counter held before, a success clears it, so
/// a following run of transient failures shorter than the threshold is
/// suppressed at every step.
pub proof fn lemma_breaker_reset(count: nat, tail: Seq<AttemptKind>, i: int)
    requires
        tail.len() < BREAKER_THRESHOLD as nat,
        forall|j: int| 0 <= j < tail.len() ==> tail[j] is Transient,
        0 <= i < tail.len(),
    ensures
        next_failure_count(count, AttemptKind::Success) == 0,
        count_after(next_failure_count(count, AttemptKind::Success), tail) == tail.len(),
        disposition(
            count_after(next_failure_count(count, AttemptKind::Success), tail.take(i)),
            tail[i],
        ) is Suppressed,
{
    lemma_breaker_suppression(tail, i);
}

/// Fatal short-circuit: a fatal failure is passed through at once, whatever
/// the counter holds, and never changes it.
pub proof fn lemma_fatal_short_circuit(count: nat)
    ensures
        disposition(count, AttemptKind::Fatal) is Ran,
        next_failure_count(count, AttemptKind::Fatal) == count,
{
}

} // verus!
