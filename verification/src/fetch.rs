//! When a block that could not be fetched is fetched again.
use vstd::prelude::*;

verus! {

/// How often a fetch that failed is repeated.
pub const MAX_RETRIES: u32 = 5;

/// How long to wait before a fetch is repeated, in seconds.
pub const RETRY_DELAY_SECS: u64 = 5;

/// What became of a fetch.
#[derive(Clone, Copy, Debug, PartialEq, Eq, Structural)]
pub enum FetchEvent {
    Fetched,
    Failed,
}

/// What to do next.
#[derive(Clone, Copy, Debug, PartialEq, Eq, Structural)]
pub enum FetchAction {
    /// Hand on the block.
    Finish,
    /// Wait for that many seconds, then fetch again.
    Retry(u64),
    /// Report the failure.
    GiveUp,
}

/// What to do after a fetch, where so many fetches have been repeated already.
pub open spec fn action(retries: nat, event: FetchEvent) -> FetchAction {
    match event {
        FetchEvent::Fetched => FetchAction::Finish,
        FetchEvent::Failed => if retries < MAX_RETRIES {
            FetchAction::Retry(RETRY_DELAY_SECS)
        } else {
            FetchAction::GiveUp
        },
    }
}

/// How often the fetch of one block has been repeated.
#[derive(Debug)]
pub struct FetchState {
    retries: u32,
}

impl FetchState {
    /// The number of repeated fetches.
    pub closed spec fn retries(&self) -> nat {
        self.retries as nat
    }

    /// Nothing has been repeated.
    pub fn new() -> (state: FetchState)
        ensures
            state.retries() == 0,
    {
        FetchState { retries: 0 }
    }

    /// Decides what to do after a fetch.
    pub fn next(&mut self, event: FetchEvent) -> (next: FetchAction)
        ensures
            next == action(old(self).retries(), event),
            event is Fetched <==> next is Finish,
            event is Failed && old(self).retries() < 5 ==> next == FetchAction::Retry(5),
            event is Failed && old(self).retries() >= 5 ==> next == FetchAction::GiveUp,
            final(self).retries() == old(self).retries() + (if next is Retry {
                1int
            } else {
                0int
            }),
    {
        match event {
            FetchEvent::Fetched => FetchAction::Finish,
            FetchEvent::Failed => {
                if self.retries < MAX_RETRIES {
                    self.retries += 1;
                    FetchAction::Retry(RETRY_DELAY_SECS)
                } else {
                    FetchAction::GiveUp
                }
            },
        }
    }
}

/// What is done while fetches turn out as `events` says, up to the first action that
/// does not fetch again.
pub open spec fn actions(retries: nat, events: Seq<FetchEvent>) -> Seq<FetchAction>
    decreases events.len(),
{
    if events.len() == 0 {
        Seq::empty()
    } else {
        let first = action(retries, events[0]);
        if first is Retry {
            seq![first] + actions(retries + 1, events.skip(1))
        } else {
            seq![first]
        }
    }
}

/// Whether the first `n` fetches fail.
pub open spec fn fail(events: Seq<FetchEvent>, n: nat) -> bool {
    n <= events.len() && forall|i: int| 0 <= i < n ==> #[trigger] events[i] == FetchEvent::Failed
}

/// So many pauses and repeated fetches.
pub open spec fn pauses(n: nat) -> Seq<FetchAction> {
    Seq::new(n, |i: int| FetchAction::Retry(RETRY_DELAY_SECS))
}

/// As long as retries are left, each failure is followed by a pause and a retry.
proof fn lemma_failures_are_retried(retries: nat, events: Seq<FetchEvent>, n: nat)
    requires
        fail(events, n),
        retries + n <= MAX_RETRIES,
    ensures
        actions(retries, events) == pauses(n) + actions(retries + n, events.skip(n as int)),
    decreases n,
{
    if n == 0 {
        assert(events.skip(0) =~= events);
        assert(pauses(0) + actions(retries, events) =~= actions(retries, events));
    } else {
        let rest = events.skip(1);
        assert(events[0] == FetchEvent::Failed);
        assert forall|i: int| 0 <= i < n - 1 implies #[trigger] rest[i] == FetchEvent::Failed by {
            assert(rest[i] == events[i + 1]);
        }
        lemma_failures_are_retried(retries + 1, rest, (n - 1) as nat);
        assert(rest.skip(n - 1) =~= events.skip(n as int));
        assert(seq![FetchAction::Retry(RETRY_DELAY_SECS)] + pauses((n - 1) as nat) =~= pauses(n));
        assert(actions(retries, events) =~= pauses(n) + actions(
            retries + n,
            events.skip(n as int),
        ));
    }
}

/// A block that is fetched after no more failures than there are retries is handed on,
/// after a pause for each failure.
pub proof fn law_block_is_handed_on(events: Seq<FetchEvent>, failures: nat)
    requires
        fail(events, failures),
        failures <= MAX_RETRIES,
        failures < events.len(),
        events[failures as int] == FetchEvent::Fetched,
    ensures
        actions(0, events) == pauses(failures).push(FetchAction::Finish),
{
    lemma_failures_are_retried(0, events, failures);
    assert(events.skip(failures as int)[0] == FetchEvent::Fetched);
    assert(actions(0, events) =~= pauses(failures).push(FetchAction::Finish));
}

/// Where more fetches fail than there are retries, the failure is reported after all
/// retries were used.
pub proof fn law_failure_is_reported(events: Seq<FetchEvent>)
    requires
        fail(events, (MAX_RETRIES + 1) as nat),
    ensures
        actions(0, events) == pauses(MAX_RETRIES as nat).push(FetchAction::GiveUp),
{
    lemma_failures_are_retried(0, events, MAX_RETRIES as nat);
    assert(events.skip(MAX_RETRIES as int)[0] == events[MAX_RETRIES as int]);
    assert(actions(0, events) =~= pauses(MAX_RETRIES as nat).push(FetchAction::GiveUp));
}

/// A block is never fetched more often than once and once for each retry.
pub proof fn law_fetches_are_limited(retries: nat, events: Seq<FetchEvent>)
    requires
        retries <= MAX_RETRIES,
    ensures
        actions(retries, events).len() <= MAX_RETRIES + 1 - retries,
    decreases events.len(),
{
    if events.len() > 0 && action(retries, events[0]) is Retry {
        law_fetches_are_limited(retries + 1, events.skip(1));
    }
}

/// Success ends the fetching whatever came before; a failure is retried after five
/// seconds for the first five times, and reported then.
pub proof fn law_five_retries_of_five_seconds(retries: nat)
    ensures
        action(retries, FetchEvent::Fetched) == FetchAction::Finish,
        retries < 5 ==> action(retries, FetchEvent::Failed) == FetchAction::Retry(5),
        retries >= 5 ==> action(retries, FetchEvent::Failed) == FetchAction::GiveUp,
{
}

} // verus!
