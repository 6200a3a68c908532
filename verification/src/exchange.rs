//! The token exchange chain: the ordered, dependent hops that turn a refresh
//! credential or an interactive login into fresh tokens.
//!
//! Each hop is a network round-trip whose request is built from the previous
//! hop's response. The library owns the sequencing and the error semantics:
//! hops complete strictly in order, a failing hop aborts the whole run with
//! an error naming that hop, and every run starts clean. The round-trips
//! themselves are performed by the caller, which reports each hop's fate
//! back to the chain.

use vstd::prelude::*;

verus! {

/// Fresh material minted by a completed exchange chain.
#[derive(Debug)]
pub struct FreshTokens {
    /// The new short-lived access token for the game service.
    pub access_token: String,
    /// How long the token lives, in seconds from the moment it was minted.
    pub access_token_ttl_seconds: u64,
    /// The (typically rotated) long-lived refresh credential.
    pub refresh_credential: String,
}

/// The mathematical value of fresh tokens.
pub ghost struct FreshView {
    pub token: Seq<char>,
    pub ttl: int,
    pub refresh: Seq<char>,
}

impl View for FreshTokens {
    type V = FreshView;

    open spec fn view(&self) -> FreshView {
        FreshView {
            token: self.access_token@,
            ttl: self.access_token_ttl_seconds as int,
            refresh: self.refresh_credential@,
        }
    }
}

/// A named hop of the exchange chain failed. Raised from a refresh run it is
/// recoverable; raised from an interactive run it ends the operation.
#[derive(Debug)]
pub struct ExchangeError {
    /// The hop that failed, so an expired credential reads differently from
    /// an unreachable identity service.
    pub step: String,
    /// What went wrong at that hop.
    pub cause: String,
}

/// The mathematical value of an exchange error.
pub ghost struct ExchangeErrorView {
    pub step: Seq<char>,
    pub cause: Seq<char>,
}

impl View for ExchangeError {
    type V = ExchangeErrorView;

    open spec fn view(&self) -> ExchangeErrorView {
        ExchangeErrorView { step: self.step@, cause: self.cause@ }
    }
}

/// One run of the exchange chain: a fixed list of hop names, how many have
/// completed, and the failure that aborted the run, if one did.
pub struct TokenChain {
    steps: Vec<String>,
    next: usize,
    failed: Option<ExchangeError>,
}

impl TokenChain {
    /// The ordered hop names of this run.
    pub closed spec fn step_names(&self) -> Seq<Seq<char>> {
        self.steps@.map_values(|s: String| s@)
    }

    /// How many hops have completed, strictly in order.
    pub closed spec fn completed(&self) -> int {
        self.next as int
    }

    /// The failure that aborted the run, if any.
    pub closed spec fn failure(&self) -> Option<ExchangeErrorView> {
        match self.failed {
            Some(e) => Some(e@),
            None => None,
        }
    }

    /// A chain never completes more hops than it has, and a failure freezes
    /// it at the hop that failed.
    pub closed spec fn wf(&self) -> bool {
        &&& self.next as int <= self.steps@.len()
        &&& (self.failed matches Some(e) ==> ((self.next as int) < self.steps@.len() && e.step@
            == self.step_names()[self.next as int]))
    }

    /// Starts a clean run over the given hop names; nothing carries over
    /// from any earlier attempt.
    pub fn begin(steps: Vec<String>) -> (chain: TokenChain)
        ensures
            chain.wf(),
            chain.step_names() == steps@.map_values(|s: String| s@),
            chain.completed() == 0,
            chain.failure() is None,
    {
        TokenChain { steps, next: 0, failed: None }
    }

    /// The hop the caller must perform next, or nothing when the run has
    /// finished or aborted.
    pub fn current_step(&self) -> (r: Option<&String>)
        requires
            self.wf(),
        ensures
            self.failure() is None && self.completed() < self.step_names().len() ==> (
            r matches Some(s) && s@ == self.step_names()[self.completed()]),
            !(self.failure() is None && self.completed() < self.step_names().len()) ==> r is None,
    {
        if self.failed.is_some() {
            None
        } else if self.next < self.steps.len() {
            Some(&self.steps[self.next])
        } else {
            None
        }
    }

    /// Records that the pending hop succeeded; the chain moves to the next.
    pub fn record_success(&mut self)
        requires
            old(self).wf(),
            old(self).failure() is None,
            old(self).completed() < old(self).step_names().len(),
        ensures
            final(self).wf(),
            final(self).step_names() == old(self).step_names(),
            final(self).completed() == old(self).completed() + 1,
            final(self).failure() is None,
    {
        let total = self.steps.len();
        assert(self.next < total);
        self.next = self.next + 1;
    }

    /// Records that the pending hop failed: the run aborts with an error
    /// naming exactly that hop, and no further hop is offered.
    pub fn record_failure(&mut self, cause: String)
        requires
            old(self).wf(),
            old(self).failure() is None,
            old(self).completed() < old(self).step_names().len(),
        ensures
            final(self).wf(),
            final(self).step_names() == old(self).step_names(),
            final(self).completed() == old(self).completed(),
            final(self).failure() matches Some(e) && e.step == old(self).step_names()[old(
                self,
            ).completed()] && e.cause == cause@,
    {
        let step = self.steps[self.next].clone();
        self.failed = Some(ExchangeError { step, cause });
    }

    /// Whether every hop completed, so the caller may read the final tokens.
    pub fn is_complete(&self) -> (b: bool)
        requires
            self.wf(),
        ensures
            b == (self.failure() is None && self.completed() == self.step_names().len()),
    {
        self.failed.is_none() && self.next == self.steps.len()
    }

    /// Surrenders the failure of an aborted run.
    pub fn into_failure(self) -> (r: Option<ExchangeError>)
        ensures
            self.failure() matches Some(e) ==> (r matches Some(err) && err@ == e),
            self.failure() is None ==> r is None,
    {
        self.failed
    }
}

/// Bounded poll discipline for the interactive wait: a fixed number of
/// attempts, after which the wait must be abandoned rather than hang.
pub struct PollBudget {
    remaining: u32,
}

impl PollBudget {
    /// How many attempts are still allowed.
    pub closed spec fn remaining(&self) -> int {
        self.remaining as int
    }

    /// A budget of the given number of attempts.
    pub fn new(attempts: u32) -> (b: PollBudget)
        ensures
            b.remaining() == attempts as int,
    {
        PollBudget { remaining: attempts }
    }

    /// Spends one attempt; once the budget is exhausted it stays exhausted,
    /// so a poll loop guarded by it always terminates.
    pub fn try_spend(&mut self) -> (granted: bool)
        ensures
            granted ==> old(self).remaining() > 0 && final(self).remaining() == old(
                self,
            ).remaining() - 1,
            !granted ==> old(self).remaining() == 0 && final(self).remaining() == 0,
    {
        if self.remaining > 0 {
            self.remaining = self.remaining - 1;
            true
        } else {
            false
        }
    }
}

} // verus!
