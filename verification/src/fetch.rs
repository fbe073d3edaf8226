//! The retrying fetcher: how often one URL is asked for, and what happens
//! between two attempts. The request itself and the rest are the caller's.

use vstd::prelude::*;

verus! {

/// The number of attempts made on one URL at most, the first one included.
pub const MAX_ATTEMPTS: u32 = 10;

/// The milliseconds to rest between two attempts on one URL.
pub const RETRY_DELAY_MS: u64 = 100;

/// The state of fetching one URL: how many attempts were started, and
/// whether the rest before the next attempt is under way.
#[derive(Debug)]
pub struct Fetcher {
    url: String,
    attempts: u32,
    resting: bool,
}

/// What a [`Fetcher`] holds.
pub struct FetchState {
    pub url: Seq<char>,
    pub attempts: nat,
    pub resting: bool,
}

/// What came of the last thing the fetcher asked for.
#[derive(Debug, Clone, PartialEq, Eq)]
pub enum FetchReply {
    /// The request brought this text.
    Arrived(String),
    /// The request failed in transport.
    Failed,
    /// The rest is over.
    Rested,
}

/// What a [`FetchReply`] holds.
pub enum FetchEvent {
    Arrived(Seq<char>),
    Failed,
    Rested,
}

/// What is to happen next for one URL.
#[derive(Debug)]
pub enum FetchStep {
    /// Request the URL of `fetcher` and report `Arrived` or `Failed`.
    Request { fetcher: Fetcher },
    /// Rest for `millis` milliseconds and report `Rested`.
    Rest { fetcher: Fetcher, millis: u64 },
    /// The fetch is over: the text, or `None` where the URL is unavailable.
    Done(Option<String>),
}

/// What a [`FetchStep`] holds.
pub enum FetchPlan {
    Request { state: FetchState },
    Rest { state: FetchState, millis: u64 },
    Done(Option<Seq<char>>),
}

impl View for FetchReply {
    type V = FetchEvent;

    open spec fn view(&self) -> FetchEvent {
        match self {
            FetchReply::Arrived(text) => FetchEvent::Arrived(text@),
            FetchReply::Failed => FetchEvent::Failed,
            FetchReply::Rested => FetchEvent::Rested,
        }
    }
}

impl View for Fetcher {
    type V = FetchState;

    closed spec fn view(&self) -> FetchState {
        FetchState { url: self.url@, attempts: self.attempts as nat, resting: self.resting }
    }
}

impl View for FetchStep {
    type V = FetchPlan;

    open spec fn view(&self) -> FetchPlan {
        match self {
            FetchStep::Request { fetcher } => FetchPlan::Request { state: fetcher@ },
            FetchStep::Rest { fetcher, millis } => FetchPlan::Rest {
                state: fetcher@,
                millis: *millis,
            },
            FetchStep::Done(Some(text)) => FetchPlan::Done(Some(text@)),
            FetchStep::Done(None) => FetchPlan::Done(None),
        }
    }
}

/// The state in which the first attempt on `url` is due.
pub open spec fn first_attempt(url: Seq<char>) -> FetchState {
    FetchState { url, attempts: 1, resting: false }
}

/// Whether a state can come up: between one and ten attempts were started.
pub open spec fn in_bounds(state: FetchState) -> bool {
    1 <= state.attempts <= MAX_ATTEMPTS
}

/// What follows a reply. A text that arrived ends the fetch with it. A
/// failure is followed by a rest and then by the next attempt, as long as
/// fewer than ten attempts were started; after the tenth the fetch ends
/// without a text. A reply that answers nothing asked ends it too.
pub open spec fn plan_after(state: FetchState, event: FetchEvent) -> FetchPlan {
    match event {
        FetchEvent::Arrived(text) => if state.resting {
            FetchPlan::Done(None)
        } else {
            FetchPlan::Done(Some(text))
        },
        FetchEvent::Failed => if !state.resting && state.attempts < MAX_ATTEMPTS {
            FetchPlan::Rest {
                state: FetchState { resting: true, ..state },
                millis: RETRY_DELAY_MS,
            }
        } else {
            FetchPlan::Done(None)
        },
        FetchEvent::Rested => if state.resting && state.attempts < MAX_ATTEMPTS {
            FetchPlan::Request {
                state: FetchState {
                    attempts: state.attempts + 1,
                    resting: false,
                    ..state
                },
            }
        } else {
            FetchPlan::Done(None)
        },
    }
}

/// The number of requests asked for while the events are fed in one by
/// one, up to the end of the fetch or of the events.
pub open spec fn requests_asked(state: FetchState, events: Seq<FetchEvent>) -> nat
    decreases events.len(),
{
    if events.len() == 0 {
        0
    } else {
        match plan_after(state, events[0]) {
            FetchPlan::Request { state: next } => 1 + requests_asked(next, events.skip(1)),
            FetchPlan::Rest { state: next, millis } => requests_asked(next, events.skip(1)),
            FetchPlan::Done(_) => 0,
        }
    }
}

/// Whatever is reported, no more than ten attempts are ever started on one
/// URL: those already started and those still asked for.
pub proof fn lemma_attempts_bounded(state: FetchState, events: Seq<FetchEvent>)
    requires
        in_bounds(state),
    ensures
        state.attempts + requests_asked(state, events) <= MAX_ATTEMPTS,
    decreases events.len(),
{
    if events.len() > 0 {
        match plan_after(state, events[0]) {
            FetchPlan::Request { state: next } => lemma_attempts_bounded(next, events.skip(1)),
            FetchPlan::Rest { state: next, millis } => lemma_attempts_bounded(
                next,
                events.skip(1),
            ),
            FetchPlan::Done(_) => {},
        }
    }
}

/// A further attempt is asked for only when a rest is reported over, and a
/// rest only after a failure, for a tenth of a second, with the next
/// attempt held back until it is over.
pub proof fn lemma_rest_between_attempts(state: FetchState, event: FetchEvent)
    ensures
        plan_after(state, event) matches FetchPlan::Request { state: next } ==> state.resting
            && event is Rested && next.attempts == state.attempts + 1 && next.url == state.url,
        plan_after(state, event) matches FetchPlan::Rest { state: next, millis } ==> millis
            == 100 && next.resting && !state.resting && event is Failed && next.attempts
            == state.attempts && next.url == state.url,
{
}

impl Fetcher {
    #[verifier::type_invariant]
    spec fn bounded(self) -> bool {
        1 <= self.attempts <= MAX_ATTEMPTS
    }

    /// A fetcher for `url`. The first request is due at once.
    pub fn start(url: String) -> (fetcher: Fetcher)
        ensures
            fetcher@ == first_attempt(url@),
    {
        Fetcher { url, attempts: 1, resting: false }
    }

    /// The URL that this fetcher asks for.
    pub fn url(&self) -> (url: &String)
        ensures
            url@ == self@.url,
    {
        &self.url
    }

    /// The number of attempts started so far.
    pub fn attempts(&self) -> (attempts: u32)
        ensures
            attempts == self@.attempts,
            in_bounds(self@),
    {
        proof {
            use_type_invariant(self);
        }
        self.attempts
    }

    /// What is to happen after `reply`, see [`plan_after`].
    pub fn after(self, reply: FetchReply) -> (step: FetchStep)
        ensures
            step@ == plan_after(self@, reply@),
    {
        proof {
            use_type_invariant(&self);
        }
        match reply {
            FetchReply::Arrived(text) => if self.resting {
                FetchStep::Done(None)
            } else {
                FetchStep::Done(Some(text))
            },
            FetchReply::Failed => if !self.resting && self.attempts < MAX_ATTEMPTS {
                FetchStep::Rest {
                    fetcher: Fetcher { url: self.url, attempts: self.attempts, resting: true },
                    millis: RETRY_DELAY_MS,
                }
            } else {
                FetchStep::Done(None)
            },
            FetchReply::Rested => if self.resting && self.attempts < MAX_ATTEMPTS {
                FetchStep::Request {
                    fetcher: Fetcher {
                        url: self.url,
                        attempts: self.attempts + 1,
                        resting: false,
                    },
                }
            } else {
                FetchStep::Done(None)
            },
        }
    }
}

} // verus!
