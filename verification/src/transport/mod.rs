//! Transports: the ways a notification reaches its destination.
use vstd::prelude::*;

use crate::cli::TransportKind;
use crate::text::{decimal, decimal_string};
use crate::transport::http::{asks, Http, HttpSetup, SetupAction, SetupStage, NAME_PROMPT};

pub mod http;
pub mod params;
pub mod smtp_direct;
pub mod smtp_relay;

verus! {

/// What every transport offers: a name that tells it apart from the others
/// of a configuration.
pub trait TransportService {
    /// The name of the transport, as text.
    spec fn transport_name(&self) -> Seq<char>;

    /// The name of the transport.
    fn name(&self) -> (r: &str)
        ensures
            r@ == self.transport_name(),
    ;
}

/// A way to send a notification to one destination.
pub enum Transport {
    Http(Http),
}

impl TransportService for Transport {
    open spec fn transport_name(&self) -> Seq<char> {
        match self {
            Transport::Http(h) => h.transport_name(),
        }
    }

    fn name(&self) -> (r: &str) {
        match self {
            Transport::Http(h) => h.name(),
        }
    }
}

impl Transport {
    /// How the transport is shown to a user: its kind in brackets, then its
    /// name.
    pub fn display(&self) -> (r: String)
        ensures
            r@ == "[HTTP] "@ + self.transport_name(),
    {
        match self {
            Transport::Http(h) => {
                let mut s = "[HTTP] ".to_owned();
                s.append(h.name());
                s
            },
        }
    }
}

/// Starts the interactive set-up of a transport of the given kind; the set-up
/// first asks for the transport's name.
pub fn configure_transport(kind: TransportKind) -> (r: (HttpSetup, SetupAction))
    ensures
        r.0@.stage == SetupStage::Name,
        r.0@.name.len() == 0,
        r.0@.uri.len() == 0,
        r.0@.json_body == false,
        r.0@.headers is None,
        r.0@.query_params is None,
        asks(r.1, NAME_PROMPT@),
{
    match kind {
        TransportKind::Http => HttpSetup::new(),
    }
}

/// The next step of a run through several destinations that stops at the
/// first that succeeds.
#[derive(Debug, PartialEq, Eq, Structural)]
pub enum Attempt {
    /// Try the destination with this index.
    Try(usize),
    /// One of them succeeded.
    Succeeded,
    /// Every one of them failed.
    Exhausted,
}

/// Of `count` destinations tried in order, with `outcomes` the results of
/// the tries made so far: what comes next.
pub open spec fn attempt_after(count: nat, outcomes: Seq<bool>) -> Attempt {
    if outcomes.contains(true) {
        Attempt::Succeeded
    } else if outcomes.len() < count {
        Attempt::Try(outcomes.len() as usize)
    } else {
        Attempt::Exhausted
    }
}

/// Of `count` destinations tried in order, with `outcomes` the results of the
/// tries made so far: the one to try next, or how the run ended.
pub fn next_attempt(count: usize, outcomes: &Vec<bool>) -> (r: Attempt)
    ensures
        r == attempt_after(count as nat, outcomes@),
{
    let mut i: usize = 0;
    while i < outcomes.len()
        invariant
            i <= outcomes@.len(),
            forall|j: int| 0 <= j < i ==> !outcomes@[j],
        decreases outcomes@.len() - i,
    {
        if outcomes[i] {
            assert(outcomes@[i as int] == true);
            return Attempt::Succeeded;
        }
        i = i + 1;
    }
    assert(!outcomes@.contains(true));
    if outcomes.len() < count {
        Attempt::Try(outcomes.len())
    } else {
        Attempt::Exhausted
    }
}

/// The next step of sending a notification through the first transport that
/// accepts it.
#[derive(Debug, PartialEq, Eq, Structural)]
pub enum NotifyStep {
    /// Send through the transport with this index.
    Send(usize),
    /// Nothing more is to be sent.
    Done,
}

/// Why a notification was not sent.
#[derive(Debug, PartialEq, Eq, Structural)]
pub enum NotifyError {
    /// Each of this many transports failed.
    AllFailed(usize),
}

impl NotifyError {
    /// The text that describes the error.
    pub fn message(&self) -> (r: String)
        ensures
            self matches NotifyError::AllFailed(n) && r@ == "Failed to send notification via all "@
                + decimal(n as nat) + " transports"@,
    {
        match self {
            NotifyError::AllFailed(n) => {
                let mut s = "Failed to send notification via all ".to_owned();
                let digits = decimal_string(*n as u64);
                s.append(digits.as_str());
                s.append(" transports");
                s
            },
        }
    }
}

/// With `count` transports, of which those tried so far gave `outcomes`:
/// send through the next one while none has succeeded; when all have failed,
/// fail if `bail_on_fail`, else finish quietly.
pub open spec fn notify_after(count: nat, bail_on_fail: bool, outcomes: Seq<bool>) -> Result<
    NotifyStep,
    NotifyError,
> {
    match attempt_after(count, outcomes) {
        Attempt::Try(i) => Ok(NotifyStep::Send(i)),
        Attempt::Succeeded => Ok(NotifyStep::Done),
        Attempt::Exhausted => if bail_on_fail {
            Err(NotifyError::AllFailed(count as usize))
        } else {
            Ok(NotifyStep::Done)
        },
    }
}

/// Sends a notification through the first of `count` transports that
/// accepts it: given the outcomes of the sends made so far, in order, says
/// which transport to send through next, or that the run is over.
pub fn notify_first(count: usize, bail_on_fail: bool, outcomes: &Vec<bool>) -> (r: Result<
    NotifyStep,
    NotifyError,
>)
    ensures
        r == notify_after(count as nat, bail_on_fail, outcomes@),
{
    match next_attempt(count, outcomes) {
        Attempt::Try(i) => Ok(NotifyStep::Send(i)),
        Attempt::Succeeded => Ok(NotifyStep::Done),
        Attempt::Exhausted => if bail_on_fail {
            Err(NotifyError::AllFailed(count))
        } else {
            Ok(NotifyStep::Done)
        },
    }
}

/// Transports are tried one after the other, in order, each at most once:
/// while the first `k` have failed, the next to try is transport `k`; once one
/// succeeds nothing more is sent; and when all fail, the run fails exactly when
/// `bail_on_fail` is set.
pub proof fn law_notify_first_in_order(count: nat, bail_on_fail: bool, all: Seq<bool>, k: nat)
    requires
        all.len() == count,
        count <= usize::MAX,
        k <= count,
    ensures
        (forall|j: int| 0 <= j < k ==> !all[j]) && k < count ==> notify_after(
            count,
            bail_on_fail,
            all.take(k as int),
        ) == Ok::<NotifyStep, NotifyError>(NotifyStep::Send(k as usize)),
        (0 < k && all[k - 1]) ==> notify_after(count, bail_on_fail, all.take(k as int)) == Ok::<
            NotifyStep,
            NotifyError,
        >(NotifyStep::Done),
        (forall|j: int| 0 <= j < count ==> !all[j]) ==> notify_after(count, bail_on_fail, all) == (
        if bail_on_fail {
            Err::<NotifyStep, NotifyError>(NotifyError::AllFailed(count as usize))
        } else {
            Ok::<NotifyStep, NotifyError>(NotifyStep::Done)
        }),
{
    let t = all.take(k as int);
    if forall|j: int| 0 <= j < k ==> !all[j] {
        assert(!t.contains(true)) by {
            if t.contains(true) {
                let j = choose|j: int| 0 <= j < t.len() && t[j] == true;
                assert(all[j] == t[j]);
            }
        }
    }
    if 0 < k && all[k - 1] {
        assert(t[k - 1] == true);
        assert(t.contains(true));
    }
    if forall|j: int| 0 <= j < count ==> !all[j] {
        assert(!all.contains(true));
    }
}

} // verus!
