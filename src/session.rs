//! Running a sequence of steps against a transport that may fail.
//!
//! The caller asks for the pending step, performs it, and reports how it went.
//! The first failure ends the session: no step after it is handed out, and the
//! session's result is that failure.

use vstd::prelude::*;
use crate::command::{models, Step, StepModel};

verus! {

/// The mathematical state of a [`Session`].
pub struct SessionModel<E> {
    /// Every step of the operation, in order.
    pub steps: Seq<StepModel>,
    /// How many steps have been handed out and answered.
    pub issued: nat,
    /// The transport error that ended the session, if one did.
    pub failure: Option<E>,
}

impl<E> SessionModel<E> {
    /// A session on `steps` before anything was done.
    pub open spec fn start(steps: Seq<StepModel>) -> SessionModel<E> {
        SessionModel { steps, issued: 0, failure: None }
    }

    /// Whether a step is still to be performed.
    pub open spec fn running(self) -> bool {
        self.failure is None && self.issued < self.steps.len()
    }

    /// The step to perform next, if the session is still running.
    pub open spec fn pending(self) -> Option<StepModel> {
        if self.running() {
            Some(self.steps[self.issued as int])
        } else {
            None
        }
    }

    /// The state after the pending step was performed with `outcome`.
    pub open spec fn complete(self, outcome: Result<(), E>) -> SessionModel<E> {
        SessionModel {
            steps: self.steps,
            issued: self.issued + 1,
            failure: match outcome {
                Ok(_) => None,
                Err(e) => Some(e),
            },
        }
    }

    /// What the operation returns once the session has stopped.
    pub open spec fn result(self) -> Result<(), E> {
        match self.failure {
            None => Ok(()),
            Some(e) => Err(e),
        }
    }

    /// The state after the transport answered the pending steps with
    /// `outcomes`, one by one, for as long as the session kept running.
    pub open spec fn feed(self, outcomes: Seq<Result<(), E>>) -> SessionModel<E>
        decreases outcomes.len(),
    {
        if outcomes.len() == 0 || !self.running() {
            self
        } else {
            self.complete(outcomes[0]).feed(outcomes.drop_first())
        }
    }
}

/// An operation on the panel in progress: its steps and how far it got.
pub struct Session<E> {
    steps: Vec<Step>,
    pos: usize,
    failure: Option<E>,
}

impl<E> View for Session<E> {
    type V = SessionModel<E>;

    closed spec fn view(&self) -> SessionModel<E> {
        SessionModel { steps: models(self.steps@), issued: self.pos as nat, failure: self.failure }
    }
}

impl<E> Session<E> {
    /// A session that will perform `steps` in order.
    pub fn new(steps: Vec<Step>) -> (r: Session<E>)
        ensures
            r@ == SessionModel::<E>::start(models(steps@)),
    {
        Session { steps, pos: 0, failure: None }
    }

    /// The step to perform next, or `None` once the session has stopped.
    pub fn pending(&self) -> (r: Option<&Step>)
        ensures
            r is Some <==> self@.running(),
            r is Some ==> self@.pending() == Some(r->0@),
    {
        let failed = match &self.failure {
            Some(_) => true,
            None => false,
        };
        if !failed && self.pos < self.steps.len() {
            Some(&self.steps[self.pos])
        } else {
            None
        }
    }

    /// Whether the session is still running.
    pub fn is_running(&self) -> (r: bool)
        ensures
            r == self@.running(),
    {
        self.pending().is_some()
    }

    /// Records how the pending step went.
    pub fn complete(&mut self, outcome: Result<(), E>)
        requires
            old(self)@.running(),
        ensures
            final(self)@ == old(self)@.complete(outcome),
    {
        let n = self.steps.len();
        assert(self.pos < n);
        self.pos = self.pos + 1;
        match outcome {
            Ok(_) => {},
            Err(e) => {
                self.failure = Some(e);
            },
        }
    }

    /// The operation's result: the error that stopped it, or success.
    pub fn finish(self) -> (r: Result<(), E>)
        ensures
            r == self@.result(),
    {
        match self.failure {
            None => Ok(()),
            Some(e) => Err(e),
        }
    }
}

/// A session stops at the first failed step. If the transport accepts the
/// first `k` steps and rejects the next one with `e`, exactly `k + 1` steps are
/// handed out, none after the rejected one, and the operation returns `e`.
pub proof fn lemma_first_failure_ends<E>(
    steps: Seq<StepModel>,
    outcomes: Seq<Result<(), E>>,
    k: nat,
    e: E,
)
    requires
        k < steps.len(),
        k < outcomes.len(),
        forall|i: int| 0 <= i < k ==> outcomes[i] is Ok,
        outcomes[k as int] == Err::<(), E>(e),
    ensures
        SessionModel::<E>::start(steps).feed(outcomes).issued == k + 1,
        !SessionModel::<E>::start(steps).feed(outcomes).running(),
        SessionModel::<E>::start(steps).feed(outcomes).result() == Err::<(), E>(e),
{
    lemma_feed_prefix_ok(SessionModel::<E>::start(steps), outcomes, k);
}

/// A session succeeds when the transport accepts every step. If the first
/// `steps.len()` outcomes are all successes, every step is handed out, in
/// order, and the operation returns `Ok`.
pub proof fn lemma_all_accepted_succeeds<E>(steps: Seq<StepModel>, outcomes: Seq<Result<(), E>>)
    requires
        steps.len() <= outcomes.len(),
        forall|i: int| 0 <= i < steps.len() ==> outcomes[i] is Ok,
    ensures
        SessionModel::<E>::start(steps).feed(outcomes).issued == steps.len(),
        !SessionModel::<E>::start(steps).feed(outcomes).running(),
        SessionModel::<E>::start(steps).feed(outcomes).result() == Ok::<(), E>(()),
{
    lemma_feed_all_ok(SessionModel::<E>::start(steps), outcomes);
}

proof fn lemma_feed_prefix_ok<E>(s: SessionModel<E>, outcomes: Seq<Result<(), E>>, k: nat)
    requires
        s.failure is None,
        s.issued + k < s.steps.len(),
        k < outcomes.len(),
        forall|i: int| 0 <= i < k ==> outcomes[i] is Ok,
        outcomes[k as int] is Err,
    ensures
        s.feed(outcomes).issued == s.issued + k + 1,
        !s.feed(outcomes).running(),
        s.feed(outcomes).failure == Some(outcomes[k as int]->Err_0),
    decreases k,
{
    let next = s.complete(outcomes[0]);
    if k > 0 {
        assert forall|i: int| 0 <= i < (k - 1) as nat implies outcomes.drop_first()[i] is Ok by {
            assert(outcomes.drop_first()[i] == outcomes[i + 1]);
        }
        lemma_feed_prefix_ok(next, outcomes.drop_first(), (k - 1) as nat);
    } else {
        assert(!next.running());
        assert(next.feed(outcomes.drop_first()) == next);
    }
}

proof fn lemma_feed_all_ok<E>(s: SessionModel<E>, outcomes: Seq<Result<(), E>>)
    requires
        s.failure is None,
        s.issued <= s.steps.len(),
        s.steps.len() - s.issued <= outcomes.len(),
        forall|i: int| 0 <= i < s.steps.len() - s.issued ==> outcomes[i] is Ok,
    ensures
        s.feed(outcomes).steps == s.steps,
        s.feed(outcomes).issued == s.steps.len(),
        s.feed(outcomes).failure is None,
    decreases outcomes.len(),
{
    if s.running() {
        let next = s.complete(outcomes[0]);
        assert forall|i: int| 0 <= i < next.steps.len() - next.issued implies outcomes.drop_first()[i] is Ok by {
            assert(outcomes.drop_first()[i] == outcomes[i + 1]);
        }
        lemma_feed_all_ok(next, outcomes.drop_first());
    }
}

} // verus!
