//! Retry/recovery policy: how a status byte is interpreted, how attempts
//! are counted, and how the connection-open handshake retries.
//!
//! The embedding program runs the attempt loops (each attempt is a chunked
//! read, and re-initialization is itself a sequence of exchanges); every
//! decision in those loops is taken by the functions here.

use vstd::prelude::*;

use crate::CamError;

verus! {

/// The action taken upon the status byte of a response.
#[derive(Debug, Clone, Copy, PartialEq, Eq, Structural)]
pub enum StatusByteAction {
    /// Interpret the status byte and retry or fail accordingly.
    Evaluate,
    /// Return the raw response unconditionally; the leading byte is payload.
    Ignore,
    /// Return the raw response unless the power-save sentinel is seen.
    IgnoreButRetryIfPowerSaving,
}

/// What one attempt's response leads to.
#[derive(Debug, Clone, Copy, PartialEq, Eq, Structural)]
pub enum ResponseVerdict {
    /// Deliver the response to the caller as the exchange's result.
    Accept,
    /// Power-save sentinel: re-run the connection-open handshake, then
    /// continue with the next attempt.
    Reinitialize,
    /// Consume one attempt and try again.
    Retry,
    /// The response was empty although the status byte had to be read.
    Reject,
}

/// The status-byte interpretation table. Status 0 and 1 are success; 255 is
/// the power-save sentinel; under `IgnoreButRetryIfPowerSaving` any other
/// value is payload; otherwise 2 (fail signal), 3 (retry requested) and
/// every unknown value draw a retry. Under `Ignore` the response is
/// delivered without inspection, even when empty.
pub open spec fn response_verdict(action: StatusByteAction, response: Seq<u8>) -> ResponseVerdict {
    if action is Ignore {
        ResponseVerdict::Accept
    } else if response.len() == 0 {
        ResponseVerdict::Reject
    } else if response[0] == 0 || response[0] == 1 {
        ResponseVerdict::Accept
    } else if response[0] == 255 {
        ResponseVerdict::Reinitialize
    } else if action is IgnoreButRetryIfPowerSaving {
        ResponseVerdict::Accept
    } else {
        ResponseVerdict::Retry
    }
}

/// Applies the status-byte interpretation table to one response.
pub fn classify_response(action: StatusByteAction, response: &[u8]) -> (v: ResponseVerdict)
    ensures
        v == response_verdict(action, response@),
{
    match action {
        StatusByteAction::Ignore => ResponseVerdict::Accept,
        _ => {
            if response.len() == 0 {
                ResponseVerdict::Reject
            } else {
                let status = response[0];
                if status == 0 || status == 1 {
                    ResponseVerdict::Accept
                } else if status == 255 {
                    ResponseVerdict::Reinitialize
                } else if matches!(action, StatusByteAction::IgnoreButRetryIfPowerSaving) {
                    ResponseVerdict::Accept
                } else {
                    ResponseVerdict::Retry
                }
            }
        },
    }
}

/// The error for a response that was empty although its status byte had to
/// be inspected.
pub fn empty_response_error() -> (e: CamError)
    ensures
        e == (CamError::InvalidLength { expected: 1, received: 0 }),
{
    CamError::InvalidLength { expected: 1, received: 0 }
}

/// Attempt accounting for one command exchange: `budget` is one initial
/// attempt plus the configured retry count, `used` the attempts consumed.
pub struct RetrySession {
    pub budget: u32,
    pub used: u32,
}

impl RetrySession {
    pub open spec fn wf(&self) -> bool {
        self.used <= self.budget
    }

    /// A fresh session: one attempt plus `default_tries` retries.
    pub fn new(default_tries: u32) -> (s: RetrySession)
        requires
            default_tries < u32::MAX,
        ensures
            s.wf(),
            s.budget == default_tries + 1,
            s.used == 0,
    {
        RetrySession { budget: default_tries + 1, used: 0 }
    }

    /// Whether the budget still allows another attempt.
    pub fn can_attempt(&self) -> (b: bool)
        ensures
            b <==> self.used < self.budget,
    {
        self.used < self.budget
    }

    /// Consumes one attempt. A re-initialization round consumes an attempt
    /// exactly like an ordinary retry.
    pub fn record_attempt(&mut self)
        requires
            old(self).wf(),
            old(self).used < old(self).budget,
        ensures
            final(self).wf(),
            final(self).budget == old(self).budget,
            final(self).used == old(self).used + 1,
    {
        self.used = self.used + 1;
    }

    /// The command-exhausted error, carrying the full attempt budget.
    pub fn exhausted_error(&self) -> (e: CamError)
        ensures
            e == (CamError::SendCommand { tries: self.budget, status_code: 0 }),
    {
        CamError::SendCommand { tries: self.budget, status_code: 0 }
    }
}

/// Outcome of running the retry policy against a sequence of responses.
pub enum PolicyOutcome {
    /// Some attempt's response was delivered to the caller.
    Delivered { response: Seq<u8> },
    /// An attempt returned an empty response that had to be inspected.
    EmptyResponse,
    /// The attempt budget ran out without a terminal verdict.
    Exhausted,
}

/// The retry policy over a whole exchange: attempt by attempt, the next
/// response is classified; `Accept` delivers it, `Reject` fails, and both
/// `Retry` and `Reinitialize` consume one unit of budget and continue.
pub open spec fn run_policy(
    action: StatusByteAction,
    responses: Seq<Seq<u8>>,
    budget: nat,
) -> PolicyOutcome
    decreases budget,
{
    if budget == 0 || responses.len() == 0 {
        PolicyOutcome::Exhausted
    } else {
        match response_verdict(action, responses[0]) {
            ResponseVerdict::Accept => PolicyOutcome::Delivered { response: responses[0] },
            ResponseVerdict::Reject => PolicyOutcome::EmptyResponse,
            ResponseVerdict::Reinitialize => run_policy(
                action,
                responses.drop_first(),
                (budget - 1) as nat,
            ),
            ResponseVerdict::Retry => run_policy(action, responses.drop_first(), (budget - 1) as nat),
        }
    }
}

/// Retry exhaustion law: when every response draws a retrying verdict —
/// an ordinary retry or a power-save re-initialization — the exchange ends
/// exhausted after consuming the whole attempt budget, whatever that budget
/// is.
pub proof fn lemma_retry_exhaustion(action: StatusByteAction, responses: Seq<Seq<u8>>, budget: nat)
    requires
        forall|i: int| 0 <= i < responses.len() ==> {
            let v = response_verdict(action, #[trigger] responses[i]);
            v is Retry || v is Reinitialize
        },
    ensures
        run_policy(action, responses, budget) is Exhausted,
    decreases budget,
{
    if budget == 0 || responses.len() == 0 {
    } else {
        assert(forall|i: int| 0 <= i < responses.drop_first().len() ==> #[trigger] responses.drop_first()[i]
            == responses[i + 1]);
        lemma_retry_exhaustion(action, responses.drop_first(), (budget - 1) as nat);
    }
}

/// Immediate delivery law: while budget remains, an accepted response is
/// delivered at once, exactly as received.
pub proof fn lemma_retry_delivery(action: StatusByteAction, responses: Seq<Seq<u8>>, budget: nat)
    requires
        budget > 0,
        responses.len() > 0,
        response_verdict(action, responses[0]) is Accept,
    ensures
        run_policy(action, responses, budget) == (PolicyOutcome::Delivered {
            response: responses[0],
        }),
{
}

/// What one connection-open response leads to.
#[derive(Debug, Clone, Copy, PartialEq, Eq, Structural)]
pub enum InitStep {
    /// Byte 0 was 0: the connection is initialized.
    Success,
    /// Byte 0 was 1: retry after a short fixed delay.
    RetryLater,
    /// Any other leading byte: terminal failure with that status attached.
    Fail { status_code: u8 },
}

/// Classifies one response of the connection-open handshake.
pub fn classify_init_response(response: &[u8]) -> (r: Result<InitStep, CamError>)
    ensures
        response@.len() == 0 ==> r == Err::<InitStep, CamError>(
            CamError::InvalidLength { expected: 1, received: 0 },
        ),
        response@.len() > 0 && response@[0] == 0 ==> r == Ok::<InitStep, CamError>(
            InitStep::Success,
        ),
        response@.len() > 0 && response@[0] == 1 ==> r == Ok::<InitStep, CamError>(
            InitStep::RetryLater,
        ),
        response@.len() > 0 && response@[0] != 0 && response@[0] != 1 ==> r == Ok::<
            InitStep,
            CamError,
        >(InitStep::Fail { status_code: response@[0] }),
{
    if response.len() == 0 {
        return Err(CamError::InvalidLength { expected: 1, received: 0 });
    }
    let status = response[0];
    if status == 0 {
        Ok(InitStep::Success)
    } else if status == 1 {
        Ok(InitStep::RetryLater)
    } else {
        Ok(InitStep::Fail { status_code: status })
    }
}

/// Attempt accounting for the connection-open handshake.
pub struct InitSession {
    pub budget: u32,
    pub used: u32,
}

impl InitSession {
    pub open spec fn wf(&self) -> bool {
        self.used <= self.budget
    }

    /// A fresh handshake session with `default_tries` iterations.
    pub fn new(default_tries: u32) -> (s: InitSession)
        ensures
            s.wf(),
            s.budget == default_tries,
            s.used == 0,
    {
        InitSession { budget: default_tries, used: 0 }
    }

    /// Whether another handshake iteration is allowed.
    pub fn can_attempt(&self) -> (b: bool)
        ensures
            b <==> self.used < self.budget,
    {
        self.used < self.budget
    }

    /// Consumes one handshake iteration.
    pub fn record_attempt(&mut self)
        requires
            old(self).wf(),
            old(self).used < old(self).budget,
        ensures
            final(self).wf(),
            final(self).budget == old(self).budget,
            final(self).used == old(self).used + 1,
    {
        self.used = self.used + 1;
    }

    /// The terminal error for a response whose status refuses the handshake.
    pub fn failure_error(&self, status_code: u8) -> (e: CamError)
        ensures
            e == (CamError::ConnInit { tries: 1, status_code: status_code as u32 }),
    {
        CamError::ConnInit { tries: 1, status_code: status_code as u32 }
    }

    /// The terminal error when every handshake iteration asked to retry.
    pub fn exhausted_error(&self) -> (e: CamError)
        ensures
            e == (CamError::ConnInit { tries: self.budget, status_code: 1 }),
    {
        CamError::ConnInit { tries: self.budget, status_code: 1 }
    }
}

} // verus!
