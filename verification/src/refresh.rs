//! The token exchange, written as a machine: it is told what each attempt
//! brought and answers with what to do next. Whoever drives it sends the
//! requests and does the waiting.

use vstd::prelude::*;
use vstd::string::*;
use crate::error::{Auth0ApiError, Auth0Error, Auth0ErrorView};
use crate::response::{
    is_success, parse_retry_after, retry_after_seconds, status_is_success, HttpReply,
};
use crate::retry::{is_retryable_status, retry_after_millis, status_is_retryable, RetryConfig};
use crate::text::{decimal_text, push_decimal};
use crate::token::TokenGrant;

verus! {

/// What one attempt of the token exchange brought: a response, or the
/// failure to get one.
pub type AttemptOutcome = Result<HttpReply<TokenGrant>, reqwest::Error>;

/// The token exchange before one of its attempts.
#[derive(Debug)]
pub struct TokenRefresh {
    /// The retry policy.
    pub config: RetryConfig,
    /// The attempt that is under way; 0 is the first.
    pub attempt: u32,
    /// The wait before the next attempt, unless the server names its own.
    pub delay_ms: u64,
}

/// What to do after an attempt.
#[derive(Debug)]
pub enum RefreshStep {
    /// Wait `wait_ms` milliseconds, then make the next attempt and tell
    /// `next` what it brought.
    Retry { wait_ms: u128, next: TokenRefresh },
    /// The exchange is over: this is the grant.
    Success(TokenGrant),
    /// The exchange is over: it failed.
    Failure(Auth0Error),
}

/// A `RefreshStep` with its texts as character sequences.
pub enum RefreshStepView {
    Retry { wait_ms: nat, next: TokenRefresh },
    Success { access_token: Seq<char>, expires_in: u64 },
    Failure(Auth0ErrorView),
}

impl View for RefreshStep {
    type V = RefreshStepView;

    open spec fn view(&self) -> RefreshStepView {
        match *self {
            RefreshStep::Retry { wait_ms, next } => RefreshStepView::Retry {
                wait_ms: wait_ms as nat,
                next,
            },
            RefreshStep::Success(grant) => RefreshStepView::Success {
                access_token: grant.access_token@,
                expires_in: grant.expires_in,
            },
            RefreshStep::Failure(e) => RefreshStepView::Failure(e@),
        }
    }
}

/// The message of the failure after the last attempt was answered with the
/// retryable status `status`.
pub open spec fn exhausted_message(status: u16) -> Seq<char> {
    "token endpoint answered with status "@ + decimal_text(status as nat)
}

/// The message of the failure after a status that is not retried: the
/// body's `message`, or else its `error`, or else nothing.
pub open spec fn rejection_message(body: Option<Auth0ApiError>) -> Seq<char> {
    match body {
        Some(b) => match b.summary() {
            Some(short) => short,
            None => Seq::empty(),
        },
        None => Seq::empty(),
    }
}

/// The seconds that the server asked to wait: those of the `retry-after`
/// header of a 429 response. No other outcome asks for a wait.
pub open spec fn asked_wait(outcome: AttemptOutcome) -> Option<u64> {
    match outcome {
        Ok(reply) => if reply.status == 429 {
            retry_after_seconds(reply.retry_after)
        } else {
            None
        },
        Err(_) => None,
    }
}

/// Whether `outcome` is one after which the exchange is tried again while
/// attempts remain: no response at all, or a response with a retryable
/// status.
pub open spec fn outcome_is_retryable(outcome: AttemptOutcome) -> bool {
    match outcome {
        Ok(reply) => status_is_retryable(reply.status),
        Err(_) => true,
    }
}

/// The failure that ends the exchange when `outcome` is retryable and no
/// attempt remains: the transport's own error, or an authentication error
/// that names the status.
pub open spec fn exhausted_failure(outcome: AttemptOutcome) -> Auth0ErrorView {
    match outcome {
        Ok(reply) => Auth0ErrorView::Authentication { message: exhausted_message(reply.status) },
        Err(e) => Auth0ErrorView::Http(e),
    }
}

/// How an exchange went: the attempts that were made, and the step that
/// ended it, if it has ended.
pub struct RunView {
    pub attempts: nat,
    pub end: Option<RefreshStepView>,
}

impl TokenRefresh {
    /// The state in which the exchange starts under `config`.
    pub open spec fn initial(config: RetryConfig) -> TokenRefresh {
        TokenRefresh { config, attempt: 0, delay_ms: config.scheduled(1) as u64 }
    }

    /// The wait before the next attempt where the server asked for `asked`.
    pub open spec fn wait_for(self, asked: Option<u64>) -> nat {
        match asked {
            Some(seconds) => retry_after_millis(seconds),
            None => self.delay_ms as nat,
        }
    }

    /// The state after a wait that the server may have set.
    pub open spec fn after_wait(self, asked: Option<u64>) -> TokenRefresh {
        TokenRefresh {
            config: self.config,
            attempt: (self.attempt + 1) as u32,
            delay_ms: self.config.advanced(self.wait_for(asked)) as u64,
        }
    }

    /// What follows when the attempt under way brought `outcome`.
    ///
    /// A response with a success status ends the exchange: with the grant,
    /// or with the decoding error where the body is no grant. A retryable
    /// outcome leads to another attempt as long as fewer than `max_retries`
    /// retries were made, after the wait that the server asked for or else
    /// the current delay; with no retry left it ends the exchange. Any other
    /// status ends it at once.
    pub open spec fn step(self, outcome: AttemptOutcome) -> RefreshStepView {
        if outcome_is_retryable(outcome) {
            if self.attempt < self.config.max_retries {
                RefreshStepView::Retry {
                    wait_ms: self.wait_for(asked_wait(outcome)),
                    next: self.after_wait(asked_wait(outcome)),
                }
            } else {
                RefreshStepView::Failure(exhausted_failure(outcome))
            }
        } else {
            let reply = outcome->Ok_0;
            if status_is_success(reply.status) {
                match reply.payload {
                    Ok(grant) => RefreshStepView::Success {
                        access_token: grant.access_token@,
                        expires_in: grant.expires_in,
                    },
                    Err(e) => RefreshStepView::Failure(Auth0ErrorView::Json(e)),
                }
            } else {
                RefreshStepView::Failure(
                    Auth0ErrorView::Authentication { message: rejection_message(reply.error) },
                )
            }
        }
    }

    /// Starts the exchange: the first attempt is made at once.
    pub fn start(config: RetryConfig) -> (machine: Self)
        ensures
            machine == Self::initial(config),
    {
        TokenRefresh { config, attempt: 0, delay_ms: config.first_delay() }
    }

    /// Schedules the next attempt.
    fn retry(self, asked: Option<u64>) -> (step: RefreshStep)
        requires
            self.attempt < self.config.max_retries,
        ensures
            step@ == (RefreshStepView::Retry {
                wait_ms: self.wait_for(asked),
                next: self.after_wait(asked),
            }),
    {
        let wait_ms: u128 = match asked {
            Some(seconds) => (seconds as u128) * 1000,
            None => self.delay_ms as u128,
        };
        let delay_ms = self.config.advance(wait_ms);
        RefreshStep::Retry {
            wait_ms,
            next: TokenRefresh { config: self.config, attempt: self.attempt + 1, delay_ms },
        }
    }

    /// Takes what the attempt under way brought and says what to do next.
    pub fn on_outcome(self, outcome: AttemptOutcome) -> (step: RefreshStep)
        ensures
            step@ == self.step(outcome),
    {
        let retries_left = self.config.allows_retry(self.attempt);
        match outcome {
            Err(e) => {
                if retries_left {
                    self.retry(None)
                } else {
                    RefreshStep::Failure(Auth0Error::Http(e))
                }
            },
            Ok(reply) => {
                let HttpReply { status, retry_after, payload, error } = reply;
                if is_retryable_status(status) {
                    if retries_left {
                        let asked = if status == 429 {
                            parse_retry_after(&retry_after)
                        } else {
                            None
                        };
                        self.retry(asked)
                    } else {
                        let mut message = String::from_str("token endpoint answered with status ");
                        push_decimal(&mut message, status as u64);
                        RefreshStep::Failure(Auth0Error::Authentication { message })
                    }
                } else if is_success(status) {
                    match payload {
                        Ok(grant) => RefreshStep::Success(grant),
                        Err(e) => RefreshStep::Failure(Auth0Error::Json(e)),
                    }
                } else {
                    let message = match error {
                        Some(Auth0ApiError { message: Some(m), error: _, description: _, error_code: _ }) => m,
                        Some(Auth0ApiError { message: None, error: Some(e), description: _, error_code: _ }) => e,
                        _ => String::new(),
                    };
                    RefreshStep::Failure(Auth0Error::Authentication { message })
                }
            },
        }
    }

    /// How the exchange goes from this state when its attempts bring
    /// `outcomes` in turn: the attempts that are made, and the step that
    /// ends it, if `outcomes` reaches so far.
    pub open spec fn run(self, outcomes: Seq<AttemptOutcome>) -> RunView
        decreases outcomes.len(),
    {
        if outcomes.len() == 0 {
            RunView { attempts: 0, end: None }
        } else {
            match self.step(outcomes[0]) {
                RefreshStepView::Retry { wait_ms, next } => {
                    let rest = next.run(outcomes.skip(1));
                    RunView { attempts: rest.attempts + 1, end: rest.end }
                },
                end => RunView { attempts: 1, end: Some(end) },
            }
        }
    }

    /// From its start the exchange makes at most `max_retries + 1` attempts,
    /// whatever they bring, and it has ended once that many outcomes are in.
    pub proof fn lemma_attempts_are_bounded(self, outcomes: Seq<AttemptOutcome>)
        requires
            self.attempt <= self.config.max_retries,
        ensures
            self.run(outcomes).attempts <= self.config.max_retries - self.attempt + 1,
            self.run(outcomes).attempts <= outcomes.len(),
            outcomes.len() > self.config.max_retries - self.attempt ==> self.run(outcomes).end
                is Some,
        decreases outcomes.len(),
    {
        if outcomes.len() > 0 {
            match self.step(outcomes[0]) {
                RefreshStepView::Retry { wait_ms, next } => {
                    next.lemma_attempts_are_bounded(outcomes.skip(1));
                },
                _ => {},
            }
        }
    }

    /// Where every attempt brings a retryable outcome, the exchange makes
    /// all of its attempts and then fails with what the last one brought.
    pub proof fn lemma_retries_run_out(self, outcomes: Seq<AttemptOutcome>)
        requires
            self.attempt <= self.config.max_retries,
            outcomes.len() == self.config.max_retries - self.attempt + 1,
            forall|i: int| 0 <= i < outcomes.len() ==> outcome_is_retryable(#[trigger] outcomes[i]),
        ensures
            self.run(outcomes).attempts == outcomes.len(),
            self.run(outcomes).end == Some(
                RefreshStepView::Failure(exhausted_failure(outcomes.last())),
            ),
        decreases outcomes.len(),
    {
        if self.attempt < self.config.max_retries {
            let next = self.after_wait(asked_wait(outcomes[0]));
            let rest = outcomes.skip(1);
            assert forall|i: int| 0 <= i < rest.len() implies outcome_is_retryable(
                #[trigger] rest[i],
            ) by {
                assert(rest[i] == outcomes[i + 1]);
            }
            next.lemma_retries_run_out(rest);
            assert(rest.last() == outcomes.last());
        } else {
            assert(outcomes.skip(1).len() == 0);
        }
    }

    /// Where `failures` retryable outcomes, no more than there are retries
    /// left, are followed by one that is not retryable, the exchange makes
    /// `failures + 1` attempts and ends with what that last outcome stands
    /// for: the grant, or the failure.
    pub proof fn lemma_run_ends_at_first_final_outcome(
        self,
        outcomes: Seq<AttemptOutcome>,
        failures: nat,
    )
        requires
            self.attempt + failures <= self.config.max_retries,
            failures < outcomes.len(),
            forall|i: int| 0 <= i < failures ==> outcome_is_retryable(#[trigger] outcomes[i]),
            !outcome_is_retryable(outcomes[failures as int]),
        ensures
            self.run(outcomes).attempts == failures + 1,
            self.run(outcomes).end == Some(self.step(outcomes[failures as int])),
        decreases failures,
    {
        if failures > 0 {
            let next = self.after_wait(asked_wait(outcomes[0]));
            let rest = outcomes.skip(1);
            assert forall|i: int| 0 <= i < failures - 1 implies outcome_is_retryable(
                #[trigger] rest[i],
            ) by {
                assert(rest[i] == outcomes[i + 1]);
            }
            assert(rest[failures - 1] == outcomes[failures as int]);
            next.lemma_run_ends_at_first_final_outcome(rest, (failures - 1) as nat);
        }
    }

    /// A status that is neither success nor retryable ends the exchange at
    /// once, at whatever attempt, with an authentication error that carries
    /// the server's message.
    pub proof fn lemma_rejection_is_final(self, reply: HttpReply<TokenGrant>)
        requires
            !status_is_success(reply.status),
            !status_is_retryable(reply.status),
        ensures
            self.step(Ok(reply)) == RefreshStepView::Failure(
                Auth0ErrorView::Authentication { message: rejection_message(reply.error) },
            ),
    {
    }

    /// After a 429 whose `retry-after` header names `seconds`, the wait
    /// before the next attempt is those seconds exactly, whatever the
    /// schedule and `max_delay_ms` say.
    pub proof fn lemma_retry_after_sets_the_wait(self, reply: HttpReply<TokenGrant>, seconds: u64)
        requires
            self.attempt < self.config.max_retries,
            reply.status == 429,
            retry_after_seconds(reply.retry_after) == Some(seconds),
        ensures
            self.step(Ok(reply)) matches RefreshStepView::Retry { wait_ms, next }
                && wait_ms == seconds * 1000
                && next.attempt == self.attempt + 1,
    {
    }

    /// As long as the server asks for no wait of its own, the waits are
    /// those of the schedule: the wait before attempt `k` is
    /// `config.scheduled(k)`.
    pub proof fn lemma_waits_follow_the_schedule(self, outcome: AttemptOutcome)
        requires
            self.attempt < self.config.max_retries,
            self.delay_ms == self.config.scheduled((self.attempt + 1) as nat),
            outcome_is_retryable(outcome),
            asked_wait(outcome) is None,
        ensures
            self.step(outcome) matches RefreshStepView::Retry { wait_ms, next }
                && wait_ms == self.config.scheduled((self.attempt + 1) as nat)
                && next.attempt == self.attempt + 1
                && next.delay_ms == self.config.scheduled((self.attempt + 2) as nat),
    {
        self.config.lemma_scheduled_is_capped((self.attempt + 2) as nat);
    }
}

} // verus!
