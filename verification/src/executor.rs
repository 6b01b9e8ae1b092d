//! The retry engine. One request runs as a sequence of attempts; after each
//! attempt the transport hands back an outcome, and the executor decides:
//! succeed, fail now, or sleep and send again. The decision rule is one
//! spec function, the executor implements it exactly, and the retry bound
//! and the exemption short-circuit are proved of runs of that rule.

use vstd::prelude::*;

use crate::context::{Context, CtxModel, CtxValue};
use crate::errors::{detail_map, http_error_serialize, status_kind_or_unknown, transport_error_model,
    ClassifiedError, ErrorModel, TransportFailure};
use crate::kinds::ErrorKind;

verus! {

/// What one attempt came to: a response with its status and body (and the
/// body's fields, where the body decoded as a JSON mapping), a
/// transport-level failure, or a request that could not be reused for the
/// attempt.
#[derive(Debug)]
pub enum AttemptOutcome {
    Response { status: u16, body: String, body_fields: Option<Context> },
    Transport(TransportFailure),
    CloneFailed,
}

/// What the executor decides after an attempt: sleep `delay` seconds and
/// send again, or finish with the given result.
#[derive(Debug)]
pub enum Decision {
    Retry { delay: u64 },
    Finish(Result<String, ClassifiedError>),
}

/// The mathematical value of a [`Decision`].
pub ghost enum DecisionModel {
    Retry(u64),
    Finish(Result<Seq<char>, ErrorModel>),
}

impl View for Decision {
    type V = DecisionModel;

    open spec fn view(&self) -> DecisionModel {
        match self {
            Decision::Retry { delay } => DecisionModel::Retry(*delay),
            Decision::Finish(r) => DecisionModel::Finish(
                match r {
                    Ok(s) => Ok(s@),
                    Err(e) => Err(e@),
                },
            ),
        }
    }
}

/// The mathematical state of the executor.
pub ghost struct ExecModel {
    pub max_attempts: u64,
    pub retry_delay: u64,
    pub exempt: Seq<ErrorKind>,
    pub context: Map<Seq<char>, CtxModel>,
    pub attempt: u64,
    pub last_error: Option<ErrorModel>,
    pub finished: bool,
}

/// A status that counts as success.
pub open spec fn success_status(status: u16) -> bool {
    200 <= status < 300
}

/// The fields of a response's JSON body, where the transport decoded one.
pub open spec fn opt_fields_view(bf: Option<Context>) -> Option<Map<Seq<char>, CtxModel>> {
    match bf {
        Some(c) => Some(c@),
        None => None,
    }
}

/// The error classified for a failing attempt: the status's kind, the
/// response body as message, and as details the decoded body fields with
/// the request's context folded over them — on a shared key the context
/// wins, so a body field can never displace the seeded `url`, `method` or
/// a caller's entry — and the attempt number under `try`.
pub open spec fn attempt_error_model(
    ctx: Map<Seq<char>, CtxModel>,
    bf: Option<Map<Seq<char>, CtxModel>>,
    status: u16,
    body: Seq<char>,
    attempt: u64,
) -> ErrorModel {
    ErrorModel {
        kind: status_kind_or_unknown(status),
        message: body,
        details: Some(
            detail_map(bf).union_prefer_right(ctx).insert("try"@, CtxModel::U64(attempt)),
        ),
    }
}

/// The error reported where the in-flight request cannot be reused.
pub open spec fn clone_failed_model(ctx: Map<Seq<char>, CtxModel>) -> ErrorModel {
    ErrorModel {
        kind: ErrorKind::GenericHttpClientError,
        message: "Internal error, failed to clone request"@,
        details: Some(ctx),
    }
}

/// One decision step on a failing status: classify with the attempt
/// number; finish at once where the kind is exempt from retry; finish with
/// this error where the attempts are used up; otherwise remember it and
/// retry after the configured delay.
pub open spec fn fail_step(
    st: ExecModel,
    status: u16,
    body: Seq<char>,
    bf: Option<Map<Seq<char>, CtxModel>>,
) -> (ExecModel, DecisionModel) {
    let a = (st.attempt + 1) as u64;
    let err = attempt_error_model(st.context, bf, status, body, a);
    if st.exempt.contains(err.kind) || a >= st.max_attempts {
        (
            ExecModel { attempt: a, finished: true, last_error: Some(err), ..st },
            DecisionModel::Finish(Err(err)),
        )
    } else {
        (
            ExecModel { attempt: a, last_error: Some(err), ..st },
            DecisionModel::Retry(st.retry_delay),
        )
    }
}

/// The executor's decision rule, one attempt outcome at a time. A success
/// status returns the body. A failing status (of the response, or attached
/// to a transport failure) is retryable: see [`fail_step`]. Any other
/// transport failure is classified and returned at once; retrying it could
/// not change the outcome. A request that cannot be reused is an internal
/// error, returned at once.
pub open spec fn exec_step(st: ExecModel, outcome: AttemptOutcome) -> (ExecModel, DecisionModel) {
    match outcome {
        AttemptOutcome::Response { status, body, body_fields } => {
            if success_status(status) {
                (
                    ExecModel { attempt: (st.attempt + 1) as u64, finished: true, ..st },
                    DecisionModel::Finish(Ok(body@)),
                )
            } else {
                fail_step(st, status, body@, opt_fields_view(body_fields))
            }
        },
        AttemptOutcome::Transport(f) => match f {
            TransportFailure::WithStatus { status, message } => {
                fail_step(st, status, message@, None)
            },
            _ => (
                ExecModel { attempt: (st.attempt + 1) as u64, finished: true, ..st },
                DecisionModel::Finish(Err(transport_error_model(f, Some(st.context)))),
            ),
        },
        AttemptOutcome::CloneFailed => (
            ExecModel { finished: true, ..st },
            DecisionModel::Finish(Err(clone_failed_model(st.context))),
        ),
    }
}

/// The retry engine's state for one request: the policy, the accumulated
/// context, and how far the attempts have come.
#[derive(Debug)]
pub struct Executor {
    max_attempts: u64,
    retry_delay: u64,
    exempt: Vec<ErrorKind>,
    context: Context,
    attempt: u64,
    last_error: Option<ClassifiedError>,
    finished: bool,
}

impl View for Executor {
    type V = ExecModel;

    closed spec fn view(&self) -> ExecModel {
        ExecModel {
            max_attempts: self.max_attempts,
            retry_delay: self.retry_delay,
            exempt: self.exempt@,
            context: self.context@,
            attempt: self.attempt,
            last_error: match self.last_error {
                Some(e) => Some(e@),
                None => None,
            },
            finished: self.finished,
        }
    }
}

/// The state invariant of the decision rule: at least one attempt is
/// configured, and while the run is not finished, attempts remain.
pub open spec fn model_wf(m: ExecModel) -> bool {
    &&& m.max_attempts >= 1
    &&& !m.finished ==> m.attempt < m.max_attempts
}

impl Executor {
    /// Well-formed: the model invariant, with well-formed context and
    /// error.
    pub closed spec fn wf(&self) -> bool {
        &&& model_wf(self@)
        &&& self.context.wf()
        &&& match self.last_error {
            Some(e) => e.wf(),
            None => true,
        }
    }

    /// A fresh executor: no attempt made, nothing recorded.
    pub fn new(max_attempts: u64, retry_delay: u64, exempt: Vec<ErrorKind>, context: Context) -> (r:
        Executor)
        requires
            max_attempts >= 1,
            context.wf(),
        ensures
            r.wf(),
            r@ == (ExecModel {
                max_attempts,
                retry_delay,
                exempt: exempt@,
                context: context@,
                attempt: 0,
                last_error: None::<ErrorModel>,
                finished: false,
            }),
    {
        Executor {
            max_attempts,
            retry_delay,
            exempt,
            context,
            attempt: 0,
            last_error: None,
            finished: false,
        }
    }

    /// How many attempts have been resolved.
    pub fn attempts_made(&self) -> (r: u64)
        ensures
            r == self@.attempt,
    {
        self.attempt
    }

    /// The diagnostic context the run carries.
    pub fn context(&self) -> (r: &Context)
        requires
            self.wf(),
        ensures
            r@ == self@.context,
            r.wf(),
    {
        &self.context
    }

    /// Whether the run has finished.
    pub fn is_finished(&self) -> (r: bool)
        ensures
            r == self@.finished,
    {
        self.finished
    }

    /// Resolves one attempt: applies the decision rule to the outcome the
    /// transport handed back.
    pub fn on_outcome(&mut self, outcome: AttemptOutcome) -> (d: Decision)
        requires
            old(self).wf(),
            !old(self)@.finished,
            outcome matches AttemptOutcome::Response { status, body, body_fields }
                ==> (body_fields matches Some(c) ==> c.wf()),
        ensures
            final(self).wf(),
            final(self)@ == exec_step(old(self)@, outcome).0,
            d@ == exec_step(old(self)@, outcome).1,
    {
        match outcome {
            AttemptOutcome::Response { status, body, body_fields } => {
                if 200 <= status && status < 300 {
                    self.attempt = self.attempt + 1;
                    self.finished = true;
                    Decision::Finish(Ok(body))
                } else {
                    self.fail_attempt(status, body, body_fields)
                }
            },
            AttemptOutcome::Transport(f) => {
                match f {
                    TransportFailure::WithStatus { status, message } => {
                        self.fail_attempt(status, message, None)
                    },
                    _ => {
                        self.attempt = self.attempt + 1;
                        self.finished = true;
                        let err = http_error_serialize(f, Some(self.context.duplicate()));
                        Decision::Finish(Err(err))
                    },
                }
            },
            AttemptOutcome::CloneFailed => {
                self.finished = true;
                let err = ClassifiedError {
                    kind: ErrorKind::GenericHttpClientError,
                    message: "Internal error, failed to clone request".to_owned(),
                    details: Some(self.context.duplicate()),
                };
                Decision::Finish(Err(err))
            },
        }
    }

    /// Resolves one failing status: classifies it with the attempt number,
    /// finishes where the kind is exempt or the attempts are used up, and
    /// retries otherwise.
    fn fail_attempt(&mut self, status: u16, body: String, body_fields: Option<Context>) -> (d:
        Decision)
        requires
            old(self).wf(),
            !old(self)@.finished,
            body_fields matches Some(c) ==> c.wf(),
        ensures
            final(self).wf(),
            final(self)@ == fail_step(
                old(self)@,
                status,
                body@,
                opt_fields_view(body_fields),
            ).0,
            d@ == fail_step(old(self)@, status, body@, opt_fields_view(body_fields)).1,
    {
        let ghost bf = opt_fields_view(body_fields);
        self.attempt = self.attempt + 1;
        let a = self.attempt;
        let mut err_context = match body_fields {
            Some(c) => c,
            None => Context::new(),
        };
        err_context.extend(&self.context);
        proof {
            if bf is None {
                assert(Map::<Seq<char>, CtxModel>::empty().union_prefer_right(self@.context)
                    =~= self@.context);
            }
            assert(err_context@ == detail_map(bf).union_prefer_right(old(self)@.context));
        }
        err_context.insert("try".to_owned(), CtxValue::U64(a));
        let kind = match crate::kinds::try_from_status(status) {
            Some(k) => k,
            None => ErrorKind::UnknownError,
        };
        let err = ClassifiedError { kind, message: body, details: Some(err_context) };
        let ghost errm = attempt_error_model(old(self)@.context, bf, status, body@, a);
        proof {
            assert(err@ == errm);
        }
        if kind_in(&self.exempt, kind) || a >= self.max_attempts {
            self.finished = true;
            self.last_error = Some(err.duplicate());
            Decision::Finish(Err(err))
        } else {
            self.last_error = Some(err);
            Decision::Retry { delay: self.retry_delay }
        }
    }
}

/// Whether `k` is one of the kinds in `list`.
pub fn kind_in(list: &Vec<ErrorKind>, k: ErrorKind) -> (r: bool)
    ensures
        r == list@.contains(k),
{
    let n = list.len();
    let mut i: usize = 0;
    while i < n
        invariant
            i <= n,
            n == list@.len(),
            forall|j: int| 0 <= j < i ==> list@[j] != k,
        decreases n - i,
    {
        if list[i] == k {
            return true;
        }
        i += 1;
    }
    false
}

/// A retry is only asked for while attempts remain: after a step that
/// decides to retry, the run is not finished and the attempts made stay
/// below the configured count. The driver therefore never sleeps after the
/// final attempt, and an unfinished engine can always take the next
/// outcome.
pub proof fn lemma_retry_only_while_attempts_remain(st: ExecModel, outcome: AttemptOutcome)
    requires
        model_wf(st),
        !st.finished,
    ensures
        exec_step(st, outcome).1 is Retry ==> {
            &&& !exec_step(st, outcome).0.finished
            &&& exec_step(st, outcome).0.attempt < st.max_attempts
            &&& model_wf(exec_step(st, outcome).0)
        },
{
}

/// A run of the decision rule over a sequence of outcomes: the result it
/// finishes with and how many outcomes it consumed, or nothing where the
/// outcomes run out first.
pub open spec fn run_from(st: ExecModel, outcomes: Seq<AttemptOutcome>) -> Option<
    (Result<Seq<char>, ErrorModel>, int),
>
    decreases outcomes.len(),
{
    if outcomes.len() == 0 {
        None
    } else {
        let stepped = exec_step(st, outcomes[0]);
        match stepped.1 {
            DecisionModel::Finish(r) => Some((r, 1)),
            DecisionModel::Retry(_) => match run_from(stepped.0, outcomes.drop_first()) {
                Some(rn) => Some((rn.0, rn.1 + 1)),
                None => None,
            },
        }
    }
}

/// A failing response outcome whose kind is not exempt from retry.
pub open spec fn failing_not_exempt(o: AttemptOutcome, exempt: Seq<ErrorKind>) -> bool {
    match o {
        AttemptOutcome::Response { status, body, body_fields } => {
            &&& !success_status(status)
            &&& !exempt.contains(status_kind_or_unknown(status))
        },
        _ => false,
    }
}

/// Retry bound: against an endpoint that fails every attempt with a
/// non-exempt status, the executor consumes exactly the remaining attempts
/// and returns the error classified from the outcome of the final attempt,
/// carrying the final attempt's number.
pub proof fn lemma_retry_bound(st: ExecModel, outcomes: Seq<AttemptOutcome>)
    requires
        model_wf(st),
        !st.finished,
        outcomes.len() >= st.max_attempts - st.attempt,
        forall|i: int| 0 <= i < outcomes.len() ==> failing_not_exempt(#[trigger] outcomes[i], st.exempt),
    ensures
        ({
            let remaining = st.max_attempts - st.attempt;
            let last = outcomes[remaining - 1];
            run_from(st, outcomes) == Some(
                (
                    Err::<Seq<char>, ErrorModel>(
                        match last {
                            AttemptOutcome::Response { status, body, body_fields } =>
                                attempt_error_model(
                                    st.context,
                                    opt_fields_view(body_fields),
                                    status,
                                    body@,
                                    st.max_attempts,
                                ),
                            _ => clone_failed_model(st.context),
                        },
                    ),
                    remaining,
                ),
            )
        }),
    decreases st.max_attempts - st.attempt,
{
    let o = outcomes[0];
    let stepped = exec_step(st, o);
    if st.attempt + 1 == st.max_attempts {
    } else {
        lemma_retry_bound(stepped.0, outcomes.drop_first());
    }
}

/// Exemption short-circuits retry: where the first attempt fails with a
/// kind in the exemption list, exactly one outcome is consumed, whatever
/// the configured attempt count, and the error carries attempt number one.
pub proof fn lemma_exemption_short_circuits(st: ExecModel, outcomes: Seq<AttemptOutcome>)
    requires
        model_wf(st),
        !st.finished,
        st.attempt == 0,
        outcomes.len() >= 1,
        outcomes[0] matches AttemptOutcome::Response { status, body, body_fields } && (
            !success_status(status) && st.exempt.contains(status_kind_or_unknown(status))),
    ensures
        ({
            let first = outcomes[0];
            match first {
                AttemptOutcome::Response { status, body, body_fields } => run_from(st, outcomes)
                    == Some(
                    (
                        Err::<Seq<char>, ErrorModel>(
                            attempt_error_model(
                                st.context,
                                opt_fields_view(body_fields),
                                status,
                                body@,
                                1u64,
                            ),
                        ),
                        1int,
                    ),
                ),
                _ => false,
            }
        }),
{
}

} // verus!
