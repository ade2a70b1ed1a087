//! Calls to the management API: where they go, and how the client waits for
//! an operation that the service has accepted but not finished.

use crate::error::SimpleError;
use crate::http::all_visible_ascii;
use crate::http::header_text;
use crate::http::Method;
use crate::http::Request;
use crate::http::Response;
use crate::time::Span;
use crate::time::Timestamp;
use vstd::prelude::*;
use vstd::string::*;
use vstd::utf8::*;

pub mod vm;
pub mod vm_run_cmd;

verus! {

/// The status by which the service says that an operation is still running.
pub const ACCEPTED: u16 = 202;

/// The seconds that the client lets pass between two polls.
pub const POLL_INTERVAL_SECS: u64 = 3;

/// Whether `text` is a URI in the sense of the `http` crate.
pub uninterp spec fn is_uri(text: Seq<char>) -> bool;

/// `http::Uri::try_from` on text: whether it succeeds depends on the text
/// alone, and `is_uri` is the name of that answer.
#[verifier::external_body]
fn parses_as_uri(text: &str) -> (ok: bool)
    ensures
        ok == is_uri(text@),
{
    http::Uri::try_from(text).is_ok()
}

/// An operation that the service has accepted and that goes on there. The
/// client polls `uri` until the answer is no longer "accepted", or until the
/// time that the caller allows has passed since the task was made.
#[derive(Debug)]
pub struct AsyncTask {
    uri: String,
    timeout: Option<Span>,
    created: Timestamp,
}

/// What the client does once a poll has been answered.
#[derive(Debug)]
pub enum PollStep {
    /// The wait is over, with this result.
    Done(Result<Response, SimpleError>),
    /// The operation still runs: sleep for the poll interval, then poll again.
    Sleep(AsyncTask),
}

/// Whether `outcome` says that the operation still runs.
pub open spec fn still_running(outcome: Result<Response, SimpleError>) -> bool {
    outcome matches Ok(response) && response.status == ACCEPTED
}

/// Whether, at `now`, more time has passed since `created` than `timeout`
/// allows.
pub open spec fn timed_out(timeout: Option<Span>, created: Timestamp, now: Timestamp) -> bool {
    timeout matches Some(limit) && now@ - created@ > limit@
}

/// Whether `request` is a poll of `uri`: a `GET` to it, without headers and
/// with an empty body.
pub open spec fn is_poll_of(request: Request, uri: Seq<char>) -> bool {
    &&& request.method == Method::Get
    &&& request.uri@ == uri
    &&& request.headers@.len() == 0
    &&& request.body matches Some(bytes) && bytes@.len() == 0
}

impl AsyncTask {
    /// The URI that is polled.
    pub closed spec fn spec_uri(&self) -> Seq<char> {
        self.uri@
    }

    /// The longest time that the caller lets the wait go on, if any.
    pub closed spec fn spec_timeout(&self) -> Option<Span> {
        self.timeout
    }

    /// The time at which the task was made, from which the timeout counts.
    pub closed spec fn spec_created(&self) -> Timestamp {
        self.created
    }

    /// The invariant of the type: the address to poll is a URI.
    pub open spec fn wf(&self) -> bool {
        is_uri(self.spec_uri())
    }

    #[verifier::type_invariant]
    spec fn inv(&self) -> bool {
        self.wf()
    }

    /// The step that follows the answer `outcome` to a poll that has come
    /// at `now`.
    pub open spec fn spec_step(self, outcome: Result<Response, SimpleError>, now: Timestamp)
        -> PollStep {
        if !still_running(outcome) {
            PollStep::Done(outcome)
        } else if timed_out(self.spec_timeout(), self.spec_created(), now) {
            PollStep::Done(Err(SimpleError::Timeout))
        } else {
            PollStep::Sleep(self)
        }
    }

    /// A wait on the operation behind `uri`, made at `created` and without a
    /// limit of time. It is refused where `uri` is no URI.
    pub fn new(uri: &str, created: Timestamp) -> (r: Result<AsyncTask, SimpleError>)
        ensures
            r is Ok <==> is_uri(uri@),
            r matches Ok(task) ==> task.spec_uri() == uri@ && task.spec_timeout() is None
                && task.spec_created() == created,
            r matches Err(e) ==> e is InvalidUri,
    {
        if parses_as_uri(uri) {
            Ok(AsyncTask { uri: String::from_str(uri), timeout: None, created })
        } else {
            Err(SimpleError::InvalidUri)
        }
    }

    /// The same wait, with `timeout` as the longest time it may go on,
    /// counted from when the task was made.
    pub fn timeout(self, timeout: Option<Span>) -> (task: AsyncTask)
        ensures
            task.spec_uri() == self.spec_uri(),
            task.spec_timeout() == timeout,
            task.spec_created() == self.spec_created(),
    {
        proof {
            use_type_invariant(&self);
        }
        AsyncTask { uri: self.uri, timeout, created: self.created }
    }

    /// The time at which the task was made.
    pub fn created(&self) -> (created: Timestamp)
        ensures
            created == self.spec_created(),
    {
        self.created
    }

    /// The URI that is polled.
    pub fn uri(&self) -> (uri: &str)
        ensures
            uri@ == self.spec_uri(),
            is_uri(uri@),
    {
        proof {
            use_type_invariant(self);
        }
        self.uri.as_str()
    }

    /// The request of one poll: a `GET` to the URI, with an empty body.
    pub fn poll_request(&self) -> (request: Request)
        ensures
            is_poll_of(request, self.spec_uri()),
    {
        Request::new(Method::Get, self.uri.clone(), Some(Vec::new()))
    }

    /// Decides what follows the answer `outcome` to a poll that has come at
    /// `now`. A failure of the call and any answer but "accepted" end the
    /// wait and are handed on as they are. While the answer is "accepted",
    /// the wait ends with `Timeout` once more time than the limit has passed
    /// since the task was made, and goes on otherwise.
    pub fn step(self, outcome: Result<Response, SimpleError>, now: &Timestamp) -> (next: PollStep)
        ensures
            next == self.spec_step(outcome, *now),
    {
        match outcome {
            Ok(response) => {
                if response.status != ACCEPTED {
                    return PollStep::Done(Ok(response));
                }
                match &self.timeout {
                    Some(limit) => {
                        if now.is_more_than_after(limit, &self.created) {
                            return PollStep::Done(Err(SimpleError::Timeout));
                        }
                    },
                    None => {},
                }
                PollStep::Sleep(self)
            },
            Err(e) => PollStep::Done(Err(e)),
        }
    }
}

/// One answer to a poll: what came back, and the time at which it came.
pub struct Answer {
    pub outcome: Result<Response, SimpleError>,
    pub now: Timestamp,
}

/// How a wait went: the number of times the client slept, the number of
/// polls it made, and the result, where the wait came to an end.
pub struct Run {
    pub sleeps: nat,
    pub polls: nat,
    pub result: Option<Result<Response, SimpleError>>,
}

/// The wait of `task` when the polls are answered by `answers`, one after
/// the other: the client polls, and sleeps and polls again for as long as
/// the step tells it to.
pub open spec fn spec_run(task: AsyncTask, answers: Seq<Answer>) -> Run
    decreases answers.len(),
{
    if answers.len() == 0 {
        Run { sleeps: 0, polls: 0, result: None }
    } else {
        match task.spec_step(answers[0].outcome, answers[0].now) {
            PollStep::Done(result) => Run { sleeps: 0, polls: 1, result: Some(result) },
            PollStep::Sleep(next) => {
                let rest = spec_run(next, answers.drop_first());
                Run { sleeps: rest.sleeps + 1, polls: rest.polls + 1, result: rest.result }
            },
        }
    }
}

/// Whether the answer `answer` lets the wait of `task` go on.
pub open spec fn goes_on(task: AsyncTask, answer: Answer) -> bool {
    still_running(answer.outcome) && !timed_out(
        task.spec_timeout(),
        task.spec_created(),
        answer.now,
    )
}

/// A wait whose first `n` answers let it go on and whose next answer is no
/// longer "accepted" ends with that answer, unchanged, after exactly `n`
/// sleeps and `n + 1` polls; what would have been answered to later polls
/// plays no part, for none is made.
pub proof fn law_wait_ends_with_first_final_answer(task: AsyncTask, answers: Seq<Answer>, n: int)
    requires
        0 <= n < answers.len(),
        forall|i: int| 0 <= i < n ==> goes_on(task, #[trigger] answers[i]),
        !still_running(answers[n].outcome),
    ensures
        spec_run(task, answers) == (Run {
            sleeps: n as nat,
            polls: (n + 1) as nat,
            result: Some(answers[n].outcome),
        }),
        spec_run(task, answers) == spec_run(task, answers.take(n + 1)),
    decreases n,
{
    if n > 0 {
        let rest = answers.drop_first();
        law_wait_ends_with_first_final_answer(task, rest, n - 1);
        assert(answers.take(n + 1).drop_first() =~= rest.take(n));
    }
}

/// A wait with a limit of time whose answers are all "accepted" ends with
/// `Timeout` at the first answer that comes when more than the limit has
/// passed since the task was made, and polls no more after that. Where that
/// is the first answer, the wait ends after one poll and without a sleep.
pub proof fn law_wait_times_out(task: AsyncTask, answers: Seq<Answer>, n: int)
    requires
        0 <= n < answers.len(),
        forall|i: int| 0 <= i < n ==> goes_on(task, #[trigger] answers[i]),
        still_running(answers[n].outcome),
        timed_out(task.spec_timeout(), task.spec_created(), answers[n].now),
    ensures
        spec_run(task, answers) == (Run {
            sleeps: n as nat,
            polls: (n + 1) as nat,
            result: Some(Err(SimpleError::Timeout)),
        }),
        spec_run(task, answers) == spec_run(task, answers.take(n + 1)),
    decreases n,
{
    if n > 0 {
        let rest = answers.drop_first();
        law_wait_times_out(task, rest, n - 1);
        assert(answers.take(n + 1).drop_first() =~= rest.take(n));
    }
}

/// What the location header of `response` says about where to poll: the
/// text of the URI, or why there is none.
pub open spec fn spec_poll_location(response: Response) -> Result<Seq<char>, SimpleError> {
    match response.spec_header("location"@) {
        None => Err(SimpleError::MissingLocation),
        Some(bytes) => if !all_visible_ascii(bytes) {
            Err(SimpleError::ToStrError)
        } else if !is_uri(decode_utf8(bytes)) {
            Err(SimpleError::InvalidUri)
        } else {
            Ok(decode_utf8(bytes))
        },
    }
}

/// The wait on the operation that `response`, received at `now`, points to
/// by its location header; the wait counts its time from `now`. There is
/// none where the header is missing, where its value is no visible ASCII
/// text, or where that text is no URI.
pub fn poll_location(response: &Response, now: Timestamp) -> (r: Result<AsyncTask, SimpleError>)
    ensures
        match spec_poll_location(*response) {
            Ok(uri) => r matches Ok(task) && task.spec_uri() == uri && task.spec_timeout()
                is None && task.spec_created() == now,
            Err(e) => r == Err::<AsyncTask, SimpleError>(e),
        },
{
    match response.header("location") {
        None => Err(SimpleError::MissingLocation),
        Some(bytes) => match header_text(bytes) {
            None => Err(SimpleError::ToStrError),
            Some(text) => AsyncTask::new(text.as_str(), now),
        },
    }
}

} // verus!
