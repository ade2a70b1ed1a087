//! Commands that run on a virtual machine: the request that starts one, and
//! the wait for what it prints.

use crate::error::SimpleError;
use crate::http::success_status;
use crate::http::Method;
use crate::http::Request;
use crate::http::Response;
use crate::ident::AzureId;
use crate::ident::AzureName;
use crate::json::json_document;
use crate::json::json_string_literal;
use crate::json::parse_document;
use crate::json::quote;
use crate::json::Json;
use crate::management::is_poll_of;
use crate::management::poll_location;
use crate::management::spec_poll_location;
use crate::management::vm::spec_vm_uri;
use crate::management::vm::vm_uri;
use crate::management::AsyncTask;
use crate::management::PollStep;
use crate::management::ACCEPTED;
use crate::time::Span;
use crate::time::Timestamp;
use vstd::prelude::*;
use vstd::string::*;
use vstd::utf8::*;

verus! {

/// The version of the API by which commands are run.
pub const API_VERSION: &'static str = "2021-07-01";

/// The status of an answer that already holds what the command printed.
pub const OK: u16 = 200;

/// A command as the service takes it.
#[derive(Debug)]
pub struct BaseCommand {
    pub command_id: String,
    pub parameters: Vec<String>,
    pub script: Vec<String>,
}

/// A shell script, line by line.
#[derive(Debug)]
pub struct ShellCommand {
    pub script: Vec<String>,
}

/// The texts of `strings`, in their order.
pub open spec fn texts(strings: Seq<String>) -> Seq<Seq<char>> {
    Seq::new(strings.len(), |i: int| strings[i]@)
}

/// The JSON string literals of `items`, with a comma between each two.
pub open spec fn spec_literals(items: Seq<Seq<char>>) -> Seq<char>
    decreases items.len(),
{
    if items.len() == 0 {
        Seq::empty()
    } else if items.len() == 1 {
        json_string_literal(items[0])
    } else {
        spec_literals(items.drop_last()) + ","@ + json_string_literal(items.last())
    }
}

/// The JSON document that asks the service to run a command.
pub open spec fn spec_command_body(
    command_id: Seq<char>,
    parameters: Seq<Seq<char>>,
    script: Seq<Seq<char>>,
) -> Seq<char> {
    "{\"commandId\":"@ + json_string_literal(command_id) + ",\"parameters\":["@ + spec_literals(
        parameters,
    ) + "],\"script\":["@ + spec_literals(script) + "]}"@
}

/// Appends to `out` the JSON string literals of `items`, with a comma
/// between each two.
fn append_literals(out: &mut String, items: &Vec<String>)
    ensures
        final(out)@ == old(out)@ + spec_literals(texts(items@)),
{
    let ghost before = out@;
    let mut i: usize = 0;
    while i < items.len()
        invariant
            i <= items.len(),
            out@ == before + spec_literals(texts(items@).take(i as int)),
        decreases items.len() - i,
    {
        proof {
            let all = texts(items@);
            assert(all.take(i + 1).drop_last() =~= all.take(i as int));
        }
        if i > 0 {
            out.append(",");
        }
        let literal = quote(items[i].as_str());
        out.append(literal.as_str());
        i += 1;
    }
    proof {
        assert(texts(items@).take(i as int) =~= texts(items@));
    }
}

impl BaseCommand {
    /// Writes the command as the JSON document that the service takes.
    pub fn to_json(&self) -> (body: String)
        ensures
            body@ == spec_command_body(
                self.command_id@,
                texts(self.parameters@),
                texts(self.script@),
            ),
    {
        let mut body = String::from_str("{\"commandId\":");
        let id = quote(self.command_id.as_str());
        body.append(id.as_str());
        body.append(",\"parameters\":[");
        append_literals(&mut body, &self.parameters);
        body.append("],\"script\":[");
        append_literals(&mut body, &self.script);
        body.append("]}");
        body
    }
}

impl ShellCommand {
    /// The command that runs this script: `RunShellScript`, without
    /// parameters.
    pub fn into_base(self) -> (base: BaseCommand)
        ensures
            base.command_id@ == "RunShellScript"@,
            base.parameters@.len() == 0,
            base.script == self.script,
    {
        BaseCommand {
            command_id: String::from_str("RunShellScript"),
            parameters: Vec::new(),
            script: self.script,
        }
    }
}

/// The request that runs `cmd` on a virtual machine: a `POST` of the
/// command as JSON.
pub fn run_request(sub: &AzureId, rg: &AzureName, vm: &AzureName, cmd: &BaseCommand) -> (request:
    Request)
    ensures
        request.method == Method::Post,
        request.uri@ == spec_vm_uri(sub@, rg@, vm@, "runCommand"@, API_VERSION@),
        request.headers@.len() == 1,
        request.headers@[0].name@ == "Content-Type"@,
        request.headers@[0].value@ == "application/json"@,
        request.body matches Some(bytes) && bytes@ == encode_utf8(
            spec_command_body(cmd.command_id@, texts(cmd.parameters@), texts(cmd.script@)),
        ),
{
    let body = cmd.to_json();
    let bytes = body.as_str().as_bytes_vec();
    let mut request = Request::new(
        Method::Post,
        vm_uri(sub, rg, vm, "runCommand", API_VERSION),
        Some(bytes),
    );
    request.set_header("Content-Type", String::from_str("application/json"));
    request
}

/// A kind of command, by what it makes of the text that the service sends
/// back once the command has run.
pub trait Command {
    /// What the command yields.
    type Output;

    /// Whether `result` is what `body` is read as.
    spec fn parses_to(body: Seq<char>, result: Result<Self::Output, SimpleError>) -> bool;

    /// Reads what the command yielded from the body of the final response.
    fn parse_response(body: &str) -> (result: Result<Self::Output, SimpleError>)
        ensures
            Self::parses_to(body@, result),
    ;
}

/// The message that the JSON document `tree` holds for a shell script: the
/// text at `message` in the first element of `value`.
pub open spec fn spec_message(tree: Json) -> Option<Seq<char>> {
    match tree.spec_member("value"@) {
        Some(list) => match list.spec_element(0) {
            Some(first) => match first.spec_member("message"@) {
                Some(message) => message.spec_text(),
                None => None,
            },
            None => None,
        },
        None => None,
    }
}

/// Reads the message of a shell script from the JSON document `tree`.
pub fn message_of(tree: &Json) -> (r: Result<String, SimpleError>)
    ensures
        match spec_message(*tree) {
            Some(message) => r matches Ok(text) && text@ == message,
            None => r matches Err(e) && e is UnexpectedShape,
        },
{
    let found = match tree.member("value") {
        Some(list) => match list.element(0) {
            Some(first) => match first.member("message") {
                Some(message) => message.text(),
                None => None,
            },
            None => None,
        },
        None => None,
    };
    match found {
        Some(text) => Ok(String::from_str(text)),
        None => Err(SimpleError::UnexpectedShape),
    }
}

impl Command for ShellCommand {
    type Output = String;

    /// A body that is no JSON document is refused with the parser's error,
    /// one without the message with `UnexpectedShape`; else the message is
    /// the result.
    open spec fn parses_to(body: Seq<char>, result: Result<String, SimpleError>) -> bool {
        match json_document(body) {
            None => result matches Err(e) && e is SerdeError,
            Some(tree) => match spec_message(tree) {
                Some(message) => result matches Ok(text) && text@ == message,
                None => result matches Err(e) && e is UnexpectedShape,
            },
        }
    }

    fn parse_response(body: &str) -> (result: Result<String, SimpleError>) {
        match parse_document(body) {
            Ok(tree) => message_of(&tree),
            Err(e) => Err(SimpleError::SerdeError(e)),
        }
    }
}

/// How the service answered the request to run a command.
#[derive(Debug)]
pub enum ResponseType {
    /// The command has run, and this is the body that tells what it printed.
    Status200(String),
    /// The command runs, and this is the wait for it.
    Status202(AsyncTask),
}

/// A command that the service was asked to run.
#[derive(Debug)]
pub struct CommandTask<C: Command> {
    resp_type: ResponseType,
    _c: core::marker::PhantomData<C>,
}

/// What the client does next for a command.
#[derive(Debug)]
pub enum CommandStep<C: Command> {
    /// The wait is over, with this result.
    Done(Result<C::Output, SimpleError>),
    /// Poll now.
    Poll(CommandTask<C>),
    /// The command still runs: sleep for the poll interval, then poll again.
    Sleep(CommandTask<C>),
}

impl<C: Command> CommandTask<C> {
    /// How the service answered the request.
    pub closed spec fn spec_resp_type(&self) -> ResponseType {
        self.resp_type
    }

    /// The command whose request `response` answers, received at `now`.
    /// With 200 the body is kept and nothing will be polled; with 202 the
    /// location header tells where to poll, and the wait counts its time
    /// from `now`. Any other status is an error that carries the status and
    /// the body: `HttpStatus` where the status is no success,
    /// `UnexpectedStatus` where it is one.
    pub fn from_response(response: Response, now: Timestamp) -> (r: Result<
        CommandTask<C>,
        SimpleError,
    >)
        ensures
            response.status == OK ==> (r matches Ok(task) && task.spec_resp_type()
                == ResponseType::Status200(response.body)),
            response.status == ACCEPTED ==> match spec_poll_location(response) {
                Ok(uri) => r matches Ok(task) && task.spec_resp_type() matches ResponseType::Status202(
                    wait,
                ) && wait.spec_uri() == uri && wait.spec_timeout() is None && wait.spec_created()
                    == now,
                Err(e) => r == Err::<CommandTask<C>, SimpleError>(e),
            },
            response.status != OK && response.status != ACCEPTED ==> r == Err::<
                CommandTask<C>,
                SimpleError,
            >(
                if success_status(response.status) {
                    SimpleError::UnexpectedStatus { status: response.status, body: response.body }
                } else {
                    SimpleError::HttpStatus { status: response.status, body: response.body }
                },
            ),
    {
        if response.status == OK {
            Ok(
                CommandTask {
                    resp_type: ResponseType::Status200(response.body),
                    _c: core::marker::PhantomData,
                },
            )
        } else if response.status != ACCEPTED {
            if response.is_success() {
                Err(SimpleError::UnexpectedStatus { status: response.status, body: response.body })
            } else {
                Err(SimpleError::HttpStatus { status: response.status, body: response.body })
            }
        } else {
            match poll_location(&response, now) {
                Ok(task) => Ok(
                    CommandTask {
                        resp_type: ResponseType::Status202(task),
                        _c: core::marker::PhantomData,
                    },
                ),
                Err(e) => Err(e),
            }
        }
    }

    /// The same command, with `timeout` as the longest time to wait for it,
    /// counted from when the command was accepted.
    pub fn timeout(self, timeout: Option<Span>) -> (task: CommandTask<C>)
        ensures
            match self.spec_resp_type() {
                ResponseType::Status200(body) => task.spec_resp_type() == self.spec_resp_type(),
                ResponseType::Status202(wait) => task.spec_resp_type() matches ResponseType::Status202(
                    limited,
                ) && limited.spec_uri() == wait.spec_uri() && limited.spec_timeout() == timeout
                    && limited.spec_created() == wait.spec_created(),
            },
    {
        match self.resp_type {
            ResponseType::Status200(body) => CommandTask {
                resp_type: ResponseType::Status200(body),
                _c: core::marker::PhantomData,
            },
            ResponseType::Status202(wait) => CommandTask {
                resp_type: ResponseType::Status202(wait.timeout(timeout)),
                _c: core::marker::PhantomData,
            },
        }
    }

    /// The first step of the wait. Where the answer to the request already
    /// held the result, it is read from that body and nothing is polled;
    /// else the client polls.
    pub fn begin(self) -> (next: CommandStep<C>)
        ensures
            match self.spec_resp_type() {
                ResponseType::Status200(body) => next matches CommandStep::Done(result)
                    && C::parses_to(body@, result),
                ResponseType::Status202(_) => next == CommandStep::Poll(self),
            },
    {
        match &self.resp_type {
            ResponseType::Status200(body) => CommandStep::Done(C::parse_response(body.as_str())),
            ResponseType::Status202(_) => CommandStep::Poll(self),
        }
    }

    /// The request of one poll, where there is something to poll.
    pub fn poll_request(&self) -> (request: Option<Request>)
        ensures
            match self.spec_resp_type() {
                ResponseType::Status200(_) => request is None,
                ResponseType::Status202(wait) => request matches Some(r) && is_poll_of(
                    r,
                    wait.spec_uri(),
                ),
            },
    {
        match &self.resp_type {
            ResponseType::Status200(_) => None,
            ResponseType::Status202(wait) => Some(wait.poll_request()),
        }
    }

    /// Decides what follows the answer `outcome` to a poll that has come at
    /// `now`. Where the wait ends with a response, the result is read from
    /// its body. A command that had its result from the start reads it from
    /// there, whatever `outcome` is.
    pub fn step(self, outcome: Result<Response, SimpleError>, now: &Timestamp) -> (next:
        CommandStep<C>)
        ensures
            match self.spec_resp_type() {
                ResponseType::Status200(body) => next matches CommandStep::Done(result)
                    && C::parses_to(body@, result),
                ResponseType::Status202(wait) => match wait.spec_step(outcome, *now) {
                    PollStep::Done(Ok(response)) => next matches CommandStep::Done(result)
                        && C::parses_to(response.body@, result),
                    PollStep::Done(Err(e)) => next == CommandStep::<C>::Done(Err(e)),
                    PollStep::Sleep(_) => next == CommandStep::Sleep(self),
                },
            },
    {
        match self.resp_type {
            ResponseType::Status200(body) => CommandStep::Done(C::parse_response(body.as_str())),
            ResponseType::Status202(wait) => match wait.step(outcome, now) {
                PollStep::Done(Ok(response)) => CommandStep::Done(
                    C::parse_response(response.body.as_str()),
                ),
                PollStep::Done(Err(e)) => CommandStep::Done(Err(e)),
                PollStep::Sleep(wait) => CommandStep::Sleep(
                    CommandTask {
                        resp_type: ResponseType::Status202(wait),
                        _c: core::marker::PhantomData,
                    },
                ),
            },
        }
    }
}

} // verus!
