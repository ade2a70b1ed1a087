//! Virtual machines: starting one, deallocating one, and reading its state.

use crate::error::SimpleError;
use crate::http::Method;
use crate::http::Request;
use crate::http::Response;
use crate::ident::AzureId;
use crate::ident::AzureName;
use crate::json::json_document;
use crate::json::parse_document;
use crate::json::Json;
use crate::management::is_poll_of;
use crate::management::poll_location;
use crate::management::spec_poll_location;
use crate::management::AsyncTask;
use crate::management::PollStep;
use crate::text::str_eq;
use crate::time::Span;
use crate::time::Timestamp;
use vstd::prelude::*;
use vstd::string::*;

verus! {

/// The version of the API by which virtual machines are managed.
pub const API_VERSION: &'static str = "2021-11-01";

/// The address of `action` on the virtual machine `vm` of the resource group
/// `rg` in the subscription `sub`, for the version `version` of the API.
pub open spec fn spec_vm_uri(
    sub: Seq<char>,
    rg: Seq<char>,
    vm: Seq<char>,
    action: Seq<char>,
    version: Seq<char>,
) -> Seq<char> {
    "https://management.azure.com/subscriptions/"@ + sub + "/resourceGroups/"@ + rg
        + "/providers/Microsoft.Compute/virtualMachines/"@ + vm + "/"@ + action
        + "?api-version="@ + version
}

/// Composes the address of `action` on a virtual machine.
pub fn vm_uri(sub: &AzureId, rg: &AzureName, vm: &AzureName, action: &str, version: &str) -> (uri:
    String)
    ensures
        uri@ == spec_vm_uri(sub@, rg@, vm@, action@, version@),
{
    let mut uri = String::from_str("https://management.azure.com/subscriptions/");
    uri.append(sub.id());
    uri.append("/resourceGroups/");
    uri.append(rg.name());
    uri.append("/providers/Microsoft.Compute/virtualMachines/");
    uri.append(vm.name());
    uri.append("/");
    uri.append(action);
    uri.append("?api-version=");
    uri.append(version);
    uri
}

/// The request that starts a virtual machine: a `POST` with an empty body.
pub fn start_request(sub: &AzureId, rg: &AzureName, vm: &AzureName) -> (request: Request)
    ensures
        request.method == Method::Post,
        request.uri@ == spec_vm_uri(sub@, rg@, vm@, "start"@, API_VERSION@),
        request.headers@.len() == 0,
        request.body matches Some(bytes) && bytes@.len() == 0,
{
    Request::new(Method::Post, vm_uri(sub, rg, vm, "start", API_VERSION), Some(Vec::new()))
}

/// The request that deallocates a virtual machine: a `POST` with an empty
/// body.
pub fn deallocate_request(sub: &AzureId, rg: &AzureName, vm: &AzureName) -> (request: Request)
    ensures
        request.method == Method::Post,
        request.uri@ == spec_vm_uri(sub@, rg@, vm@, "deallocate"@, API_VERSION@),
        request.headers@.len() == 0,
        request.body matches Some(bytes) && bytes@.len() == 0,
{
    Request::new(Method::Post, vm_uri(sub, rg, vm, "deallocate", API_VERSION), Some(Vec::new()))
}

/// The request that reads the state of a virtual machine: a `GET` with an
/// empty body.
pub fn instance_view_request(sub: &AzureId, rg: &AzureName, vm: &AzureName) -> (request: Request)
    ensures
        request.method == Method::Get,
        request.uri@ == spec_vm_uri(sub@, rg@, vm@, "instanceView"@, API_VERSION@),
        request.headers@.len() == 0,
        request.body matches Some(bytes) && bytes@.len() == 0,
{
    Request::new(Method::Get, vm_uri(sub, rg, vm, "instanceView", API_VERSION), Some(Vec::new()))
}

/// A start or a deallocation that the service has accepted.
#[derive(Debug)]
pub struct ActionTask {
    task: AsyncTask,
}

/// What the client does once a poll for an action has been answered.
#[derive(Debug)]
pub enum ActionStep {
    /// The wait is over: the action is done, or it failed.
    Done(Result<(), SimpleError>),
    /// The action still runs: sleep for the poll interval, then poll again.
    Sleep(ActionTask),
}

impl ActionTask {
    /// The wait that polls for this action.
    pub closed spec fn spec_task(&self) -> AsyncTask {
        self.task
    }

    /// The step that follows the answer `outcome` to a poll that has come
    /// at `now`.
    pub open spec fn spec_step(self, outcome: Result<Response, SimpleError>, now: Timestamp)
        -> ActionStep {
        match self.spec_task().spec_step(outcome, now) {
            PollStep::Done(Ok(_)) => ActionStep::Done(Ok(())),
            PollStep::Done(Err(e)) => ActionStep::Done(Err(e)),
            PollStep::Sleep(task) => ActionStep::Sleep(self),
        }
    }

    /// The action whose progress `response`, received at `now`, tells to
    /// poll for at the address in its location header. The wait for the
    /// action counts its time from `now`.
    pub fn from_response(response: &Response, now: Timestamp) -> (r: Result<
        ActionTask,
        SimpleError,
    >)
        ensures
            match spec_poll_location(*response) {
                Ok(uri) => r matches Ok(action) && action.spec_task().spec_uri() == uri
                    && action.spec_task().spec_timeout() is None
                    && action.spec_task().spec_created() == now,
                Err(e) => r == Err::<ActionTask, SimpleError>(e),
            },
    {
        match poll_location(response, now) {
            Ok(task) => Ok(ActionTask { task }),
            Err(e) => Err(e),
        }
    }

    /// The same action, with `timeout` as the longest time to wait for it,
    /// counted from when the action was accepted.
    pub fn timeout(self, timeout: Option<Span>) -> (action: ActionTask)
        ensures
            action.spec_task().spec_uri() == self.spec_task().spec_uri(),
            action.spec_task().spec_timeout() == timeout,
            action.spec_task().spec_created() == self.spec_task().spec_created(),
    {
        ActionTask { task: self.task.timeout(timeout) }
    }

    /// The request of one poll.
    pub fn poll_request(&self) -> (request: Request)
        ensures
            is_poll_of(request, self.spec_task().spec_uri()),
    {
        self.task.poll_request()
    }

    /// Decides what follows the answer `outcome` to a poll that has come at
    /// `now`, as the wait behind this action does; the final response is
    /// dropped.
    pub fn step(self, outcome: Result<Response, SimpleError>, now: &Timestamp) -> (next:
        ActionStep)
        ensures
            next == self.spec_step(outcome, *now),
    {
        match self.task.step(outcome, now) {
            PollStep::Done(Ok(_)) => ActionStep::Done(Ok(())),
            PollStep::Done(Err(e)) => ActionStep::Done(Err(e)),
            PollStep::Sleep(task) => ActionStep::Sleep(ActionTask { task }),
        }
    }
}

/// One status that the agent on a virtual machine reports.
#[derive(Debug)]
pub struct Status {
    pub display_status: String,
}

/// The agent on a virtual machine, by the statuses it reports.
#[derive(Debug)]
pub struct VmAgent {
    pub statuses: Vec<Status>,
}

/// The state of a virtual machine, as far as the client reads it.
#[derive(Debug)]
pub struct InstanceView {
    pub vm_agent: Option<VmAgent>,
}

/// The display texts of `statuses`, in their order.
pub open spec fn display_texts(statuses: Seq<Status>) -> Seq<Seq<char>> {
    Seq::new(statuses.len(), |i: int| statuses[i].display_status@)
}

/// The display text that the JSON value `item` gives as a status: it is an
/// object whose member `displayStatus` is a string.
pub open spec fn spec_status(item: Json) -> Option<Seq<char>> {
    match item.spec_member("displayStatus"@) {
        Some(text) => text.spec_text(),
        None => None,
    }
}

/// The display texts that the JSON values `items` give, where each of them
/// is a status.
pub open spec fn spec_statuses(items: Seq<Json>) -> Option<Seq<Seq<char>>> {
    if forall|i: int| 0 <= i < items.len() ==> (#[trigger] spec_status(items[i])) is Some {
        Some(Seq::new(items.len(), |i: int| spec_status(items[i])->0))
    } else {
        None
    }
}

/// The statuses that the JSON value `agent` gives as an agent: it is an
/// object whose member `statuses` is an array of statuses.
pub open spec fn spec_agent(agent: Json) -> Option<Seq<Seq<char>>> {
    match agent.spec_member("statuses"@) {
        Some(Json::Array(items)) => spec_statuses(items@),
        _ => None,
    }
}

/// What the JSON document `tree` says of a virtual machine: nothing where it
/// has not the expected shape; else the statuses of the agent, where the
/// object has a member `vmAgent` that is not `null`.
pub open spec fn spec_instance_view(tree: Json) -> Option<Option<Seq<Seq<char>>>> {
    if !(tree is Object) {
        None
    } else {
        match tree.spec_member("vmAgent"@) {
            None => Some(None),
            Some(Json::Null) => Some(None),
            Some(agent) => match spec_agent(agent) {
                Some(texts) => Some(Some(texts)),
                None => None,
            },
        }
    }
}

impl View for InstanceView {
    type V = Option<Seq<Seq<char>>>;

    /// The display texts of the agent's statuses, where there is an agent.
    open spec fn view(&self) -> Option<Seq<Seq<char>>> {
        match self.vm_agent {
            Some(agent) => Some(display_texts(agent.statuses@)),
            None => None,
        }
    }
}

impl Status {
    /// Reads a status from the JSON value `item`.
    pub fn from_json(item: &Json) -> (r: Option<Status>)
        ensures
            r is Some <==> spec_status(*item) is Some,
            r matches Some(status) ==> Some(status.display_status@) == spec_status(*item),
    {
        match item.member("displayStatus") {
            Some(text) => match text.text() {
                Some(s) => Some(Status { display_status: String::from_str(s) }),
                None => None,
            },
            None => None,
        }
    }
}

impl VmAgent {
    /// Reads an agent from the JSON value `agent`.
    pub fn from_json(agent: &Json) -> (r: Option<VmAgent>)
        ensures
            r is Some <==> spec_agent(*agent) is Some,
            r matches Some(a) ==> Some(display_texts(a.statuses@)) == spec_agent(*agent),
    {
        match agent.member("statuses") {
            Some(Json::Array(items)) => {
                let mut statuses: Vec<Status> = Vec::new();
                let mut i: usize = 0;
                while i < items.len()
                    invariant
                        i <= items.len(),
                        statuses@.len() == i,
                        spec_agent(*agent) == spec_statuses(items@),
                        forall|k: int|
                            0 <= k < i ==> Some((#[trigger] statuses@[k]).display_status@)
                                == spec_status(items@[k]),
                    decreases items.len() - i,
                {
                    match Status::from_json(&items[i]) {
                        Some(status) => {
                            statuses.push(status);
                        },
                        None => {
                            return None;
                        },
                    }
                    i += 1;
                }
                proof {
                    assert forall|k: int| 0 <= k < items@.len() implies (#[trigger] spec_status(
                        items@[k],
                    )) is Some by {
                        assert(Some(statuses@[k].display_status@) == spec_status(items@[k]));
                    }
                }
                Some(VmAgent { statuses })
            },
            _ => None,
        }
    }
}

impl InstanceView {
    /// Whether the first status of the agent reads "Ready".
    pub open spec fn spec_is_ready(&self) -> bool {
        self@ matches Some(texts) && texts.len() > 0 && texts[0] == "Ready"@
    }

    /// Reads the state of a virtual machine from the JSON document `tree`.
    pub fn from_json(tree: &Json) -> (r: Result<InstanceView, SimpleError>)
        ensures
            match spec_instance_view(*tree) {
                Some(view) => r matches Ok(found) && found@ == view,
                None => r matches Err(e) && e is UnexpectedShape,
            },
    {
        match tree {
            Json::Object(_) => {},
            _ => {
                return Err(SimpleError::UnexpectedShape);
            },
        }
        match tree.member("vmAgent") {
            None => Ok(InstanceView { vm_agent: None }),
            Some(Json::Null) => Ok(InstanceView { vm_agent: None }),
            Some(agent) => match VmAgent::from_json(agent) {
                Some(a) => Ok(InstanceView { vm_agent: Some(a) }),
                None => Err(SimpleError::UnexpectedShape),
            },
        }
    }

    /// Reads the state of a virtual machine from the body of a response. A
    /// body that is no JSON document is refused with the parser's error, one
    /// of another shape with `UnexpectedShape`.
    pub fn parse(body: &str) -> (r: Result<InstanceView, SimpleError>)
        ensures
            match json_document(body@) {
                None => r matches Err(e) && e is SerdeError,
                Some(tree) => match spec_instance_view(tree) {
                    Some(view) => r matches Ok(found) && found@ == view,
                    None => r matches Err(e) && e is UnexpectedShape,
                },
            },
    {
        match parse_document(body) {
            Ok(tree) => InstanceView::from_json(&tree),
            Err(e) => Err(SimpleError::SerdeError(e)),
        }
    }

    /// Whether the agent on the machine says that it is ready: there is an
    /// agent, and the first of its statuses reads "Ready".
    pub fn is_ready(&self) -> (ready: bool)
        ensures
            ready == self.spec_is_ready(),
    {
        match &self.vm_agent {
            Some(agent) => {
                if agent.statuses.len() > 0 {
                    str_eq(agent.statuses[0].display_status.as_str(), "Ready")
                } else {
                    false
                }
            },
            None => false,
        }
    }
}

} // verus!
