//! The evaluation of PAC scripts.
//!
//! A JavaScript engine runs the scripts, and the caller runs the engine: an [`Evaluator`] says
//! which action comes next ([`Evaluator::action`]) and takes the engine's reply
//! ([`Evaluator::advance`]), until an operation has come to its end.
use crate::dns;
use crate::dns::{DnsCache, DnsMap};
use crate::proxy;
use crate::proxy::Proxies;
use crate::text;
use crate::uri;
use crate::uri::Uri;
use vstd::prelude::*;
use vstd::string::*;

verus! {

/// The script that goes without a proxy.
pub const DEFAULT_PAC_SCRIPT: &'static str = "function FindProxyForURL(url, host) { return \"DIRECT\"; }";

/// The global under which the engine keeps the cache of resolved names.
pub const DNS_CACHE_NAME: &'static str = "_dnsCache";

/// The function with which a script resolves a name.
pub const DNS_RESOLVE_NAME: &'static str = "dnsResolve";

/// The function that prints a message.
pub const ALERT_NAME: &'static str = "alert";

/// The function that gives the address of this machine.
pub const MY_IP_ADDRESS_NAME: &'static str = "myIpAddress";

/// The function that a PAC script defines.
pub const FIND_PROXY_NAME: &'static str = "FindProxyForURL";

/// A script is not a PAC script.
#[derive(Debug, Clone, Copy, PartialEq, Eq, Structural)]
pub struct PacScriptError;

/// An evaluator could not be made.
#[derive(Debug, Clone, Copy, PartialEq, Eq, Structural)]
pub enum CreateEvaluatorError {
    /// The engine could not be set up.
    CreateContext,
    /// The script was refused.
    EvalPacFile(PacScriptError),
}

/// No proxy could be found.
#[derive(Debug, Clone, Copy, PartialEq, Eq, Structural)]
pub enum FindProxyError {
    /// The URL has no host.
    NoHost,
    /// The script's result is not a list of proxies.
    InvalidResult,
    /// The engine failed.
    InternalError,
}

impl From<PacScriptError> for CreateEvaluatorError {
    fn from(cause: PacScriptError) -> (r: Self) {
        CreateEvaluatorError::EvalPacFile(cause)
    }
}

impl vstd::std_specs::convert::FromSpecImpl<PacScriptError> for CreateEvaluatorError {
    open spec fn obeys_from_spec() -> bool {
        true
    }

    open spec fn from_spec(cause: PacScriptError) -> Self {
        CreateEvaluatorError::EvalPacFile(cause)
    }
}

impl PacScriptError {
    /// What went wrong, for people.
    pub fn message(&self) -> (r: String)
        ensures
            r@ == "Invalid PAC script"@,
    {
        "Invalid PAC script".to_owned()
    }
}

impl CreateEvaluatorError {
    /// What went wrong, for people.
    pub fn message(&self) -> (r: String)
        ensures
            r@ == match self {
                CreateEvaluatorError::CreateContext => "failed to create JS context"@,
                CreateEvaluatorError::EvalPacFile(_) => "failed to evaluate PAC: "@
                    + "Invalid PAC script"@,
            },
    {
        match self {
            CreateEvaluatorError::CreateContext => "failed to create JS context".to_owned(),
            CreateEvaluatorError::EvalPacFile(cause) => {
                let why: String = cause.message();
                text::concat2("failed to evaluate PAC: ", why.as_str())
            },
        }
    }
}

impl FindProxyError {
    /// What went wrong, for people.
    pub fn message(&self) -> (r: String)
        ensures
            r@ == match self {
                FindProxyError::NoHost => "no host in URL"@,
                FindProxyError::InvalidResult => "invalid result from PAC script"@,
                FindProxyError::InternalError => "internal error when processing PAC script"@,
            },
    {
        match self {
            FindProxyError::NoHost => "no host in URL".to_owned(),
            FindProxyError::InvalidResult => "invalid result from PAC script".to_owned(),
            FindProxyError::InternalError => "internal error when processing PAC script".to_owned(),
        }
    }
}

/// Something for the engine to do.
#[derive(Debug)]
pub enum JsAction {
    /// Make a new context.
    CreateContext,
    /// Make the cache of resolved names known under this global name.
    PutGlobalPointer(&'static str),
    /// Define a function of this name that takes this many arguments.
    PushFunction(&'static str, i32),
    /// Evaluate the functions that PAC scripts may call.
    EvalPacUtils,
    /// Evaluate a script.
    Eval(String),
    /// Push the value of a global onto the stack.
    GetGlobalString(&'static str),
    /// Push a text onto the stack.
    PushString(String),
    /// Call the function below this many arguments; all of them give way to its result.
    Call(i32),
    /// Take the value at the top off the stack, and hand it out.
    Pop,
}

/// [`JsAction`] with its texts as sequences of characters.
pub enum Action {
    CreateContext,
    PutGlobalPointer(Seq<char>),
    PushFunction(Seq<char>, int),
    EvalPacUtils,
    Eval(Seq<char>),
    GetGlobalString(Seq<char>),
    PushString(Seq<char>),
    Call(int),
    Pop,
}

impl View for JsAction {
    type V = Action;

    open spec fn view(&self) -> Action {
        match self {
            JsAction::CreateContext => Action::CreateContext,
            JsAction::PutGlobalPointer(name) => Action::PutGlobalPointer(name@),
            JsAction::PushFunction(name, arity) => Action::PushFunction(name@, *arity as int),
            JsAction::EvalPacUtils => Action::EvalPacUtils,
            JsAction::Eval(script) => Action::Eval(script@),
            JsAction::GetGlobalString(name) => Action::GetGlobalString(name@),
            JsAction::PushString(s) => Action::PushString(s@),
            JsAction::Call(arity) => Action::Call(*arity as int),
            JsAction::Pop => Action::Pop,
        }
    }
}

/// The engine's reply to an action.
#[derive(Debug)]
pub enum JsReply {
    /// The action was done.
    Done,
    /// The action failed. Where it was to push a value, the stack is as it was before.
    Failed,
    /// `null` was taken off the stack.
    Null,
    /// A text was taken off the stack.
    Text(String),
    /// Another value was taken off the stack.
    Other,
}

/// [`JsReply`] with its text as a sequence of characters.
pub enum Reply {
    Done,
    Failed,
    Null,
    Text(Seq<char>),
    Other,
}

impl View for JsReply {
    type V = Reply;

    open spec fn view(&self) -> Reply {
        match self {
            JsReply::Done => Reply::Done,
            JsReply::Failed => Reply::Failed,
            JsReply::Null => Reply::Null,
            JsReply::Text(s) => Reply::Text(s@),
            JsReply::Other => Reply::Other,
        }
    }
}

/// An operation of an evaluator.
pub enum TaskView {
    /// To set up the engine, and to load a script where one is given.
    Create(Option<Seq<char>>),
    /// To load a script.
    SetScript(Seq<char>),
    /// To ask the script for the proxies for a URL and its host.
    FindProxy(Seq<char>, Seq<char>),
    /// To resolve a host as a script would.
    Resolve(Seq<char>),
    /// To take so many values off the stack, after finding proxies was broken off.
    CleanUp(nat),
}

/// Where an evaluator stands.
pub enum Phase {
    /// Ready for an operation.
    Idle,
    /// It could not be set up.
    Broken,
    /// So many actions of an operation are done.
    Busy(TaskView, int),
}

/// The actions that set up the engine.
pub open spec fn setup_plan() -> Seq<Action> {
    seq![
        Action::CreateContext,
        Action::PutGlobalPointer(DNS_CACHE_NAME@),
        Action::PushFunction(DNS_RESOLVE_NAME@, 1),
        Action::PushFunction(ALERT_NAME@, 1),
        Action::PushFunction(MY_IP_ADDRESS_NAME@, 0),
        Action::EvalPacUtils,
        Action::Eval(DEFAULT_PAC_SCRIPT@),
    ]
}

/// The actions of an operation, in order.
pub open spec fn plan(task: TaskView) -> Seq<Action> {
    match task {
        TaskView::Create(None) => setup_plan(),
        TaskView::Create(Some(script)) => setup_plan().push(Action::Eval(script)),
        TaskView::SetScript(script) => seq![Action::Eval(script)],
        TaskView::FindProxy(url, host) => seq![
            Action::GetGlobalString(FIND_PROXY_NAME@),
            Action::PushString(url),
            Action::PushString(host),
            Action::Call(2),
            Action::Pop,
        ],
        TaskView::Resolve(host) => seq![
            Action::GetGlobalString(DNS_RESOLVE_NAME@),
            Action::PushString(host),
            Action::Call(1),
            Action::Pop,
        ],
        TaskView::CleanUp(values) => Seq::new(values, |i: int| Action::Pop),
    }
}

/// What a reply came to: the operation goes on, or it has ended.
#[derive(Debug)]
pub enum Outcome {
    /// The operation goes on with the next action.
    Continue,
    /// The evaluator was made, or it was not.
    Created(Result<(), CreateEvaluatorError>),
    /// The script was loaded, or it was not.
    ScriptSet(Result<(), PacScriptError>),
    /// The proxies were found, or they were not.
    ProxiesFound(Result<Proxies, FindProxyError>),
    /// The address of a host, where it has one.
    Resolved(Option<String>),
}

/// [`Outcome`] with lists and texts as sequences.
pub enum OutcomeView {
    Continue,
    Created(Result<(), CreateEvaluatorError>),
    ScriptSet(Result<(), PacScriptError>),
    ProxiesFound(Result<Seq<proxy::ProxyView>, FindProxyError>),
    Resolved(Option<Seq<char>>),
}

pub open spec fn found_view(
    found: Result<Proxies, FindProxyError>,
) -> Result<Seq<proxy::ProxyView>, FindProxyError> {
    match found {
        Ok(p) => Ok(p@),
        Err(e) => Err(e),
    }
}

impl View for Outcome {
    type V = OutcomeView;

    open spec fn view(&self) -> OutcomeView {
        match self {
            Outcome::Continue => OutcomeView::Continue,
            Outcome::Created(r) => OutcomeView::Created(*r),
            Outcome::ScriptSet(r) => OutcomeView::ScriptSet(*r),
            Outcome::ProxiesFound(r) => OutcomeView::ProxiesFound(found_view(*r)),
            Outcome::Resolved(address) => OutcomeView::Resolved(uri::option_text(*address)),
        }
    }
}

/// The proxies in the value that a script returned.
pub open spec fn proxies_in_value(value: Reply) -> Result<Seq<proxy::ProxyView>, FindProxyError> {
    match value {
        Reply::Text(s) => match proxy::result_proxies(s) {
            Some(p) => Ok(p),
            None => Err(FindProxyError::InvalidResult),
        },
        _ => Err(FindProxyError::InvalidResult),
    }
}

/// What a reply comes to once `done` actions of `task` are done.
pub open spec fn outcome_of(task: TaskView, done: int, reply: Reply) -> OutcomeView {
    match task {
        TaskView::Create(_) => if reply is Failed {
            if done < setup_plan().len() {
                OutcomeView::Created(Err(CreateEvaluatorError::CreateContext))
            } else {
                OutcomeView::Created(Err(CreateEvaluatorError::EvalPacFile(PacScriptError)))
            }
        } else if done + 1 < plan(task).len() {
            OutcomeView::Continue
        } else {
            OutcomeView::Created(Ok(()))
        },
        TaskView::SetScript(_) => if reply is Failed {
            OutcomeView::ScriptSet(Err(PacScriptError))
        } else {
            OutcomeView::ScriptSet(Ok(()))
        },
        TaskView::FindProxy(_, _) => if done == 0 && reply is Failed {
            OutcomeView::ProxiesFound(Err(FindProxyError::InternalError))
        } else if done < 4 {
            OutcomeView::Continue
        } else {
            OutcomeView::ProxiesFound(proxies_in_value(reply))
        },
        TaskView::Resolve(_) => if done < 3 {
            OutcomeView::Continue
        } else {
            match reply {
                Reply::Text(address) => OutcomeView::Resolved(Some(address)),
                _ => OutcomeView::Resolved(None),
            }
        },
        TaskView::CleanUp(values) => if done + 1 < values {
            OutcomeView::Continue
        } else {
            OutcomeView::ProxiesFound(Err(FindProxyError::InternalError))
        },
    }
}

/// Whether a reply breaks off finding proxies: the function, the URL or the host could not be
/// pushed. As many values were pushed before as actions were done.
pub open spec fn breaks_off(task: TaskView, done: int, reply: Reply) -> bool {
    task is FindProxy && done < 3 && reply is Failed
}

/// Where an evaluator stands after a reply.
pub open spec fn phase_after(task: TaskView, done: int, reply: Reply) -> Phase {
    match outcome_of(task, done, reply) {
        OutcomeView::Continue => if breaks_off(task, done, reply) {
            Phase::Busy(TaskView::CleanUp(done as nat), 0)
        } else {
            Phase::Busy(task, done + 1)
        },
        OutcomeView::Created(Err(_)) => Phase::Broken,
        _ => Phase::Idle,
    }
}

/// Whether an evaluator is able to take a reply: it waits for one; the scripts that it brings
/// along did not fail; and resolving a name neither failed nor gave anything but a text or `null`.
pub open spec fn takes_reply(phase: Phase, reply: Reply) -> bool {
    match phase {
        Phase::Busy(task, done) => match task {
            TaskView::Create(_) => reply is Failed ==> done != 5 && done != 6,
            TaskView::Resolve(_) => {
                &&& done < 2 ==> !(reply is Failed)
                &&& done == 3 ==> reply is Text || reply is Null
            },
            _ => true,
        },
        _ => false,
    }
}

/// The script that a request to load one stands for.
pub open spec fn script_or_default(script: Option<Seq<char>>) -> Seq<char> {
    match script {
        Some(s) => s,
        None => DEFAULT_PAC_SCRIPT@,
    }
}

#[derive(Debug)]
enum Task {
    Create(Option<String>),
    SetScript(String),
    FindProxy(String, String),
    Resolve(String),
    CleanUp(usize),
}

impl View for Task {
    type V = TaskView;

    closed spec fn view(&self) -> TaskView {
        match self {
            Task::Create(script) => TaskView::Create(uri::option_text(*script)),
            Task::SetScript(script) => TaskView::SetScript(script@),
            Task::FindProxy(url, host) => TaskView::FindProxy(url@, host@),
            Task::Resolve(host) => TaskView::Resolve(host@),
            Task::CleanUp(values) => TaskView::CleanUp(*values as nat),
        }
    }
}

#[derive(Debug)]
struct Run {
    task: Task,
    done: usize,
}

impl Run {
    #[verifier::type_invariant]
    spec fn well_formed(self) -> bool {
        self.done < plan(self.task@).len()
    }

    fn start(task: Task) -> (r: Run)
        requires
            plan(task@).len() > 0,
        ensures
            r.task@ == task@,
            r.done == 0,
    {
        Run { task, done: 0 }
    }

    fn action(&self) -> (r: JsAction)
        ensures
            r@ == plan(self.task@)[self.done as int],
    {
        proof {
            use_type_invariant(self);
        }
        match &self.task {
            Task::Create(script) => match self.done {
                0 => JsAction::CreateContext,
                1 => JsAction::PutGlobalPointer(DNS_CACHE_NAME),
                2 => JsAction::PushFunction(DNS_RESOLVE_NAME, 1),
                3 => JsAction::PushFunction(ALERT_NAME, 1),
                4 => JsAction::PushFunction(MY_IP_ADDRESS_NAME, 0),
                5 => JsAction::EvalPacUtils,
                6 => JsAction::Eval(DEFAULT_PAC_SCRIPT.to_owned()),
                _ => match script {
                    Some(s) => JsAction::Eval(s.clone()),
                    None => JsAction::Pop,
                },
            },
            Task::SetScript(script) => JsAction::Eval(script.clone()),
            Task::FindProxy(url, host) => match self.done {
                0 => JsAction::GetGlobalString(FIND_PROXY_NAME),
                1 => JsAction::PushString(url.clone()),
                2 => JsAction::PushString(host.clone()),
                3 => JsAction::Call(2),
                _ => JsAction::Pop,
            },
            Task::Resolve(host) => match self.done {
                0 => JsAction::GetGlobalString(DNS_RESOLVE_NAME),
                1 => JsAction::PushString(host.clone()),
                2 => JsAction::Call(1),
                _ => JsAction::Pop,
            },
            Task::CleanUp(_) => JsAction::Pop,
        }
    }
}

#[derive(Debug)]
enum State {
    Idle,
    Broken,
    Busy(Run),
}

/// Whether a reply says that its action failed.
fn has_failed(reply: &JsReply) -> (r: bool)
    ensures
        r == (reply@ is Failed),
{
    match reply {
        JsReply::Failed => true,
        _ => false,
    }
}

/// The proxies in the value that a script returned: a text that lists them.
pub fn proxies_from(value: &JsReply) -> (r: Result<Proxies, FindProxyError>)
    ensures
        found_view(r) == proxies_in_value(value@),
{
    match value {
        JsReply::Text(s) => match Proxies::parse(s.as_str()) {
            Ok(p) => Ok(p),
            Err(_) => Err(FindProxyError::InvalidResult),
        },
        _ => Err(FindProxyError::InvalidResult),
    }
}

/// Evaluates PAC scripts.
#[derive(Debug)]
pub struct Evaluator {
    state: State,
    dns_cache: DnsCache,
}

impl Evaluator {
    /// Where the evaluator stands.
    pub closed spec fn phase(&self) -> Phase {
        match self.state {
            State::Idle => Phase::Idle,
            State::Broken => Phase::Broken,
            State::Busy(run) => Phase::Busy(run.task@, run.done as int),
        }
    }

    /// The hosts that were resolved, in the order in which they became known.
    pub closed spec fn known(&self) -> dns::Entries {
        self.dns_cache.known()
    }

    /// The hosts that were resolved, each with its address.
    pub open spec fn resolved(&self) -> Map<Seq<char>, Option<Seq<char>>> {
        dns::dns_map(self.known())
    }

    /// Starts to make an evaluator with the script that goes without a proxy.
    pub fn new() -> (r: Evaluator)
        ensures
            r.phase() == Phase::Busy(TaskView::Create(None), 0),
            r.known() == dns::Entries::empty(),
            r.resolved() == Map::<Seq<char>, Option<Seq<char>>>::empty(),
    {
        Evaluator { state: State::Busy(Run::start(Task::Create(None))), dns_cache: DnsCache::new() }
    }

    /// Starts to make an evaluator with `pac_script`.
    pub fn with_pac_script(pac_script: &str) -> (r: Evaluator)
        ensures
            r.phase() == Phase::Busy(TaskView::Create(Some(pac_script@)), 0),
            r.known() == dns::Entries::empty(),
            r.resolved() == Map::<Seq<char>, Option<Seq<char>>>::empty(),
    {
        Evaluator {
            state: State::Busy(Run::start(Task::Create(Some(pac_script.to_owned())))),
            dns_cache: DnsCache::new(),
        }
    }

    /// Whether the evaluator is ready for an operation.
    pub fn is_idle(&self) -> (r: bool)
        ensures
            r == (self.phase() is Idle),
    {
        match &self.state {
            State::Idle => true,
            _ => false,
        }
    }

    /// Starts to load a script; without one, that which goes without a proxy.
    pub fn set_pac_script(&mut self, pac_script: Option<&str>)
        requires
            old(self).phase() is Idle,
        ensures
            final(self).phase() == Phase::Busy(
                TaskView::SetScript(script_or_default(uri::option_str(pac_script))),
                0,
            ),
            pac_script matches Some(s) ==> final(self).phase() == Phase::Busy(
                TaskView::SetScript(s@),
                0,
            ),
            final(self).known() == old(self).known(),
    {
        let script: String = match pac_script {
            Some(s) => s.to_owned(),
            None => DEFAULT_PAC_SCRIPT.to_owned(),
        };
        self.state = State::Busy(Run::start(Task::SetScript(script)));
    }

    /// Starts to find the proxies for a URL, which must have a host.
    pub fn find_proxy(&mut self, uri: &Uri) -> (r: Result<(), FindProxyError>)
        requires
            old(self).phase() is Idle,
        ensures
            uri@.host is None ==> r == Err::<(), FindProxyError>(FindProxyError::NoHost)
                && final(self).phase() is Idle,
            uri@.host matches Some(host) ==> r is Ok && final(self).phase() == Phase::Busy(
                TaskView::FindProxy(uri::uri_text(uri@), host),
                0,
            ),
            final(self).known() == old(self).known(),
    {
        match uri.host() {
            Some(host) => {
                let task = Task::FindProxy(uri.text(), host.to_owned());
                self.state = State::Busy(Run::start(task));
                Ok(())
            },
            None => Err(FindProxyError::NoHost),
        }
    }

    /// Starts to resolve a host as a script would.
    pub fn dns_resolve(&mut self, host: &str)
        requires
            old(self).phase() is Idle,
        ensures
            final(self).phase() == Phase::Busy(TaskView::Resolve(host@), 0),
            final(self).known() == old(self).known(),
    {
        self.state = State::Busy(Run::start(Task::Resolve(host.to_owned())));
    }

    /// The action that comes next, while an operation goes on.
    pub fn action(&self) -> (r: Option<JsAction>)
        ensures
            r is Some <==> self.phase() is Busy,
            self.phase() matches Phase::Busy(task, done) ==> {
                &&& 0 <= done < plan(task).len()
                &&& r->0@ == plan(task)[done]
            },
    {
        match &self.state {
            State::Busy(run) => {
                proof {
                    use_type_invariant(run);
                }
                Some(run.action())
            },
            _ => None,
        }
    }

    /// Whether the evaluator is able to take a reply.
    pub fn accepts(&self, reply: &JsReply) -> (r: bool)
        ensures
            r == takes_reply(self.phase(), reply@),
    {
        match &self.state {
            State::Busy(run) => match &run.task {
                Task::Create(_) => !has_failed(reply) || (run.done != 5 && run.done != 6),
                Task::Resolve(_) => {
                    if run.done == 3 {
                        match reply {
                            JsReply::Text(_) => true,
                            JsReply::Null => true,
                            _ => false,
                        }
                    } else {
                        run.done >= 2 || !has_failed(reply)
                    }
                },
                _ => true,
            },
            _ => false,
        }
    }

    /// Takes the engine's reply to the action that came next.
    pub fn advance(&mut self, reply: JsReply) -> (r: Outcome)
        requires
            takes_reply(old(self).phase(), reply@),
        ensures
            old(self).phase() matches Phase::Busy(task, done) ==> {
                &&& r@ == outcome_of(task, done, reply@)
                &&& final(self).phase() == phase_after(task, done, reply@)
            },
            final(self).known() == old(self).known(),
    {
        let mut state: State = State::Idle;
        std::mem::swap(&mut state, &mut self.state);
        let run: Run = match state {
            State::Busy(run) => run,
            _ => {
                return Outcome::Continue;
            },
        };
        proof {
            use_type_invariant(&run);
        }
        let done: usize = run.done;
        let task: Task = run.task;
        match &task {
            Task::Create(script) => {
                if has_failed(&reply) {
                    self.state = State::Broken;
                    let error: CreateEvaluatorError = if done < 7 {
                        CreateEvaluatorError::CreateContext
                    } else {
                        CreateEvaluatorError::from(PacScriptError)
                    };
                    return Outcome::Created(Err(error));
                }
                let len: usize = if script.is_some() {
                    8
                } else {
                    7
                };
                if done + 1 >= len {
                    return Outcome::Created(Ok(()));
                }
            },
            Task::SetScript(_) => {
                return if has_failed(&reply) {
                    Outcome::ScriptSet(Err(PacScriptError))
                } else {
                    Outcome::ScriptSet(Ok(()))
                };
            },
            Task::FindProxy(_, _) => {
                if done < 3 && has_failed(&reply) {
                    if done == 0 {
                        return Outcome::ProxiesFound(Err(FindProxyError::InternalError));
                    }
                    self.state = State::Busy(Run::start(Task::CleanUp(done)));
                    return Outcome::Continue;
                }
                if done >= 4 {
                    return Outcome::ProxiesFound(proxies_from(&reply));
                }
            },
            Task::Resolve(_) => {
                if done >= 3 {
                    return match reply {
                        JsReply::Text(address) => Outcome::Resolved(Some(address)),
                        _ => Outcome::Resolved(None),
                    };
                }
            },
            Task::CleanUp(values) => {
                if done + 1 >= *values {
                    return Outcome::ProxiesFound(Err(FindProxyError::InternalError));
                }
            },
        }
        self.state = State::Busy(Run { task, done: done + 1 });
        Outcome::Continue
    }

    /// What is known about the addresses of hosts.
    pub fn cache(&self) -> (r: DnsMap)
        ensures
            dns::entry_views(r@) == self.known(),
            dns::hosts_differ(self.known()),
    {
        self.dns_cache.map()
    }

    /// What is known about one host: nothing, that it has no address, or its address.
    pub fn known_address(&self, host: &str) -> (r: Option<Option<String>>)
        ensures
            r is Some <==> self.resolved().dom().contains(host@),
            r matches Some(address) ==> uri::option_text(address) == self.resolved()[host@],
    {
        self.dns_cache.lookup(host)
    }

    /// Remembers the outcome of resolving a host.
    pub fn remember_address(&mut self, host: &str, address: Option<String>)
        ensures
            dns::is_recorded(old(self).known(), host@, uri::option_text(address), final(self).known()),
            final(self).resolved() == old(self).resolved().insert(host@, uri::option_text(address)),
            final(self).phase() == old(self).phase(),
    {
        self.dns_cache.record(host, address);
    }
}

/// Where an evaluator stands, and what the last reply came to, once it has taken replies one by
/// one until an operation ended.
pub open spec fn drive(phase: Phase, replies: Seq<Reply>) -> (Phase, OutcomeView)
    decreases replies.len(),
{
    match phase {
        Phase::Busy(task, done) => if replies.len() == 0 {
            (phase, OutcomeView::Continue)
        } else {
            let outcome = outcome_of(task, done, replies[0]);
            let next = phase_after(task, done, replies[0]);
            if outcome is Continue {
                drive(next, replies.drop_first())
            } else {
                (next, outcome)
            }
        },
        _ => (phase, OutcomeView::Continue),
    }
}

/// Finding a proxy takes five replies at the most and leaves the evaluator ready for the next
/// operation. It gives the proxies that the last reply lists; it gives an internal error where
/// the engine could not be handed the function, the URL or the host, and an invalid result where
/// the last reply is not a list of proxies. How the call went does not count, nor how the values
/// that were pushed before a failure were taken off again.
pub proof fn law_find_proxy(url: Seq<char>, host: Seq<char>, replies: Seq<Reply>)
    requires
        replies.len() == 5,
    ensures
        drive(Phase::Busy(TaskView::FindProxy(url, host), 0), replies) == (
            Phase::Idle,
            OutcomeView::ProxiesFound(
                if replies[0] is Failed || replies[1] is Failed || replies[2] is Failed {
                    Err(FindProxyError::InternalError)
                } else {
                    proxies_in_value(replies[4])
                },
            ),
        ),
{
    reveal_with_fuel(drive, 6);
    let r1 = replies.drop_first();
    let r2 = r1.drop_first();
    let r3 = r2.drop_first();
    let r4 = r3.drop_first();
    assert(r1[0] == replies[1] && r2[0] == replies[2] && r3[0] == replies[3] && r4[0]
        == replies[4]);
}

/// Whether the first `n` replies all say that an action was done.
pub open spec fn all_well(replies: Seq<Reply>, n: int) -> bool {
    forall|i: int| 0 <= i < n ==> !(#[trigger] replies[i] is Failed)
}

proof fn lemma_drive_create(script: Option<Seq<char>>, done: int, replies: Seq<Reply>)
    requires
        0 <= done < plan(TaskView::Create(script)).len(),
        replies.len() >= plan(TaskView::Create(script)).len() - done,
    ensures
        ({
            let left = plan(TaskView::Create(script)).len() - done;
            let end = drive(Phase::Busy(TaskView::Create(script), done), replies);
            if all_well(replies, left) {
                end == (Phase::Idle, OutcomeView::Created(Ok(())))
            } else {
                end.0 is Broken && end.1 == OutcomeView::Created(
                    if all_well(replies, setup_plan().len() - done) {
                        Err(CreateEvaluatorError::EvalPacFile(PacScriptError))
                    } else {
                        Err(CreateEvaluatorError::CreateContext)
                    },
                )
            }
        }),
    decreases plan(TaskView::Create(script)).len() - done,
{
    let len = plan(TaskView::Create(script)).len() as int;
    let rest = replies.drop_first();
    if replies[0] is Failed {
        assert(!all_well(replies, len - done));
        if done < 7 {
            assert(!all_well(replies, 7 - done));
        }
    } else if done + 1 < len {
        lemma_drive_create(script, done + 1, rest);
        assert forall|n: int| 0 <= n < replies.len() implies all_well(replies, n + 1) == all_well(
            rest,
            n,
        ) by {
            if all_well(replies, n + 1) {
                assert forall|i: int| 0 <= i < n implies !(#[trigger] rest[i] is Failed) by {
                    assert(rest[i] == replies[i + 1]);
                }
            }
            if all_well(rest, n) {
                assert forall|i: int| 0 <= i < n + 1 implies !(#[trigger] replies[i] is Failed) by {
                    if i > 0 {
                        assert(rest[i - 1] == replies[i]);
                    }
                }
            }
        }
        assert(all_well(replies, len - done) == all_well(rest, len - done - 1));
        if done < 7 {
            assert(all_well(replies, 7 - done) == all_well(rest, 7 - done - 1));
        }
    }
}

/// An evaluator is made exactly where no action fails. It is refused for its script where only
/// the script that it was given failed, and for want of a context where anything else did. The
/// scripts that the evaluator brings along do not fail.
pub proof fn law_create(script: Option<Seq<char>>, replies: Seq<Reply>)
    requires
        replies.len() == plan(TaskView::Create(script)).len(),
        all_well(replies, 5) ==> all_well(replies, 7),
    ensures
        drive(Phase::Busy(TaskView::Create(script), 0), replies) == (if all_well(
            replies,
            replies.len() as int,
        ) {
            (Phase::Idle, OutcomeView::Created(Ok(())))
        } else if all_well(replies, setup_plan().len() as int) {
            (
                Phase::Broken,
                OutcomeView::Created(Err(CreateEvaluatorError::EvalPacFile(PacScriptError))),
            )
        } else {
            (Phase::Broken, OutcomeView::Created(Err(CreateEvaluatorError::CreateContext)))
        }),
{
    lemma_drive_create(script, 0, replies);
}

/// By how much an action with this reply makes the engine's stack grow: a global or a text that is
/// pushed stays on it, and is not there where pushing it failed; a call leaves one value, its result
/// or an error, in place of the function and its arguments; and one value is taken off.
pub open spec fn growth(action: Action, reply: Reply) -> int {
    match action {
        Action::GetGlobalString(_) | Action::PushString(_) => if reply is Failed {
            0
        } else {
            1
        },
        Action::Call(arguments) => -arguments,
        Action::Pop => -1,
        _ => 0,
    }
}

/// By how much the engine's stack grows while an evaluator takes replies one by one until an
/// operation has ended.
pub open spec fn total_growth(phase: Phase, replies: Seq<Reply>) -> int
    decreases replies.len(),
{
    match phase {
        Phase::Busy(task, done) => if replies.len() == 0 {
            0
        } else {
            let here = growth(plan(task)[done], replies[0]);
            if outcome_of(task, done, replies[0]) is Continue {
                here + total_growth(phase_after(task, done, replies[0]), replies.drop_first())
            } else {
                here
            }
        },
        _ => 0,
    }
}

/// Finding a proxy leaves the engine's stack as it was, whatever goes wrong.
pub proof fn law_find_proxy_keeps_stack(url: Seq<char>, host: Seq<char>, replies: Seq<Reply>)
    requires
        replies.len() == 5,
    ensures
        total_growth(Phase::Busy(TaskView::FindProxy(url, host), 0), replies) == 0,
{
    reveal_with_fuel(total_growth, 6);
    let r1 = replies.drop_first();
    let r2 = r1.drop_first();
    let r3 = r2.drop_first();
    let r4 = r3.drop_first();
    assert(r1[0] == replies[1] && r2[0] == replies[2] && r3[0] == replies[3] && r4[0]
        == replies[4]);
}

/// Resolving a name leaves the engine's stack as it was, where the function and the host could be
/// pushed.
pub proof fn law_resolve_keeps_stack(host: Seq<char>, replies: Seq<Reply>)
    requires
        replies.len() == 4,
        all_well(replies, 2),
    ensures
        total_growth(Phase::Busy(TaskView::Resolve(host), 0), replies) == 0,
{
    reveal_with_fuel(total_growth, 5);
    let r1 = replies.drop_first();
    let r2 = r1.drop_first();
    let r3 = r2.drop_first();
    assert(r1[0] == replies[1] && r2[0] == replies[2] && r3[0] == replies[3]);
}

/// A script that is given is loaded unchanged: it is the text that a new evaluator evaluates last,
/// after all that it evaluates without one, and the only text that loading a script evaluates.
pub proof fn law_given_script_is_loaded_unchanged(script: Seq<char>)
    ensures
        plan(TaskView::Create(Some(script_or_default(Some(script))))) == plan(
            TaskView::Create(None),
        ).push(Action::Eval(script)),
        plan(TaskView::SetScript(script_or_default(Some(script)))) == seq![Action::Eval(script)],
{
}

/// Without a script the one that is loaded is that which every new evaluator has evaluated already.
pub proof fn law_default_script_is_loaded()
    ensures
        plan(TaskView::SetScript(script_or_default(None))) == seq![
            plan(TaskView::Create(None)).last(),
        ],
        plan(TaskView::Create(None)).last() == Action::Eval(
            "function FindProxyForURL(url, host) { return \"DIRECT\"; }"@,
        ),
{
}

/// Before any script runs, the engine has a context, the cache of resolved names, and the functions
/// that scripts may call, each with the number of its arguments.
pub proof fn law_scripts_find_their_functions()
    ensures
        ({
            let p = plan(TaskView::Create(None));
            &&& p.len() == 7
            &&& p[0] == Action::CreateContext
            &&& p[1] == Action::PutGlobalPointer("_dnsCache"@)
            &&& p[2] == Action::PushFunction("dnsResolve"@, 1)
            &&& p[3] == Action::PushFunction("alert"@, 1)
            &&& p[4] == Action::PushFunction("myIpAddress"@, 0)
            &&& p[5] == Action::EvalPacUtils
        }),
{
}

/// A value on the engine's stack.
pub enum JsValue {
    /// The value of a global.
    Global(Seq<char>),
    /// A text.
    Text(Seq<char>),
    /// What a function gave for arguments.
    Returned(Box<JsValue>, Seq<JsValue>),
}

/// The engine's stack after an action that is done: values are pushed on its end.
pub open spec fn stack_after(stack: Seq<JsValue>, action: Action) -> Seq<JsValue> {
    match action {
        Action::GetGlobalString(name) => stack.push(JsValue::Global(name)),
        Action::PushString(s) => stack.push(JsValue::Text(s)),
        Action::Call(arguments) => {
            let function = stack.len() - arguments - 1;
            stack.take(function).push(
                JsValue::Returned(Box::new(stack[function]), stack.skip(function + 1)),
            )
        },
        Action::Pop => stack.drop_last(),
        _ => stack,
    }
}

/// The engine's stack after actions in a row.
pub open spec fn stack_after_all(stack: Seq<JsValue>, actions: Seq<Action>) -> Seq<JsValue>
    decreases actions.len(),
{
    if actions.len() == 0 {
        stack
    } else {
        stack_after_all(stack_after(stack, actions[0]), actions.drop_first())
    }
}

/// Finding a proxy takes off the stack, in the end, what the script's `FindProxyForURL` gave for the
/// URL and the host, in this order, whatever lay on the stack before.
pub proof fn law_find_proxy_calls_the_script(url: Seq<char>, host: Seq<char>, stack: Seq<JsValue>)
    ensures
        ({
            let actions = plan(TaskView::FindProxy(url, host));
            &&& actions.last() == Action::Pop
            &&& stack_after_all(stack, actions.drop_last()) == stack.push(
                JsValue::Returned(
                    Box::new(JsValue::Global("FindProxyForURL"@)),
                    seq![JsValue::Text(url), JsValue::Text(host)],
                ),
            )
        }),
{
    reveal_with_fuel(stack_after_all, 5);
    let function = JsValue::Global("FindProxyForURL"@);
    let arguments = seq![JsValue::Text(url), JsValue::Text(host)];
    let full = stack.push(function).push(JsValue::Text(url)).push(JsValue::Text(host));
    assert(full.take(stack.len() as int) =~= stack);
    assert(full.skip((stack.len() + 1) as int) =~= arguments);
    let a0 = plan(TaskView::FindProxy(url, host)).drop_last();
    let a1 = a0.drop_first();
    let a2 = a1.drop_first();
    let a3 = a2.drop_first();
    assert(a0[0] == Action::GetGlobalString("FindProxyForURL"@));
    assert(a1[0] == Action::PushString(url));
    assert(a2[0] == Action::PushString(host));
    assert(a3[0] == Action::Call(2));
}

/// Resolving a name takes off the stack, in the end, what `dnsResolve` gave for the host, whatever
/// lay on the stack before.
pub proof fn law_resolve_calls_the_function(host: Seq<char>, stack: Seq<JsValue>)
    ensures
        ({
            let actions = plan(TaskView::Resolve(host));
            &&& actions.last() == Action::Pop
            &&& stack_after_all(stack, actions.drop_last()) == stack.push(
                JsValue::Returned(
                    Box::new(JsValue::Global("dnsResolve"@)),
                    seq![JsValue::Text(host)],
                ),
            )
        }),
{
    reveal_with_fuel(stack_after_all, 4);
    let function = JsValue::Global("dnsResolve"@);
    let full = stack.push(function).push(JsValue::Text(host));
    assert(full.take(stack.len() as int) =~= stack);
    assert(full.skip((stack.len() + 1) as int) =~= seq![JsValue::Text(host)]);
    let a0 = plan(TaskView::Resolve(host)).drop_last();
    let a1 = a0.drop_first();
    let a2 = a1.drop_first();
    assert(a0[0] == Action::GetGlobalString("dnsResolve"@));
    assert(a1[0] == Action::PushString(host));
    assert(a2[0] == Action::Call(1));
}

/// The proxies in a value are those that its text lists as the result of a script; a value that is
/// no text, or a text that is no such result, is invalid, and there is no other error.
pub proof fn law_value_lists_proxies(s: Seq<char>, value: Reply)
    ensures
        proxy::result_proxies(s) matches Some(list) ==> proxies_in_value(Reply::Text(s)) == Ok::<
            Seq<proxy::ProxyView>,
            FindProxyError,
        >(list),
        proxies_in_value(value) is Ok ==> value is Text && proxy::result_proxies(value->Text_0)
            is Some,
        proxies_in_value(value) matches Err(e) ==> e == FindProxyError::InvalidResult,
{
}

/// Loading a script takes one reply: the script is loaded exactly where its evaluation did not fail,
/// and the evaluator is ready afterwards either way.
pub proof fn law_set_script(script: Seq<char>, reply: Reply)
    ensures
        drive(Phase::Busy(TaskView::SetScript(script), 0), seq![reply]) == (
            Phase::Idle,
            OutcomeView::ScriptSet(
                if reply is Failed {
                    Err(PacScriptError)
                } else {
                    Ok(())
                },
            ),
        ),
{
}

/// Resolving a name takes four replies and leaves the evaluator ready for the next operation. It
/// gives the text of the last reply, and no address where this is `null`; how the call went does not
/// count.
pub proof fn law_resolve(host: Seq<char>, replies: Seq<Reply>)
    requires
        replies.len() == 4,
        all_well(replies, 2),
        replies[3] is Text || replies[3] is Null,
    ensures
        drive(Phase::Busy(TaskView::Resolve(host), 0), replies) == (
            Phase::Idle,
            OutcomeView::Resolved(
                if replies[3] is Text {
                    Some(replies[3]->Text_0)
                } else {
                    None
                },
            ),
        ),
{
    reveal_with_fuel(drive, 5);
    let r1 = replies.drop_first();
    let r2 = r1.drop_first();
    let r3 = r2.drop_first();
    assert(r1[0] == replies[1] && r2[0] == replies[2] && r3[0] == replies[3]);
}

/// An evaluator that waits for a reply is able to take every reply while it finds a proxy or loads a
/// script, and every reply but a failure while it is made; of the failures while it is made, it is
/// able to take those of all actions but the two that evaluate the scripts it brings along.
pub proof fn law_replies_are_taken(task: TaskView, done: int, reply: Reply)
    requires
        0 <= done < plan(task).len(),
    ensures
        !(task is Create) && !(task is Resolve) ==> takes_reply(Phase::Busy(task, done), reply),
        task is Create ==> takes_reply(Phase::Busy(task, done), reply) == !(reply is Failed && (
        plan(task)[done] is EvalPacUtils || (plan(task)[done] is Eval && done == 6))),
        task is Resolve && done < 2 ==> takes_reply(Phase::Busy(task, done), reply) == !(
        reply is Failed),
        task is Resolve && done == 2 ==> takes_reply(Phase::Busy(task, done), reply),
        task is Resolve && done == 3 ==> takes_reply(Phase::Busy(task, done), reply) == (
        reply is Text || reply is Null),
        !takes_reply(Phase::Idle, reply),
        !takes_reply(Phase::Broken, reply),
{
}

/// Actions and replies are seen with all that they hold.
pub proof fn law_actions_and_replies_are_seen_whole(s: String, name: &'static str, number: i32)
    ensures
        JsAction::CreateContext@ == Action::CreateContext,
        JsAction::PutGlobalPointer(name)@ == Action::PutGlobalPointer(name@),
        JsAction::PushFunction(name, number)@ == Action::PushFunction(name@, number as int),
        JsAction::EvalPacUtils@ == Action::EvalPacUtils,
        JsAction::Eval(s)@ == Action::Eval(s@),
        JsAction::GetGlobalString(name)@ == Action::GetGlobalString(name@),
        JsAction::PushString(s)@ == Action::PushString(s@),
        JsAction::Call(number)@ == Action::Call(number as int),
        JsAction::Pop@ == Action::Pop,
        JsReply::Done@ == Reply::Done,
        JsReply::Failed@ == Reply::Failed,
        JsReply::Null@ == Reply::Null,
        JsReply::Text(s)@ == Reply::Text(s@),
        JsReply::Other@ == Reply::Other,
{
}

/// Outcomes are seen with all that they hold.
pub proof fn law_outcomes_are_seen_whole(
    created: Result<(), CreateEvaluatorError>,
    set: Result<(), PacScriptError>,
    proxies: Proxies,
    e: FindProxyError,
    address: String,
)
    ensures
        Outcome::Continue@ == OutcomeView::Continue,
        Outcome::Created(created)@ == OutcomeView::Created(created),
        Outcome::ScriptSet(set)@ == OutcomeView::ScriptSet(set),
        Outcome::ProxiesFound(Ok(proxies))@ == OutcomeView::ProxiesFound(Ok(proxies@)),
        Outcome::ProxiesFound(Err(e))@ == OutcomeView::ProxiesFound(Err(e)),
        Outcome::Resolved(Some(address))@ == OutcomeView::Resolved(Some(address@)),
        Outcome::Resolved(None)@ == OutcomeView::Resolved(None),
        found_view(Ok(proxies)) == Ok::<Seq<proxy::ProxyView>, FindProxyError>(proxies@),
        found_view(Err(e)) == Err::<Seq<proxy::ProxyView>, FindProxyError>(e),
{
}

/// Cleaning up takes as many values off the engine's stack as it was started for, and does nothing
/// else.
pub proof fn law_clean_up_pops(values: nat, i: int)
    ensures
        plan(TaskView::CleanUp(values)).len() == values,
        0 <= i < values ==> plan(TaskView::CleanUp(values))[i] == Action::Pop,
{
}

}
