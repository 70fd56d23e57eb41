//! The pipeline executor: a queue of tasks that is run in order, and one
//! result per task that completed.
//!
//! Work that only the caller can do (showing text, floating-point
//! arithmetic, HTTP, connecting to ports) is handed out as a `Request` and
//! comes back as a `Reply`. Everything else happens here.
use vstd::prelude::*;
use vstd::string::*;
use crate::crypto::hash;
use crate::errhuman::unit_outcome;
use crate::errhuman::ErrorKind;
use crate::errhuman::Fault;
use crate::errhuman::TransRError;
use crate::errhuman::TransRResult;
use crate::func::nowtime::NowTime;
use crate::func::rnet::Response;
use crate::func::rnet::ResponseModel;
use crate::func::sysez::summary_of;
use crate::func::sysez::SysEz;
use crate::func::sysez::SystemInfo;
use crate::looping::loop_admits;
use crate::looping::run_loop;
use crate::outside::duration_millis;
use crate::outside::elapsed_since;
use crate::outside::instant_now;
use crate::outside::md5_digest_hex;
use crate::outside::sha256_digest_hex;
use crate::plugins::hyros::default_findings;
use crate::plugins::hyros::default_templates;
use crate::plugins::hyros::lemma_matched_count_by_flags;
use crate::plugins::hyros::matched_count;
use crate::plugins::hyros::test_url;
use crate::plugins::hyros::HyrOS;
use crate::plugins::rustnetx::open_count;
use crate::plugins::rustnetx::scan_outcomes;
use crate::plugins::rustnetx::RustNetX;
use crate::task::task_label;
use crate::task::Task;
use crate::task::TaskModel;
use crate::text::decimal_digits;
use crate::text::join;
use crate::text::render_decimal;
use crate::text::same_text;

verus! {

/// The arithmetic that a `MathCalc` task may ask for.
#[derive(Debug, Clone, Copy, PartialEq, Eq, Structural)]
pub enum MathOp {
    Sum,
    Mean,
    Max,
    Min,
}

/// The HTTP methods that a `NetworkRequest` task may ask for.
#[derive(Debug, Clone, Copy, PartialEq, Eq, Structural)]
pub enum HttpMethod {
    Get,
    Post,
}

/// Work that a task needs from outside the pipeline.
///
/// `Math` carries its numbers as bit patterns of doubles. `Connect` asks for
/// one connection attempt per port, `Fetch` for one GET per address.
#[allow(inconsistent_fields)]
pub enum Request {
    Display { text: String },
    Math { operation: MathOp, args: Vec<u64> },
    Http { method: HttpMethod, url: String, body: Option<String> },
    Connect { host: String, ports: Vec<u16> },
    Fetch { urls: Vec<String> },
}

/// A request as contracts see it.
#[allow(inconsistent_fields)]
pub enum RequestModel {
    Display { text: Seq<char> },
    Math { operation: MathOp, args: Seq<u64> },
    Http { method: HttpMethod, url: Seq<char>, body: Option<Seq<char>> },
    Connect { host: Seq<char>, ports: Seq<u16> },
    Fetch { urls: Seq<Seq<char>> },
}

impl View for Request {
    type V = RequestModel;

    open spec fn view(&self) -> RequestModel {
        match self {
            Request::Display { text } => RequestModel::Display { text: text@ },
            Request::Math { operation, args } => RequestModel::Math {
                operation: *operation,
                args: args@,
            },
            Request::Http { method, url, body } => RequestModel::Http {
                method: *method,
                url: url@,
                body: body.deep_view(),
            },
            Request::Connect { host, ports } => RequestModel::Connect {
                host: host@,
                ports: ports@,
            },
            Request::Fetch { urls } => RequestModel::Fetch { urls: urls.deep_view() },
        }
    }
}

/// What came of a request.
///
/// `Done` answers `Display`; `Number`, the result rendered as text, answers
/// `Math`; `Http` answers `Http`; `Open`, one flag per port, answers
/// `Connect`; `Pages`, one response per address or `None` where none came,
/// answers `Fetch`. `Failed` answers any request that could not be served.
pub enum Reply {
    Done,
    Number(String),
    Http(Response),
    Open(Vec<bool>),
    Pages(Vec<Option<Response>>),
    Failed(TransRError),
}

/// A reply as contracts see it.
pub enum ReplyModel {
    Done,
    Number(Seq<char>),
    Http(ResponseModel),
    Open(Seq<bool>),
    Pages(Seq<Option<ResponseModel>>),
    Failed(Fault),
}

impl View for Reply {
    type V = ReplyModel;

    open spec fn view(&self) -> ReplyModel {
        match self {
            Reply::Done => ReplyModel::Done,
            Reply::Number(text) => ReplyModel::Number(text@),
            Reply::Http(response) => ReplyModel::Http(response@),
            Reply::Open(flags) => ReplyModel::Open(flags@),
            Reply::Pages(pages) => ReplyModel::Pages(pages.deep_view()),
            Reply::Failed(error) => ReplyModel::Failed(error@),
        }
    }
}

/// What executing a task comes to: its output, or the error that ends the
/// run.
pub type Outcome = Result<Seq<char>, Fault>;

/// An executed task's outcome as contracts see it.
pub open spec fn outcome_of(r: TransRResult<String>) -> Outcome {
    match r {
        Ok(text) => Ok(text@),
        Err(error) => Err(error@),
    }
}

/// The arithmetic that a word names, if any.
pub open spec fn math_op(operation: Seq<char>) -> Option<MathOp> {
    if operation == "sum"@ {
        Some(MathOp::Sum)
    } else if operation == "mean"@ {
        Some(MathOp::Mean)
    } else if operation == "max"@ {
        Some(MathOp::Max)
    } else if operation == "min"@ {
        Some(MathOp::Min)
    } else {
        None
    }
}

/// The HTTP method that a word names, if any.
pub open spec fn http_method(method: Seq<char>) -> Option<HttpMethod> {
    if method == "GET"@ {
        Some(HttpMethod::Get)
    } else if method == "POST"@ {
        Some(HttpMethod::Post)
    } else {
        None
    }
}

/// The error of asking for `operation` on no numbers at all. A sum of
/// nothing is no error.
pub open spec fn empty_failure(operation: MathOp) -> Option<Fault> {
    match operation {
        MathOp::Sum => None,
        MathOp::Mean => Some(
            Fault { kind: ErrorKind::Math, detail: "Cannot calculate mean of empty array"@ },
        ),
        MathOp::Max => Some(
            Fault { kind: ErrorKind::Math, detail: "Cannot find max of empty array"@ },
        ),
        MathOp::Min => Some(
            Fault { kind: ErrorKind::Math, detail: "Cannot find min of empty array"@ },
        ),
    }
}

/// The error that a task fails with whatever happens outside: an unknown
/// arithmetic operation, a mean, maximum or minimum of no numbers, an
/// unsupported HTTP method, an unknown hash algorithm.
pub open spec fn static_failure(task: TaskModel) -> Option<Fault> {
    match task {
        TaskModel::MathCalc { operation, args } => match math_op(operation) {
            None => Some(
                Fault { kind: ErrorKind::Math, detail: "Unknown operation: "@ + operation },
            ),
            Some(op) => if args.len() == 0 {
                empty_failure(op)
            } else {
                None
            },
        },
        TaskModel::NetworkRequest { method, url, data } => match http_method(method) {
            None => Some(
                Fault { kind: ErrorKind::Network, detail: "Unsupported method: "@ + method },
            ),
            Some(_) => None,
        },
        TaskModel::CryptoHash { algorithm, data } => if algorithm == "sha256"@ || algorithm
            == "md5"@ {
            None
        } else {
            Some(Fault { kind: ErrorKind::Crypto, detail: "Unknown algorithm: "@ + algorithm })
        },
        _ => None,
    }
}

/// The addresses that a vulnerability scan of `url` fetches: one per default
/// template.
pub open spec fn probe_urls(url: Seq<char>) -> Seq<Seq<char>> {
    Seq::new(default_templates().len(), |i: int| test_url(url, default_templates()[i].id))
}

/// The body sent with a request: none with a GET; with a POST the task's data,
/// or `{}` if it has none.
pub open spec fn body_sent(method: HttpMethod, data: Option<Seq<char>>) -> Option<Seq<char>> {
    match method {
        HttpMethod::Get => None,
        HttpMethod::Post => match data {
            Some(d) => Some(d),
            None => Some("{}"@),
        },
    }
}

/// The work that a task hands out, if it hands out any. A task that fails
/// whatever happens outside hands out none.
pub open spec fn request_of(task: TaskModel) -> Option<RequestModel> {
    if static_failure(task) is Some {
        None
    } else {
        match task {
            TaskModel::Print(text) => Some(RequestModel::Display { text }),
            TaskModel::MathCalc { operation, args } => Some(
                RequestModel::Math { operation: math_op(operation)->Some_0, args },
            ),
            TaskModel::NetworkRequest { method, url, data } => Some(
                RequestModel::Http {
                    method: http_method(method)->Some_0,
                    url,
                    body: body_sent(http_method(method)->Some_0, data),
                },
            ),
            TaskModel::PortScan { host, ports } => Some(RequestModel::Connect { host, ports }),
            TaskModel::VulnScan { url } => Some(RequestModel::Fetch { urls: probe_urls(url) }),
            _ => None,
        }
    }
}

/// The error for a reply that does not answer the request.
pub open spec fn unexpected_reply() -> Fault {
    Fault { kind: ErrorKind::Pipeline, detail: "Unexpected reply"@ }
}

/// What a task that handed out work comes to, for each reply. A `Failed`
/// reply ends the task with its error; a reply of the wrong sort, or a reply
/// to a task that handed out nothing, is a pipeline error.
pub open spec fn settled(task: TaskModel, reply: ReplyModel) -> Outcome {
    if request_of(task) is None {
        Err(unexpected_reply())
    } else {
        match (task, reply) {
            (_, ReplyModel::Failed(fault)) => Err(fault),
            (TaskModel::Print(text), ReplyModel::Done) => Ok("Printed: "@ + text),
            (TaskModel::MathCalc { operation, args }, ReplyModel::Number(text)) => Ok(text),
            (TaskModel::NetworkRequest { method, url, data }, ReplyModel::Http(response)) => Ok(
                "Status: "@ + decimal_digits(response.status as nat),
            ),
            (TaskModel::PortScan { host, ports }, ReplyModel::Open(flags)) => Ok(
                decimal_digits(open_count(scan_outcomes(host, ports, flags))) + " open ports"@,
            ),
            (TaskModel::VulnScan { url }, ReplyModel::Pages(pages)) => Ok(
                decimal_digits(matched_count(default_findings(url, pages)))
                    + " vulnerabilities"@,
            ),
            _ => Err(unexpected_reply()),
        }
    }
}

/// Whether a task needs nothing from outside and cannot fail.
pub open spec fn is_local(task: TaskModel) -> bool {
    static_failure(task) is None && request_of(task) is None
}

/// Whether `output` is the summary of some snapshot of the machine.
pub open spec fn is_system_output(output: Seq<char>) -> bool {
    exists|info: SystemInfo| output == #[trigger] summary_of(info)
}

/// Whether `output` is `Time: ` and the text of some reading of the clock.
pub open spec fn is_time_output(output: Seq<char>) -> bool {
    exists|now: NowTime| #[trigger] now.in_range() && output == "Time: "@ + now.formatted@
}

/// Whether `output` renders a value that the loop may end on.
pub open spec fn is_loop_output(operation: Seq<char>, iterations: u32, output: Seq<char>) -> bool {
    exists|val: u32| #[trigger]
        loop_admits(operation, iterations, val) && output == decimal_digits(val as nat)
}

/// What a task that needs nothing from outside may put out. The clock, the
/// machine and the random draws decide among the outputs.
pub open spec fn local_output(task: TaskModel, output: Seq<char>) -> bool {
    match task {
        TaskModel::SystemCheck => is_system_output(output),
        TaskModel::TimeCheck => is_time_output(output),
        TaskModel::CryptoHash { algorithm, data } => if algorithm == "sha256"@ {
            output == sha256_digest_hex(data)
        } else {
            output == md5_digest_hex(data)
        },
        TaskModel::Loop { iterations, operation } => is_loop_output(
            operation,
            iterations,
            output,
        ),
        TaskModel::Custom { name, args } => output == "Executed: "@ + name,
        _ => false,
    }
}

/// What a task that needs nothing from outside may come to: such a task
/// never fails.
pub open spec fn local_admits(task: TaskModel, outcome: Outcome) -> bool {
    outcome is Ok && local_output(task, outcome->Ok_0)
}

/// What executing a task may come to, with `outside` serving its request: the
/// task's own error if it has one; else the outcome settled from a reply that
/// `outside` may give to the task's request; else, for a task that asks
/// nothing, an outcome that it may reach by itself.
pub open spec fn execution_admits<F: Fn(Request) -> Reply>(
    task: TaskModel,
    outside: F,
    outcome: Outcome,
) -> bool {
    match static_failure(task) {
        Some(fault) => outcome == Err::<Seq<char>, Fault>(fault),
        None => match request_of(task) {
            Some(asked) => exists|request: Request, reply: Reply|
                request@ == asked && #[trigger] call_ensures(outside, (request,), reply)
                    && outcome == settled(task, reply@),
            None => local_admits(task, outcome),
        },
    }
}

/// The arithmetic that a word names, if any.
pub fn parse_math_op(operation: &str) -> (r: Option<MathOp>)
    ensures
        r == math_op(operation@),
{
    if same_text(operation, "sum") {
        Some(MathOp::Sum)
    } else if same_text(operation, "mean") {
        Some(MathOp::Mean)
    } else if same_text(operation, "max") {
        Some(MathOp::Max)
    } else if same_text(operation, "min") {
        Some(MathOp::Min)
    } else {
        None
    }
}

/// The HTTP method that a word names, if any.
pub fn parse_http_method(method: &str) -> (r: Option<HttpMethod>)
    ensures
        r == http_method(method@),
{
    if same_text(method, "GET") {
        Some(HttpMethod::Get)
    } else if same_text(method, "POST") {
        Some(HttpMethod::Post)
    } else {
        None
    }
}

/// A copy of the numbers.
fn copy_numbers(xs: &Vec<u64>) -> (r: Vec<u64>)
    ensures
        r@ == xs@,
{
    let mut out: Vec<u64> = Vec::new();
    let mut i: usize = 0;
    while i < xs.len()
        invariant
            i <= xs.len(),
            out@ == xs@.take(i as int),
        decreases xs.len() - i,
    {
        out.push(xs[i]);
        assert(out@ =~= xs@.take(i + 1));
        i = i + 1;
    }
    assert(xs@.take(i as int) =~= xs@);
    out
}

/// A copy of the ports.
fn copy_ports(xs: &Vec<u16>) -> (r: Vec<u16>)
    ensures
        r@ == xs@,
{
    let mut out: Vec<u16> = Vec::new();
    let mut i: usize = 0;
    while i < xs.len()
        invariant
            i <= xs.len(),
            out@ == xs@.take(i as int),
        decreases xs.len() - i,
    {
        out.push(xs[i]);
        assert(out@ =~= xs@.take(i + 1));
        i = i + 1;
    }
    assert(xs@.take(i as int) =~= xs@);
    out
}

impl Task {
    /// Fails with the error that the task has whatever happens outside, if
    /// it has one.
    pub fn check(&self) -> (r: TransRResult<()>)
        ensures
            match static_failure(self@) {
                Some(fault) => r is Err && r->Err_0@ == fault,
                None => r is Ok,
            },
    {
        match self {
            Task::MathCalc { operation, args } => {
                match parse_math_op(operation.as_str()) {
                    None => Err(
                        TransRError::MathError(join("Unknown operation: ", operation.as_str())),
                    ),
                    Some(op) => {
                        if args.len() == 0 {
                            match op {
                                MathOp::Sum => Ok(()),
                                MathOp::Mean => Err(
                                    TransRError::MathError(
                                        String::from_str("Cannot calculate mean of empty array"),
                                    ),
                                ),
                                MathOp::Max => Err(
                                    TransRError::MathError(
                                        String::from_str("Cannot find max of empty array"),
                                    ),
                                ),
                                MathOp::Min => Err(
                                    TransRError::MathError(
                                        String::from_str("Cannot find min of empty array"),
                                    ),
                                ),
                            }
                        } else {
                            Ok(())
                        }
                    },
                }
            },
            Task::NetworkRequest { method, url, data } => {
                match parse_http_method(method.as_str()) {
                    None => Err(
                        TransRError::NetworkError(join("Unsupported method: ", method.as_str())),
                    ),
                    Some(_) => Ok(()),
                }
            },
            Task::CryptoHash { algorithm, data } => {
                if same_text(algorithm.as_str(), "sha256") || same_text(
                    algorithm.as_str(),
                    "md5",
                ) {
                    Ok(())
                } else {
                    Err(TransRError::CryptoError(join("Unknown algorithm: ", algorithm.as_str())))
                }
            },
            _ => Ok(()),
        }
    }

    /// The work that the task hands out, if any.
    pub fn request(&self) -> (r: Option<Request>)
        ensures
            match r {
                Some(request) => request_of(self@) == Some(request@),
                None => request_of(self@) is None,
            },
    {
        match self.check() {
            Err(_) => {
                return None;
            },
            Ok(()) => {},
        }
        match self {
            Task::Print(text) => Some(Request::Display { text: text.clone() }),
            Task::MathCalc { operation, args } => {
                match parse_math_op(operation.as_str()) {
                    Some(op) => Some(Request::Math { operation: op, args: copy_numbers(args) }),
                    None => None,
                }
            },
            Task::NetworkRequest { method, url, data } => {
                match parse_http_method(method.as_str()) {
                    Some(HttpMethod::Get) => Some(
                        Request::Http { method: HttpMethod::Get, url: url.clone(), body: None },
                    ),
                    Some(HttpMethod::Post) => {
                        let body = match data {
                            Some(d) => d.clone(),
                            None => String::from_str("{}"),
                        };
                        Some(
                            Request::Http {
                                method: HttpMethod::Post,
                                url: url.clone(),
                                body: Some(body),
                            },
                        )
                    },
                    None => None,
                }
            },
            Task::PortScan { host, ports } => Some(
                Request::Connect { host: host.clone(), ports: copy_ports(ports) },
            ),
            Task::VulnScan { url } => {
                match HyrOS::new() {
                    Ok(hyros) => {
                        let urls = hyros.test_urls(url.as_str());
                        assert(urls.deep_view() =~= probe_urls(url@)) by {
                            assert forall|i: int| 0 <= i < urls.len() implies urls.deep_view()[i]
                                == probe_urls(url@)[i] by {
                                assert(hyros.templates.deep_view()[i] == hyros.templates[i]@);
                            }
                        }
                        Some(Request::Fetch { urls })
                    },
                    Err(_) => None,
                }
            },
            _ => None,
        }
    }
}

/// What a task that handed out work comes to, given the reply.
pub fn settle(task: &Task, reply: Reply) -> (r: TransRResult<String>)
    ensures
        outcome_of(r) == settled(task@, reply@),
{
    let unexpected = TransRError::PipelineError(String::from_str("Unexpected reply"));
    if task.request().is_none() {
        return Err(unexpected);
    }
    match reply {
        Reply::Failed(error) => Err(error),
        Reply::Done => match task {
            Task::Print(text) => Ok(join("Printed: ", text.as_str())),
            _ => Err(unexpected),
        },
        Reply::Number(text) => match task {
            Task::MathCalc { operation, args } => Ok(text),
            _ => Err(unexpected),
        },
        Reply::Http(response) => match task {
            Task::NetworkRequest { method, url, data } => Ok(
                join("Status: ", render_decimal(response.status as u128).as_str()),
            ),
            _ => Err(unexpected),
        },
        Reply::Open(flags) => match task {
            Task::PortScan { host, ports } => {
                let scanner = RustNetX::new();
                let results = scanner.scan_ports(host.as_str(), copy_ports(ports), &flags);
                let open = RustNetX::count_open(&results);
                Ok(join(render_decimal(open as u128).as_str(), " open ports"))
            },
            _ => Err(unexpected),
        },
        Reply::Pages(pages) => match task {
            Task::VulnScan { url } => {
                match HyrOS::new() {
                    Ok(hyros) => {
                        let results = hyros.scan(url.as_str(), &pages);
                        let found = HyrOS::count_matched(&results);
                        proof {
                            let expected = default_findings(url@, pages.deep_view());
                            assert forall|i: int| 0 <= i < results.len() implies (
                            #[trigger] results.deep_view()[i]).matched
                                == expected[i].matched by {
                                assert(results.deep_view()[i] == results[i]@);
                                assert(hyros.templates.deep_view()[i] == hyros.templates[i]@);
                            }
                            lemma_matched_count_by_flags(results.deep_view(), expected);
                        }
                        Ok(join(render_decimal(found as u128).as_str(), " vulnerabilities"))
                    },
                    Err(error) => Err(error),
                }
            },
            _ => Err(unexpected),
        },
    }
}

/// Runs a task that needs nothing from outside.
fn run_local(task: &Task) -> (r: TransRResult<String>)
    requires
        is_local(task@),
    ensures
        local_admits(task@, outcome_of(r)),
{
    match task {
        Task::SystemCheck => {
            let mut sys = SysEz::new();
            match sys.get_system_info() {
                Ok(info) => {
                    let out = info.summary();
                    assert(out@ == summary_of(info));
                    assert(is_system_output(out@));
                    Ok(out)
                },
                Err(error) => Err(error),
            }
        },
        Task::TimeCheck => {
            let now = NowTime::now();
            let out = join("Time: ", now.formatted.as_str());
            assert(now.in_range() && out@ == "Time: "@ + now.formatted@);
            assert(is_time_output(out@));
            Ok(out)
        },
        Task::CryptoHash { algorithm, data } => hash(algorithm.as_str(), data.as_str()),
        Task::Loop { iterations, operation } => {
            let val = run_loop(*iterations, operation.as_str());
            let out = render_decimal(val as u128);
            assert(loop_admits(operation@, *iterations, val) && out@ == decimal_digits(
                val as nat,
            ));
            assert(is_loop_output(operation@, *iterations, out@));
            Ok(out)
        },
        Task::Custom { name, args } => Ok(join("Executed: ", name.as_str())),
        _ => {
            assert(false);
            Err(TransRError::PipelineError(String::from_str("Unexpected task")))
        },
    }
}

/// The record of one task that completed: its label, that it succeeded, its
/// output, and how many whole milliseconds its execution took.
#[derive(Debug, Clone)]
pub struct PipelineResult {
    pub task_name: String,
    pub success: bool,
    pub output: String,
    pub duration_ms: u128,
}

/// A record as contracts see it.
pub struct ResultModel {
    pub task_name: Seq<char>,
    pub success: bool,
    pub output: Seq<char>,
    pub duration_ms: u128,
}

impl View for PipelineResult {
    type V = ResultModel;

    open spec fn view(&self) -> ResultModel {
        ResultModel {
            task_name: self.task_name@,
            success: self.success,
            output: self.output@,
            duration_ms: self.duration_ms,
        }
    }
}

impl DeepView for PipelineResult {
    type V = ResultModel;

    open spec fn deep_view(&self) -> ResultModel {
        self@
    }
}

/// The executor: the tasks that wait, first in first out, the records of the
/// tasks that completed, in the order of execution, and the two settings for
/// diagnostic output.
pub struct TransRPipeline {
    pub tasks: Vec<Task>,
    pub results: Vec<PipelineResult>,
    pub verbose_level: u8,
    pub debug_mode: bool,
}

/// An executor as contracts see it.
pub struct PipelineModel {
    pub tasks: Seq<TaskModel>,
    pub results: Seq<ResultModel>,
    pub verbose_level: u8,
    pub debug_mode: bool,
}

impl View for TransRPipeline {
    type V = PipelineModel;

    open spec fn view(&self) -> PipelineModel {
        PipelineModel {
            tasks: self.tasks.deep_view(),
            results: self.results.deep_view(),
            verbose_level: self.verbose_level,
            debug_mode: self.debug_mode,
        }
    }
}

/// `before` with `task` at the tail of its queue.
pub open spec fn enqueued(before: PipelineModel, task: TaskModel) -> PipelineModel {
    PipelineModel { tasks: before.tasks.push(task), ..before }
}

/// Whether `record` is what the execution of `task` leaves: the task's label,
/// success, and an output that the execution may reach.
pub open spec fn recorded<F: Fn(Request) -> Reply>(
    task: TaskModel,
    record: ResultModel,
    outside: F,
) -> bool {
    record.task_name == task_label(task) && record.success && execution_admits(
        task,
        outside,
        Ok::<Seq<char>, Fault>(record.output),
    )
}

/// What a run may turn `before` into, and return, with `outside` serving the
/// requests.
///
/// The queue ends empty and the settings stay. The earlier records stay and
/// `done` records follow them, one for each of the first `done` tasks, in
/// the queue's order. The run succeeds exactly if every task was recorded;
/// if it fails, its error is one that executing the first task without a
/// record may come to.
pub open spec fn run_admits<F: Fn(Request) -> Reply>(
    before: PipelineModel,
    after: PipelineModel,
    outside: F,
    result: Result<(), Fault>,
) -> bool {
    let done = after.results.len() - before.results.len();
    &&& after.tasks.len() == 0
    &&& after.verbose_level == before.verbose_level
    &&& after.debug_mode == before.debug_mode
    &&& 0 <= done <= before.tasks.len()
    &&& after.results.take(before.results.len() as int) == before.results
    &&& forall|i: int|
        before.results.len() <= i < after.results.len() ==> recorded(
            before.tasks[i - before.results.len()],
            #[trigger] after.results[i],
            outside,
        )
    &&& result is Ok <==> done == before.tasks.len()
    &&& result is Err ==> execution_admits(
        before.tasks[done],
        outside,
        Err::<Seq<char>, Fault>(result->Err_0),
    )
}

impl TransRPipeline {
    /// An executor with nothing queued and nothing recorded, at verbosity 1
    /// and with debugging off.
    pub fn new() -> (r: TransRPipeline)
        ensures
            r@ == (PipelineModel {
                tasks: Seq::<TaskModel>::empty(),
                results: Seq::<ResultModel>::empty(),
                verbose_level: 1,
                debug_mode: false,
            }),
    {
        let r = TransRPipeline {
            tasks: Vec::new(),
            results: Vec::new(),
            verbose_level: 1,
            debug_mode: false,
        };
        assert(r@.tasks =~= Seq::<TaskModel>::empty());
        assert(r@.results =~= Seq::<ResultModel>::empty());
        r
    }

    /// Sets the verbosity level.
    pub fn set_verbose(&mut self, level: u8)
        ensures
            final(self)@ == (PipelineModel { verbose_level: level, ..old(self)@ }),
    {
        self.verbose_level = level;
    }

    /// Turns debugging on or off.
    pub fn set_debug(&mut self, enabled: bool)
        ensures
            final(self)@ == (PipelineModel { debug_mode: enabled, ..old(self)@ }),
    {
        self.debug_mode = enabled;
    }

    /// Appends a task to the tail of the queue. Nothing is checked here.
    pub fn add_task(&mut self, task: Task)
        ensures
            final(self)@ == enqueued(old(self)@, task@),
    {
        self.tasks.push(task);
        assert(self@.tasks =~= old(self)@.tasks.push(task@));
    }

    /// Queues the display of `text`.
    pub fn print(&mut self, text: String)
        ensures
            final(self)@ == enqueued(old(self)@, TaskModel::Print(text@)),
    {
        self.add_task(Task::Print(text));
    }

    /// Queues a snapshot of the machine.
    pub fn system_check(&mut self)
        ensures
            final(self)@ == enqueued(old(self)@, TaskModel::SystemCheck),
    {
        self.add_task(Task::SystemCheck);
    }

    /// Queues a reading of the clock.
    pub fn time_check(&mut self)
        ensures
            final(self)@ == enqueued(old(self)@, TaskModel::TimeCheck),
    {
        self.add_task(Task::TimeCheck);
    }

    /// Queues arithmetic on `args`, the bit patterns of doubles.
    pub fn math(&mut self, operation: String, args: Vec<u64>)
        ensures
            final(self)@ == enqueued(
                old(self)@,
                TaskModel::MathCalc { operation: operation@, args: args@ },
            ),
    {
        self.add_task(Task::MathCalc { operation, args });
    }

    /// Queues a GET of `url`.
    pub fn http_get(&mut self, url: String)
        ensures
            final(self)@ == enqueued(
                old(self)@,
                TaskModel::NetworkRequest { method: "GET"@, url: url@, data: None },
            ),
    {
        self.add_task(
            Task::NetworkRequest { method: String::from_str("GET"), url, data: None },
        );
    }

    /// Queues a scan of `ports` on `host`.
    pub fn port_scan(&mut self, host: String, ports: Vec<u16>)
        ensures
            final(self)@ == enqueued(old(self)@, TaskModel::PortScan { host: host@, ports: ports@ }),
    {
        self.add_task(Task::PortScan { host, ports });
    }

    /// Queues a vulnerability scan of `url`.
    pub fn vuln_scan(&mut self, url: String)
        ensures
            final(self)@ == enqueued(old(self)@, TaskModel::VulnScan { url: url@ }),
    {
        self.add_task(Task::VulnScan { url });
    }

    /// Queues the hashing of `data`.
    pub fn hash(&mut self, algorithm: String, data: String)
        ensures
            final(self)@ == enqueued(
                old(self)@,
                TaskModel::CryptoHash { algorithm: algorithm@, data: data@ },
            ),
    {
        self.add_task(Task::CryptoHash { algorithm, data });
    }

    /// Queues an `xor` loop of `iterations` rounds.
    pub fn heavy_loop(&mut self, iterations: u32)
        ensures
            final(self)@ == enqueued(
                old(self)@,
                TaskModel::Loop { iterations, operation: "xor"@ },
            ),
    {
        self.add_task(Task::Loop { iterations, operation: String::from_str("xor") });
    }

    /// Queues one `blockchain` loop of `height * weight` rounds, the product
    /// taken modulo 2^32.
    pub fn blockchain_loop(&mut self, height: u32, weight: u32)
        ensures
            final(self)@ == enqueued(
                old(self)@,
                TaskModel::Loop {
                    iterations: height.wrapping_mul(weight),
                    operation: "blockchain"@,
                },
            ),
    {
        let total_iterations: u32 = height.wrapping_mul(weight);
        self.add_task(
            Task::Loop { iterations: total_iterations, operation: String::from_str("blockchain") },
        );
    }

    /// Empties the queue and the records, whatever they held.
    pub fn clear(&mut self)
        ensures
            final(self)@ == (PipelineModel {
                tasks: Seq::<TaskModel>::empty(),
                results: Seq::<ResultModel>::empty(),
                ..old(self)@
            }),
    {
        self.tasks.clear();
        self.results.clear();
        assert(self@.tasks =~= Seq::<TaskModel>::empty());
        assert(self@.results =~= Seq::<ResultModel>::empty());
    }

    /// Executes one task: fails with the task's own error if it has one,
    /// hands its request to `outside` and settles the reply if it has a
    /// request, and else runs it here.
    pub fn execute_task<F: Fn(Request) -> Reply>(&self, task: &Task, outside: &F) -> (r:
        TransRResult<String>)
        requires
            forall|request: Request| call_requires(*outside, (request,)),
        ensures
            execution_admits(task@, *outside, outcome_of(r)),
    {
        match task.check() {
            Err(error) => {
                return Err(error);
            },
            Ok(()) => {},
        }
        match task.request() {
            Some(request) => {
                let ghost asked = request;
                let reply = outside(request);
                let ghost given = reply;
                let r = settle(task, reply);
                assert(asked@ == request_of(task@)->Some_0 && call_ensures(
                    *outside,
                    (asked,),
                    given,
                ) && outcome_of(r) == settled(task@, given@));
                r
            },
            None => run_local(task),
        }
    }

    /// Runs the queued tasks in order, with `outside` serving their requests.
    ///
    /// Each task that completes leaves one record, timed around its
    /// execution. The first task that fails ends the run with its error; it
    /// and the tasks behind it leave no record. The queue is empty afterwards
    /// either way.
    pub fn run<F: Fn(Request) -> Reply>(&mut self, outside: F) -> (r: TransRResult<()>)
        requires
            forall|request: Request| call_requires(outside, (request,)),
        ensures
            run_admits(old(self)@, final(self)@, outside, unit_outcome(r)),
    {
        let ghost before = self@;
        let ghost base = before.results.len() as int;
        let n = self.tasks.len();
        let mut i: usize = 0;
        while i < n
            invariant
                i <= n,
                n == self.tasks.len(),
                before == old(self)@,
                base == before.results.len(),
                self@.tasks == before.tasks,
                self.verbose_level == before.verbose_level,
                self.debug_mode == before.debug_mode,
                self@.results.len() == base + i,
                self@.results.take(base) == before.results,
                forall|j: int|
                    base <= j < base + i ==> recorded(
                        before.tasks[j - base],
                        #[trigger] self@.results[j],
                        outside,
                    ),
                forall|request: Request| call_requires(outside, (request,)),
            decreases n - i,
        {
            let ghost so_far = self@.results;
            let start = instant_now();
            let outcome = self.execute_task(&self.tasks[i], &outside);
            let duration = duration_millis(&elapsed_since(&start));
            assert(self.tasks[i as int]@ == before.tasks[i as int]);
            let ghost reached = outcome_of(outcome);
            assert(execution_admits(before.tasks[i as int], outside, reached));
            match outcome {
                Ok(output) => {
                    let record = PipelineResult {
                        task_name: self.tasks[i].label(),
                        success: true,
                        output,
                        duration_ms: duration,
                    };
                    self.results.push(record);
                    proof {
                        assert(self@.results =~= so_far.push(record@));
                        assert(self@.results.take(base) =~= so_far.take(base));
                        assert(recorded(before.tasks[i as int], record@, outside));
                    }
                },
                Err(error) => {
                    self.tasks.clear();
                    assert(self@.tasks =~= Seq::<TaskModel>::empty());
                    assert(reached == Err::<Seq<char>, Fault>(error@));
                    return Err(error);
                },
            }
            i = i + 1;
        }
        self.tasks.clear();
        assert(self@.tasks =~= Seq::<TaskModel>::empty());
        Ok(())
    }

    /// The records, in the order of execution.
    pub fn get_results(&self) -> (r: &[PipelineResult])
        ensures
            r@ == self.results@,
    {
        self.results.as_slice()
    }
}

/// A task that needs nothing from outside never fails.
pub proof fn law_local_task_never_fails<F: Fn(Request) -> Reply>(
    task: TaskModel,
    outside: F,
    fault: Fault,
)
    requires
        is_local(task),
    ensures
        !execution_admits(task, outside, Err::<Seq<char>, Fault>(fault)),
{
}

/// A task with an error of its own never completes.
pub proof fn law_failing_task_never_completes<F: Fn(Request) -> Reply>(
    task: TaskModel,
    outside: F,
    output: Seq<char>,
)
    requires
        static_failure(task) is Some,
    ensures
        !execution_admits(task, outside, Ok::<Seq<char>, Fault>(output)),
{
}

/// If no task of the queue can fail, the run succeeds, and it leaves one
/// record per task, in the queue's order, behind the earlier records.
pub proof fn law_run_records_every_task<F: Fn(Request) -> Reply>(
    before: PipelineModel,
    after: PipelineModel,
    outside: F,
    result: Result<(), Fault>,
)
    requires
        run_admits(before, after, outside, result),
        forall|k: int, fault: Fault|
            0 <= k < before.tasks.len() ==> !#[trigger] execution_admits(
                before.tasks[k],
                outside,
                Err::<Seq<char>, Fault>(fault),
            ),
    ensures
        result is Ok,
        after.results.len() == before.results.len() + before.tasks.len(),
        forall|k: int|
            0 <= k < before.tasks.len() ==> (#[trigger] after.results[before.results.len()
                + k]).task_name == task_label(before.tasks[k]),
{
    if result is Err {
        let done = after.results.len() - before.results.len();
        assert(execution_admits(
            before.tasks[done],
            outside,
            Err::<Seq<char>, Fault>(result->Err_0),
        ));
    }
    assert forall|k: int| 0 <= k < before.tasks.len() implies (#[trigger] after.results[
        before.results.len() + k]).task_name == task_label(before.tasks[k]) by {
        assert(recorded(before.tasks[k], after.results[before.results.len() + k], outside));
    }
}

/// A run of an empty queue succeeds and leaves the records as they were.
pub proof fn law_empty_run<F: Fn(Request) -> Reply>(
    before: PipelineModel,
    after: PipelineModel,
    outside: F,
    result: Result<(), Fault>,
)
    requires
        run_admits(before, after, outside, result),
        before.tasks.len() == 0,
    ensures
        result is Ok,
        after.results == before.results,
        after.tasks.len() == 0,
{
    assert(after.results.take(before.results.len() as int) =~= after.results);
}

/// If task `k` of the queue cannot complete, the run fails, and neither that
/// task nor any task behind it leaves a record.
pub proof fn law_failure_ends_run<F: Fn(Request) -> Reply>(
    before: PipelineModel,
    after: PipelineModel,
    outside: F,
    result: Result<(), Fault>,
    k: int,
)
    requires
        run_admits(before, after, outside, result),
        0 <= k < before.tasks.len(),
        forall|output: Seq<char>|
            !#[trigger] execution_admits(
                before.tasks[k],
                outside,
                Ok::<Seq<char>, Fault>(output),
            ),
    ensures
        result is Err,
        after.results.len() <= before.results.len() + k,
        after.tasks.len() == 0,
{
    let done = after.results.len() - before.results.len();
    if done > k {
        assert(recorded(before.tasks[k], after.results[before.results.len() + k], outside));
    }
}

/// A run fails with the error of the first task that has one of its own, if
/// no task before it asks anything of outside: that many records are added.
pub proof fn law_first_failure_is_returned<F: Fn(Request) -> Reply>(
    before: PipelineModel,
    after: PipelineModel,
    outside: F,
    result: Result<(), Fault>,
    k: int,
)
    requires
        run_admits(before, after, outside, result),
        0 <= k < before.tasks.len(),
        static_failure(before.tasks[k]) is Some,
        forall|j: int| 0 <= j < k ==> is_local(#[trigger] before.tasks[j]),
    ensures
        result == Err::<(), Fault>(static_failure(before.tasks[k])->Some_0),
        after.results.len() == before.results.len() + k,
{
    let done = after.results.len() - before.results.len();
    if done > k {
        assert(recorded(before.tasks[k], after.results[before.results.len() + k], outside));
    }
    if done < k {
        assert(is_local(before.tasks[done]));
    }
}

} // verus!
