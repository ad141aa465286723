//! Task execution: the executor's configuration, the results of tasks, the
//! table of running tasks, and the decisions of the retry loop (whether an
//! attempt's outcome ends the task or is retried, and after how long).

use vstd::prelude::*;
use vstd::arithmetic::power2::{lemma2_to64, lemma_pow2_strictly_increases, lemma_pow2_unfold, pow2};
use crate::clock::now_millis;
use crate::json::{json_model, JsonValue};
use crate::keyed::KeyedList;
use crate::mcp::types::{is_uuid_text, new_uuid_string};
use crate::text::{concat2, concat3, decimal, owned, str_eq, u64_to_string};
use crate::utils::error::{McpError, McpResult};

verus! {

/// The configuration of an executor.
#[derive(Debug, Clone, Copy, PartialEq, Eq)]
pub struct ExecutorConfig {
    /// How many tasks may run at once.
    pub max_concurrent_tasks: usize,
    /// The time a task may take when none is given, in seconds.
    pub default_timeout_secs: u64,
    /// The longest time a task may be given, in seconds.
    pub max_timeout_secs: u64,
    /// How many times a failed task is retried.
    pub retry_attempts: usize,
    /// The delay before the first retry, in milliseconds.
    pub retry_base_delay_ms: u64,
    /// The longest delay between retries, in milliseconds.
    pub retry_max_delay_ms: u64,
}

impl Default for ExecutorConfig {
    /// Ten tasks at once, a minute by default and an hour at most, three
    /// retries from 100 ms up to 10 s apart.
    fn default() -> (r: Self)
        ensures
            r == (ExecutorConfig {
                max_concurrent_tasks: 10,
                default_timeout_secs: 60,
                max_timeout_secs: 3600,
                retry_attempts: 3,
                retry_base_delay_ms: 100,
                retry_max_delay_ms: 10000,
            }),
    {
        ExecutorConfig {
            max_concurrent_tasks: 10,
            default_timeout_secs: 60,
            max_timeout_secs: 3600,
            retry_attempts: 3,
            retry_base_delay_ms: 100,
            retry_max_delay_ms: 10000,
        }
    }
}

/// `x`, or the largest `u64` when it is larger.
pub open spec fn capped(x: int) -> int {
    if x > u64::MAX { u64::MAX as int } else { x }
}

/// The delay before retrying after attempt `attempt` (counted from 1):
/// `base` doubled once per earlier retry, each step saturating, and no more
/// than `max`.
pub open spec fn retry_delay(attempt: usize, base: u64, max: u64) -> int {
    let e = ((attempt as u32) - 1) as nat;
    let d = capped(base * capped(pow2(e) as int));
    if d <= max { d } else { max as int }
}

/// Backoff never shrinks from one retry to the next, and never exceeds the
/// largest delay.
pub proof fn lemma_retry_delay_grows(a: usize, b: usize, base: u64, max: u64)
    requires
        1 <= a as u32,
        a as u32 <= b as u32,
    ensures
        retry_delay(a, base, max) <= retry_delay(b, base, max),
        retry_delay(b, base, max) <= max,
{
    let ea = ((a as u32) - 1) as nat;
    let eb = ((b as u32) - 1) as nat;
    if ea < eb {
        lemma_pow2_strictly_increases(ea, eb);
    }
    let pa = capped(pow2(ea) as int);
    let pb = capped(pow2(eb) as int);
    assert(pa <= pb);
    assert(base * pa <= base * pb) by (nonlinear_arith)
        requires
            pa <= pb,
            0 <= base,
    ;
}

fn saturating_double(b: u64) -> (r: u64)
    ensures
        r == capped(2 * b),
{
    match b.checked_mul(2) {
        Some(v) => v,
        None => u64::MAX,
    }
}

fn saturating_product(a: u64, b: u64) -> (r: u64)
    ensures
        r == capped(a * b),
{
    match a.checked_mul(b) {
        Some(v) => v,
        None => u64::MAX,
    }
}

/// The delay in milliseconds before retrying after attempt `attempt`.
pub fn calculate_retry_delay(attempt: usize, base_delay: u64, max_delay: u64) -> (r: u64)
    requires
        attempt as u32 >= 1,
    ensures
        r == retry_delay(attempt, base_delay, max_delay),
{
    let e: u32 = (attempt as u32) - 1;
    let mut b: u64 = 1;
    let mut i: u32 = 0;
    proof { lemma2_to64(); }
    while i < e && b < u64::MAX
        invariant
            i <= e,
            b == capped(pow2(i as nat) as int),
        decreases e - i,
    {
        proof { lemma_pow2_unfold((i + 1) as nat); }
        b = saturating_double(b);
        i = i + 1;
    }
    proof {
        if i < e {
            lemma_pow2_strictly_increases(i as nat, e as nat);
        }
    }
    let delay = saturating_product(base_delay, b);
    if delay <= max_delay { delay } else { max_delay }
}

/// The result of a task.
#[derive(Debug)]
pub enum TaskResult {
    /// The task succeeded with this value.
    Success(JsonValue),
    /// The task failed with this message.
    Failure(String),
}

impl TaskResult {
    /// Whether the task succeeded.
    pub fn is_success(&self) -> (r: bool)
        ensures
            r == (*self is Success),
    {
        match self {
            TaskResult::Success(_) => true,
            TaskResult::Failure(_) => false,
        }
    }

    /// The value of a successful task.
    pub fn success_value(&self) -> (r: Option<&JsonValue>)
        ensures
            match *self {
                TaskResult::Success(v) => r == Some(&v),
                TaskResult::Failure(_) => r is None,
            },
    {
        match self {
            TaskResult::Success(v) => Some(v),
            TaskResult::Failure(_) => None,
        }
    }

    /// The message of a failed task.
    pub fn error_message(&self) -> (r: Option<&str>)
        ensures
            match *self {
                TaskResult::Success(_) => r is None,
                TaskResult::Failure(m) => r matches Some(s) && s@ == m@,
            },
    {
        match self {
            TaskResult::Success(_) => None,
            TaskResult::Failure(m) => Some(m.as_str()),
        }
    }
}

/// A signal sent to a workflow.
#[derive(Debug)]
pub struct Signal {
    /// The signal's identifier.
    pub id: String,
    /// The signal's name.
    pub name: String,
    /// What the signal means.
    pub description: Option<String>,
    /// What it carries.
    pub payload: Option<JsonValue>,
    /// The workflow it belongs to.
    pub workflow_id: Option<String>,
    /// When it was made, in milliseconds since the Unix epoch.
    pub created_at: i64,
}

impl Signal {
    /// A signal under a fresh identifier, for no workflow in particular.
    pub fn new(name: &str, payload: Option<JsonValue>) -> (r: Signal)
        ensures
            is_uuid_text(r.id@),
            r.name@ == name@,
            r.description is None,
            r.payload == payload,
            r.workflow_id is None,
    {
        Signal {
            id: new_uuid_string(),
            name: owned(name),
            description: None,
            payload,
            workflow_id: None,
            created_at: now_millis(),
        }
    }

    /// A signal under a fresh identifier for the workflow `workflow_id`.
    pub fn for_workflow(name: &str, workflow_id: &str, payload: Option<JsonValue>) -> (r: Signal)
        ensures
            is_uuid_text(r.id@),
            r.name@ == name@,
            r.description is None,
            r.payload == payload,
            r.workflow_id matches Some(w) && w@ == workflow_id@,
    {
        let mut signal = Self::new(name, payload);
        signal.workflow_id = Some(owned(workflow_id));
        signal
    }
}

/// How one attempt at a task ended.
#[derive(Debug)]
pub enum AttemptOutcome {
    /// It produced a result.
    Completed(TaskResult),
    /// It failed with an error.
    Failed(McpError),
    /// It ran out of time.
    TimedOut,
}

/// What the executor does after an attempt.
#[derive(Debug)]
pub enum RetryStep {
    /// The task is over, with this outcome.
    Finish(McpResult<TaskResult>),
    /// The task is tried again after this many milliseconds.
    RetryAfter(u64),
}

/// The decision after attempt `attempt` (counted from 1) of at most
/// `retries + 1`: a result ends the task; a failure or a time-out ends it on
/// the last attempt and is retried after the backoff delay otherwise.
pub fn next_step(config: &ExecutorConfig, attempt: usize, outcome: AttemptOutcome) -> (r: RetryStep)
    requires
        attempt < config.retry_attempts + 1 && !(outcome is Completed) ==> attempt as u32 >= 1,
        config.retry_attempts < usize::MAX,
    ensures
        match outcome {
            AttemptOutcome::Completed(t) => r == RetryStep::Finish(Ok(t)),
            AttemptOutcome::Failed(e) => if attempt >= config.retry_attempts + 1 {
                r == RetryStep::Finish(Err(e))
            } else {
                r == RetryStep::RetryAfter(retry_delay(attempt, config.retry_base_delay_ms, config.retry_max_delay_ms) as u64)
            },
            AttemptOutcome::TimedOut => if attempt >= config.retry_attempts + 1 {
                r == RetryStep::Finish(Err(McpError::Timeout))
            } else {
                r == RetryStep::RetryAfter(retry_delay(attempt, config.retry_base_delay_ms, config.retry_max_delay_ms) as u64)
            },
        },
{
    let max_attempts = config.retry_attempts + 1;
    match outcome {
        AttemptOutcome::Completed(t) => RetryStep::Finish(Ok(t)),
        AttemptOutcome::Failed(e) => {
            if attempt >= max_attempts {
                RetryStep::Finish(Err(e))
            } else {
                RetryStep::RetryAfter(calculate_retry_delay(attempt, config.retry_base_delay_ms, config.retry_max_delay_ms))
            }
        },
        AttemptOutcome::TimedOut => {
            if attempt >= max_attempts {
                RetryStep::Finish(Err(McpError::Timeout))
            } else {
                RetryStep::RetryAfter(calculate_retry_delay(attempt, config.retry_base_delay_ms, config.retry_max_delay_ms))
            }
        },
    }
}

/// How a built-in function runs.
#[derive(Debug)]
pub enum FunctionRun {
    /// It gives this outcome at once.
    Immediate(McpResult<TaskResult>),
    /// It gives this outcome only after sleeping a second past the time-out,
    /// so that the time-out always strikes first.
    AfterTimeout(McpResult<TaskResult>),
}

/// How the executor's built-in functions run: `test_success` gives back its
/// arguments, `test_failure` fails, `test_timeout` outlasts its time-out, and
/// any other name is unknown.
pub fn run_function(function: &str, args: JsonValue) -> (r: FunctionRun)
    ensures
        function@ == "test_success"@ ==> r == FunctionRun::Immediate(Ok(TaskResult::Success(args))),
        function@ == "test_failure"@ ==> (r matches FunctionRun::Immediate(Err(McpError::Execution(m))) && m@ == "Function failed"@),
        function@ == "test_timeout"@ ==> r == FunctionRun::AfterTimeout(Ok(TaskResult::Success(args))),
        function@ != "test_success"@ && function@ != "test_failure"@ && function@ != "test_timeout"@
            ==> (r matches FunctionRun::Immediate(Err(McpError::Execution(m))) && m@ == "Unknown function: "@ + function@),
{
    proof {
        reveal_strlit("test_success");
        reveal_strlit("test_failure");
        reveal_strlit("test_timeout");
        assert("test_success"@[5] != "test_failure"@[5]);
        assert("test_success"@[5] != "test_timeout"@[5]);
        assert("test_failure"@[5] != "test_timeout"@[5]);
    }
    if str_eq(function, "test_success") {
        FunctionRun::Immediate(Ok(TaskResult::Success(args)))
    } else if str_eq(function, "test_failure") {
        FunctionRun::Immediate(Err(McpError::Execution(owned("Function failed"))))
    } else if str_eq(function, "test_timeout") {
        FunctionRun::AfterTimeout(Ok(TaskResult::Success(args)))
    } else {
        FunctionRun::Immediate(Err(McpError::Execution(concat2("Unknown function: ", function))))
    }
}

/// The step object `{"args": args, "step": i}` of a streamed result.
pub open spec fn is_step_object(v: JsonValue, i: nat, args: JsonValue) -> bool {
    v matches JsonValue::Object(m) && m@.len() == 2
        && m@[0].0@ == "args"@ && json_model(m@[0].1) == json_model(args)
        && m@[1].0@ == "step"@ && (m@[1].1 matches JsonValue::Number(n) && n@ == decimal(i))
}

/// The results a built-in streaming function sends, in order:
/// `test_stream_success` five steps, `test_stream_failure` three steps and a
/// failure, any other name one failure naming it.
pub fn stream_results(function: &str, args: &JsonValue) -> (r: Vec<TaskResult>)
    ensures
        function@ == "test_stream_success"@ ==> r@.len() == 5
            && forall|i: int| 0 <= i < 5 ==> (#[trigger] r@[i] matches TaskResult::Success(v) && is_step_object(v, i as nat, *args)),
        function@ == "test_stream_failure"@ ==> r@.len() == 4
            && (forall|i: int| 0 <= i < 3 ==> (#[trigger] r@[i] matches TaskResult::Success(v) && is_step_object(v, i as nat, *args)))
            && (r@[3] matches TaskResult::Failure(m) && m@ == "Stream task failed"@),
        function@ != "test_stream_success"@ && function@ != "test_stream_failure"@ ==> r@.len() == 1
            && (r@[0] matches TaskResult::Failure(m) && m@ == "Unknown function: "@ + function@),
{
    proof {
        reveal_strlit("test_stream_success");
        reveal_strlit("test_stream_failure");
        assert("test_stream_success"@[12] != "test_stream_failure"@[12]);
    }
    let mut out: Vec<TaskResult> = Vec::new();
    let steps: u64 = if str_eq(function, "test_stream_success") { 5 } else if str_eq(function, "test_stream_failure") { 3 } else { 0 };
    if steps == 0 {
        out.push(TaskResult::Failure(concat2("Unknown function: ", function)));
        return out;
    }
    let mut i: u64 = 0;
    while i < steps
        invariant
            i <= steps,
            steps <= 5,
            out@.len() == i,
            forall|j: int| 0 <= j < i ==> (#[trigger] out@[j] matches TaskResult::Success(v) && is_step_object(v, j as nat, *args)),
        decreases steps - i,
    {
        let mut m: Vec<(String, JsonValue)> = Vec::new();
        m.push((owned("args"), args.clone()));
        m.push((owned("step"), JsonValue::Number(u64_to_string(i))));
        out.push(TaskResult::Success(JsonValue::Object(m)));
        i = i + 1;
    }
    if steps == 3 {
        out.push(TaskResult::Failure(owned("Stream task failed")));
    }
    out
}

/// The running tasks by identifier, each with its handle.
#[derive(Debug)]
pub struct TaskTable<H> {
    tasks: KeyedList<H>,
}

/// The error for a full table.
pub open spec fn table_full_text(max: usize) -> Seq<char> {
    "Maximum number of concurrent tasks ("@ + decimal(max as nat) + ") reached"@
}

impl<H> TaskTable<H> {
    /// The handle of the running task `id`.
    pub closed spec fn task(&self, id: Seq<char>) -> Option<H> {
        self.tasks.spec_get(id)
    }

    /// The number of running tasks.
    pub closed spec fn count(&self) -> nat {
        self.tasks.entries().len()
    }

    /// An empty table.
    pub fn new() -> (r: TaskTable<H>)
        ensures
            r.count() == 0,
            forall|id: Seq<char>| r.task(id) is None,
    {
        TaskTable { tasks: KeyedList::new() }
    }

    /// Registers the task `id` unless `max_concurrent` tasks already run, in
    /// which case its handle is given back to be aborted.
    pub fn register_task(&mut self, id: String, handle: H, max_concurrent: usize) -> (r: Result<(), (H, McpError)>)
        ensures
            old(self).count() >= max_concurrent ==> (r matches Err((h, McpError::Execution(m)))
                && h == handle && m@ == table_full_text(max_concurrent))
                && final(self).count() == old(self).count()
                && forall|k: Seq<char>| final(self).task(k) == old(self).task(k),
            old(self).count() < max_concurrent ==> r is Ok
                && final(self).task(id@) == Some(handle)
                && final(self).count() == old(self).count() + if old(self).task(id@) is None { 1int } else { 0int }
                && forall|k: Seq<char>| k != id@ ==> final(self).task(k) == old(self).task(k),
    {
        if self.tasks.len() >= max_concurrent {
            let text = concat3("Maximum number of concurrent tasks (", u64_to_string(max_concurrent as u64).as_str(), ") reached");
            return Err((handle, McpError::Execution(text)));
        }
        self.tasks.insert(id, handle);
        Ok(())
    }

    /// Forgets the task `id`, giving back its handle.
    pub fn remove(&mut self, id: &str) -> (r: Option<H>)
        ensures
            r == old(self).task(id@),
            final(self).task(id@) is None,
            forall|k: Seq<char>| k != id@ ==> final(self).task(k) == old(self).task(k),
    {
        self.tasks.remove(id)
    }

    /// Cancels the task `id`: it is forgotten and its handle given back to be
    /// aborted, or an error names it when it is not running.
    pub fn cancel_task(&mut self, id: &str) -> (r: McpResult<H>)
        ensures
            match old(self).task(id@) {
                Some(h) => r == Ok::<H, McpError>(h),
                None => r matches Err(McpError::Execution(m)) && m@ == "Task "@ + id@ + " not found"@,
            },
            final(self).task(id@) is None,
            forall|k: Seq<char>| k != id@ ==> final(self).task(k) == old(self).task(k),
    {
        match self.tasks.remove(id) {
            Some(h) => Ok(h),
            None => Err(McpError::Execution(concat3("Task ", id, " not found"))),
        }
    }

    /// Whether the task `id` is running.
    pub fn is_task_running(&self, id: &str) -> (r: bool)
        ensures
            r == self.task(id@) is Some,
    {
        self.tasks.contains_key(id)
    }

    /// The number of running tasks.
    pub fn running_task_count(&self) -> (r: usize)
        ensures
            r == self.count(),
    {
        self.tasks.len()
    }
}

} // verus!
