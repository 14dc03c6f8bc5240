//! The execution worker: a state machine that drives one task through the
//! container lifecycle.
//!
//! The machine itself is pure: [`Execution::step`] consumes one event —
//! the outcome of the previous container-runtime or storage call — and
//! returns the next state together with the one action the surrounding
//! runtime loop must perform.  All decisions live here and are verified;
//! the loop around it only performs I/O and feeds the results back.

use vstd::prelude::*;

use crate::code_nodes::{python_command, restored_text, Bundle, Model};
use crate::code_result;
use crate::enums::{CodeLanguage, ExecError, ResultStatus};

verus! {

/// The name stamped on every task this worker family processes.
pub const WORKER_NAME: &'static str = "seraph-code-node-worker";

/// How many tasks may run at once under one consumer loop.
pub const CONCURRENCY: u8 = 5;

/// One request to execute a code node: the queue payload.  Ephemeral — it
/// is never persisted as its own row; the result record carries its id.
#[derive(Clone, Debug, PartialEq, Eq)]
pub struct CodeNodeTask {
    /// Unique task identity, minted at enqueue time.
    pub id: u128,
    pub task_name: String,
    /// Seconds since the epoch at enqueue time.
    pub created_at: i64,
    pub node_id: i32,
    pub args: Vec<String>,
    pub dependencies: Vec<String>,
}

/// Relies on uuid::Uuid::new_v4: a freshly generated random identifier;
/// nothing is promised of its value.
#[verifier::external_body]
fn fresh_task_id() -> u128 {
    uuid::Uuid::new_v4().as_u128()
}

/// Relies on chrono::Utc::now: the current time; nothing is promised of
/// its value.
#[verifier::external_body]
fn current_timestamp() -> i64 {
    chrono::Utc::now().timestamp()
}

impl CodeNodeTask {
    /// Mints a new task for the given node with a fresh identity and the
    /// current enqueue time.
    pub fn new(node_id: i32, args: Vec<String>, dependencies: Vec<String>) -> (r: Self)
        ensures
            r.node_id == node_id,
            r.args == args,
            r.dependencies == dependencies,
            r.task_name@ == WORKER_NAME@,
    {
        CodeNodeTask {
            id: fresh_task_id(),
            task_name: WORKER_NAME.to_owned(),
            created_at: current_timestamp(),
            node_id,
            args,
            dependencies,
        }
    }
}

/// Where a running execution stands; the data each phase carries is what
/// later phases still need.
#[derive(Debug, PartialEq, Eq)]
pub enum Phase {
    /// The code node is being looked up.
    Resolving,
    /// The pending result record is being inserted.
    Inserting { node: Model },
    /// The container is being created; the bundle waits for upload.
    Creating { bundle: Bundle },
    /// The bundle is being streamed into the container.
    Uploading { container_id: String },
    /// The record's move to Running is being persisted.
    MarkingRunning { container_id: String },
    /// The container is being started.
    Starting { container_id: String },
    /// The container runs; its exit is awaited.
    Waiting { container_id: String },
    /// The container exited; its logs are being collected.
    Collecting { container_id: String, exit_code: Option<i64> },
    /// The container is being removed; the verdict is already fixed.
    Removing { verdict: Verdict },
    /// The terminal record update is being persisted.
    Persisting,
    /// Nothing remains to do.
    Finished { outcome: Outcome },
}

/// What the removal phase will conclude once cleanup has been attempted.
#[derive(Debug, PartialEq, Eq)]
pub enum Verdict {
    /// Setup failed before the record reached Running: it stays Pending.
    Abandoned { error: ExecError },
    /// The run is committed: the record takes this terminal status and
    /// this captured output.
    Finalize { status: ResultStatus, output: String },
}

/// How an execution ended.
#[derive(Clone, Copy, Debug, PartialEq, Eq, Structural)]
pub enum Outcome {
    /// The referenced code node does not exist: the task is dropped and no
    /// result record is ever created.
    Dropped,
    /// Setup failed before the container started: the record stays Pending.
    Abandoned { error: ExecError },
    /// The container ran to an exit: the record is terminal.
    Completed,
}

/// The outcome of one outside call, fed back into the machine.
#[derive(Debug, PartialEq, Eq)]
pub enum Event {
    NodeFound { node: Model },
    NodeMissing,
    /// The pending record was inserted under this row id.
    Inserted { id: i32 },
    Created { container_id: String },
    CreateFailed { error: ExecError },
    Uploaded,
    UploadFailed,
    /// The record's new status was persisted.
    Marked,
    Started,
    StartFailed,
    Exited { code: i64 },
    /// The wait ended without a usable exit code.
    ExitUnknown,
    Logs { output: String },
    Removed,
    RemoveFailed,
    /// The terminal record update was persisted.
    Persisted,
}

/// The one call the runtime loop must make next.
#[derive(Debug, PartialEq, Eq)]
pub enum Action {
    FindNode { node_id: i32 },
    InsertPending { record: code_result::Model },
    CreateContainer { image: String, working_dir: String, command: Vec<String> },
    UploadBundle { container_id: String, path: String, bundle: Bundle },
    MarkRunning { record: code_result::Model },
    StartContainer { container_id: String },
    WaitForExit { container_id: String },
    CollectLogs { container_id: String },
    RemoveContainer { container_id: String },
    PersistOutcome { record: code_result::Model },
    Finish { outcome: Outcome },
}

/// One task's execution: the task, the phase it stands in, and the result
/// record as the machine believes storage holds it.
#[derive(Debug, PartialEq, Eq)]
pub struct Execution {
    pub task: CodeNodeTask,
    pub phase: Phase,
    pub record: Option<code_result::Model>,
}

/// Which events answer which phase: the runtime loop must reply to each
/// action with an outcome of that action, nothing else.
pub open spec fn expected_event(phase: Phase, ev: Event) -> bool {
    match (phase, ev) {
        (Phase::Resolving, Event::NodeFound { .. }) => true,
        (Phase::Resolving, Event::NodeMissing) => true,
        (Phase::Inserting { .. }, Event::Inserted { .. }) => true,
        (Phase::Creating { .. }, Event::Created { .. }) => true,
        (Phase::Creating { .. }, Event::CreateFailed { error }) => error is RuntimeUnavailable
            || error is CreateFailure,
        (Phase::Uploading { .. }, Event::Uploaded) => true,
        (Phase::Uploading { .. }, Event::UploadFailed) => true,
        (Phase::MarkingRunning { .. }, Event::Marked) => true,
        (Phase::Starting { .. }, Event::Started) => true,
        (Phase::Starting { .. }, Event::StartFailed) => true,
        (Phase::Waiting { .. }, Event::Exited { .. }) => true,
        (Phase::Waiting { .. }, Event::ExitUnknown) => true,
        (Phase::Collecting { .. }, Event::Logs { .. }) => true,
        (Phase::Removing { .. }, Event::Removed) => true,
        (Phase::Removing { .. }, Event::RemoveFailed) => true,
        (Phase::Persisting, Event::Persisted) => true,
        _ => false,
    }
}

/// The record as first inserted: Pending, no output, no row id yet.
pub open spec fn pending_record(task: CodeNodeTask, node: Model) -> code_result::Model {
    code_result::Model {
        id: 0,
        task_id: task.id,
        code_node_id: node.id,
        status: ResultStatus::Pending,
        output: None,
    }
}

/// The same record under the row id storage assigned.
pub open spec fn with_row_id(rec: code_result::Model, id: i32) -> code_result::Model {
    code_result::Model {
        id,
        task_id: rec.task_id,
        code_node_id: rec.code_node_id,
        status: rec.status,
        output: rec.output,
    }
}

/// The same record moved to Running.
pub open spec fn as_running(rec: code_result::Model) -> code_result::Model {
    code_result::Model {
        id: rec.id,
        task_id: rec.task_id,
        code_node_id: rec.code_node_id,
        status: ResultStatus::Running,
        output: rec.output,
    }
}

/// The same record closed with a terminal status and its captured output.
pub open spec fn finalized(
    rec: code_result::Model,
    status: ResultStatus,
    output: String,
) -> code_result::Model {
    code_result::Model {
        id: rec.id,
        task_id: rec.task_id,
        code_node_id: rec.code_node_id,
        status,
        output: Some(output),
    }
}

/// The terminal status a container exit dictates: exit code zero means
/// Success; any other exit code, or none at all, means Error.
pub open spec fn spec_status_of_exit(exit_code: Option<i64>) -> ResultStatus {
    if exit_code == Some(0i64) {
        ResultStatus::Success
    } else {
        ResultStatus::Error
    }
}

/// Exit code zero maps to Success; any non-zero or missing exit code maps
/// to Error.
pub fn status_of_exit(exit_code: Option<i64>) -> (r: ResultStatus)
    ensures
        r == spec_status_of_exit(exit_code),
        r.spec_is_terminal(),
{
    match exit_code {
        Some(code) => if code == 0 {
            ResultStatus::Success
        } else {
            ResultStatus::Error
        },
        None => ResultStatus::Error,
    }
}

/// The transition relation of the worker: what one step does to the state
/// and which action it emits, for every phase and event.  This is the
/// machine the runtime loop is held to.
pub open spec fn step_spec(pre: Execution, ev: Event, post: Execution, action: Action) -> bool {
    &&& post.task == pre.task
    &&& match (pre.phase, ev) {
        (Phase::Resolving, Event::NodeFound { node }) => {
            &&& post.phase matches Phase::Inserting { node: n } && n == node
            &&& post.record == Some(pending_record(pre.task, node))
            &&& action == (Action::InsertPending { record: pending_record(pre.task, node) })
        },
        (Phase::Resolving, Event::NodeMissing) => {
            &&& post.phase == (Phase::Finished { outcome: Outcome::Dropped })
            &&& post.record is None
            &&& action == (Action::Finish { outcome: Outcome::Dropped })
        },
        (Phase::Inserting { node }, Event::Inserted { id }) => {
            let rec = with_row_id(pre.record->0, id);
            &&& post.record == Some(rec)
            &&& if node.language is JavaScript {
                let outcome = Outcome::Abandoned { error: ExecError::UnsupportedLanguage };
                &&& post.phase == (Phase::Finished { outcome })
                &&& action == (Action::Finish { outcome })
            } else if restored_text(node.code@) is None {
                let outcome = Outcome::Abandoned { error: ExecError::DecodeFailure };
                &&& post.phase == (Phase::Finished { outcome })
                &&& action == (Action::Finish { outcome })
            } else {
                &&& post.phase matches Phase::Creating { bundle }
                    && crate::code_nodes::is_package_of(bundle, node)
                &&& action matches Action::CreateContainer { image, working_dir, command }
                    && image@ == node.language.spec_image_name()
                    && working_dir@ == "/app/"@
                    && command.deep_view() == python_command(
                    node.name@,
                    node.function_name@,
                    pre.task.args.deep_view(),
                    pre.task.dependencies.deep_view(),
                )
            }
        },
        (Phase::Creating { bundle }, Event::Created { container_id }) => {
            &&& post.phase matches Phase::Uploading { container_id: c } && c == container_id
            &&& post.record == pre.record
            &&& action matches Action::UploadBundle { container_id: c, path, bundle: b }
                && c == container_id
                && path@ == "/app/"@
                && b == bundle
        },
        (Phase::Creating { .. }, Event::CreateFailed { error }) => {
            let outcome = Outcome::Abandoned { error };
            &&& post.phase == (Phase::Finished { outcome })
            &&& post.record == pre.record
            &&& action == (Action::Finish { outcome })
        },
        (Phase::Uploading { container_id }, Event::Uploaded) => {
            let rec = as_running(pre.record->0);
            &&& post.phase matches Phase::MarkingRunning { container_id: c } && c == container_id
            &&& post.record == Some(rec)
            &&& action == (Action::MarkRunning { record: rec })
        },
        (Phase::Uploading { container_id }, Event::UploadFailed) => {
            &&& post.phase == (Phase::Removing {
                verdict: Verdict::Abandoned { error: ExecError::UploadFailure },
            })
            &&& post.record == pre.record
            &&& action == (Action::RemoveContainer { container_id })
        },
        (Phase::MarkingRunning { container_id }, Event::Marked) => {
            &&& post.phase matches Phase::Starting { container_id: c } && c == container_id
            &&& post.record == pre.record
            &&& action == (Action::StartContainer { container_id })
        },
        (Phase::Starting { container_id }, Event::Started) => {
            &&& post.phase matches Phase::Waiting { container_id: c } && c == container_id
            &&& post.record == pre.record
            &&& action == (Action::WaitForExit { container_id })
        },
        (Phase::Starting { container_id }, Event::StartFailed) => {
            &&& post.phase matches Phase::Removing {
                verdict: Verdict::Finalize { status, output },
            } && status is Error
                && output@ == "container failed to start"@
            &&& post.record == pre.record
            &&& action == (Action::RemoveContainer { container_id })
        },
        (Phase::Waiting { container_id }, Event::Exited { code }) => {
            &&& post.phase matches Phase::Collecting { container_id: c, exit_code }
                && c == container_id
                && exit_code == Some(code)
            &&& post.record == pre.record
            &&& action == (Action::CollectLogs { container_id })
        },
        (Phase::Waiting { container_id }, Event::ExitUnknown) => {
            &&& post.phase matches Phase::Collecting { container_id: c, exit_code }
                && c == container_id
                && exit_code is None
            &&& post.record == pre.record
            &&& action == (Action::CollectLogs { container_id })
        },
        (Phase::Collecting { container_id, exit_code }, Event::Logs { output }) => {
            &&& post.phase matches Phase::Removing {
                verdict: Verdict::Finalize { status, output: o },
            } && status == spec_status_of_exit(exit_code)
                && o == output
            &&& post.record == pre.record
            &&& action == (Action::RemoveContainer { container_id })
        },
        (Phase::Removing { verdict }, Event::Removed)
        | (Phase::Removing { verdict }, Event::RemoveFailed) => {
            match verdict {
                Verdict::Abandoned { error } => {
                    let outcome = Outcome::Abandoned { error };
                    &&& post.phase == (Phase::Finished { outcome })
                    &&& post.record == pre.record
                    &&& action == (Action::Finish { outcome })
                },
                Verdict::Finalize { status, output } => {
                    let rec = finalized(pre.record->0, status, output);
                    &&& post.phase is Persisting
                    &&& post.record == Some(rec)
                    &&& action == (Action::PersistOutcome { record: rec })
                },
            }
        },
        (Phase::Persisting, Event::Persisted) => {
            &&& post.phase == (Phase::Finished { outcome: Outcome::Completed })
            &&& post.record == pre.record
            &&& action == (Action::Finish { outcome: Outcome::Completed })
        },
        _ => false,
    }
}

impl Execution {
    /// The state invariant: the record exists exactly from insertion on,
    /// its identities match the task, its status matches the phase, and it
    /// carries output exactly when terminal.
    pub open spec fn wf(self) -> bool {
        &&& match self.record {
            Some(rec) => rec.task_id == self.task.id && rec.well_formed(),
            None => true,
        }
        &&& match self.phase {
            Phase::Resolving => self.record is None,
            Phase::Inserting { .. } | Phase::Creating { .. } | Phase::Uploading { .. } => {
                &&& self.record is Some
                &&& self.record->0.status is Pending
            },
            Phase::MarkingRunning { .. } | Phase::Starting { .. } | Phase::Waiting { .. }
            | Phase::Collecting { .. } => {
                &&& self.record is Some
                &&& self.record->0.status is Running
            },
            Phase::Removing { verdict } => match verdict {
                Verdict::Abandoned { .. } => self.record is Some && self.record->0.status
                    is Pending,
                Verdict::Finalize { status, .. } => {
                    &&& self.record is Some
                    &&& self.record->0.status is Running
                    &&& status.spec_is_terminal()
                },
            },
            Phase::Persisting => self.record is Some && self.record->0.status.spec_is_terminal(),
            Phase::Finished { outcome } => match outcome {
                Outcome::Dropped => self.record is None,
                Outcome::Abandoned { .. } => self.record is Some && self.record->0.status
                    is Pending,
                Outcome::Completed => self.record is Some
                    && self.record->0.status.spec_is_terminal(),
            },
        }
    }

    /// Starts an execution for one freshly delivered task: the first action
    /// is to look the code node up.
    pub fn start(task: CodeNodeTask) -> (r: (Execution, Action))
        ensures
            r.0.task == task,
            r.0.phase is Resolving,
            r.0.record is None,
            r.0.wf(),
            r.1 == (Action::FindNode { node_id: task.node_id }),
    {
        let node_id = task.node_id;
        (Execution { task, phase: Phase::Resolving, record: None }, Action::FindNode { node_id })
    }

    /// Performs one transition of the machine: consumes the event answering
    /// the previous action and returns the next state with the next action.
    pub fn step(self, ev: Event) -> (r: (Execution, Action))
        requires
            self.wf(),
            expected_event(self.phase, ev),
        ensures
            step_spec(self, ev, r.0, r.1),
            r.0.wf(),
    {
        let Execution { task, phase, record } = self;
        match (phase, ev) {
            (Phase::Resolving, Event::NodeFound { node }) => {
                let rec = code_result::Model {
                    id: 0,
                    task_id: task.id,
                    code_node_id: node.id,
                    status: ResultStatus::Pending,
                    output: None,
                };
                let action = Action::InsertPending { record: rec.duplicate() };
                (Execution { task, phase: Phase::Inserting { node }, record: Some(rec) }, action)
            },
            (Phase::Resolving, Event::NodeMissing) => {
                let outcome = Outcome::Dropped;
                (
                    Execution { task, phase: Phase::Finished { outcome }, record: None },
                    Action::Finish { outcome },
                )
            },
            (Phase::Inserting { node }, Event::Inserted { id }) => {
                let rec0 = match record {
                    Some(rec0) => rec0,
                    None => vstd::pervasive::unreached(),
                };
                let rec = code_result::Model {
                    id,
                    task_id: rec0.task_id,
                    code_node_id: rec0.code_node_id,
                    status: rec0.status,
                    output: rec0.output,
                };
                let dependencies = if task.dependencies.is_empty() {
                    None
                } else {
                    Some(&task.dependencies)
                };
                match node.get_command(&task.args, dependencies) {
                    Ok(command) => {
                        proof {
                            if task.dependencies@.len() == 0 {
                                assert(task.dependencies.deep_view()
                                    =~= Seq::<Seq<char>>::empty());
                            }
                        }
                        match node.package() {
                            Ok(bundle) => {
                                let image = node.language.get_image_name().to_owned();
                                let working_dir = "/app/".to_owned();
                                let action = Action::CreateContainer {
                                    image,
                                    working_dir,
                                    command,
                                };
                                (
                                    Execution {
                                        task,
                                        phase: Phase::Creating { bundle },
                                        record: Some(rec),
                                    },
                                    action,
                                )
                            },
                            Err(_) => {
                                let outcome = Outcome::Abandoned {
                                    error: ExecError::DecodeFailure,
                                };
                                (
                                    Execution {
                                        task,
                                        phase: Phase::Finished { outcome },
                                        record: Some(rec),
                                    },
                                    Action::Finish { outcome },
                                )
                            },
                        }
                    },
                    Err(_) => {
                        let outcome = Outcome::Abandoned {
                            error: ExecError::UnsupportedLanguage,
                        };
                        (
                            Execution {
                                task,
                                phase: Phase::Finished { outcome },
                                record: Some(rec),
                            },
                            Action::Finish { outcome },
                        )
                    },
                }
            },
            (Phase::Creating { bundle }, Event::Created { container_id }) => {
                let action = Action::UploadBundle {
                    container_id: container_id.clone(),
                    path: "/app/".to_owned(),
                    bundle,
                };
                (Execution { task, phase: Phase::Uploading { container_id }, record }, action)
            },
            (Phase::Creating { .. }, Event::CreateFailed { error }) => {
                let outcome = Outcome::Abandoned { error };
                (
                    Execution { task, phase: Phase::Finished { outcome }, record },
                    Action::Finish { outcome },
                )
            },
            (Phase::Uploading { container_id }, Event::Uploaded) => {
                let rec0 = match record {
                    Some(rec0) => rec0,
                    None => vstd::pervasive::unreached(),
                };
                let rec = code_result::Model {
                    id: rec0.id,
                    task_id: rec0.task_id,
                    code_node_id: rec0.code_node_id,
                    status: ResultStatus::Running,
                    output: rec0.output,
                };
                let action = Action::MarkRunning { record: rec.duplicate() };
                (
                    Execution {
                        task,
                        phase: Phase::MarkingRunning { container_id },
                        record: Some(rec),
                    },
                    action,
                )
            },
            (Phase::Uploading { container_id }, Event::UploadFailed) => {
                let verdict = Verdict::Abandoned { error: ExecError::UploadFailure };
                (
                    Execution { task, phase: Phase::Removing { verdict }, record },
                    Action::RemoveContainer { container_id },
                )
            },
            (Phase::MarkingRunning { container_id }, Event::Marked) => {
                let action = Action::StartContainer { container_id: container_id.clone() };
                (Execution { task, phase: Phase::Starting { container_id }, record }, action)
            },
            (Phase::Starting { container_id }, Event::Started) => {
                let action = Action::WaitForExit { container_id: container_id.clone() };
                (Execution { task, phase: Phase::Waiting { container_id }, record }, action)
            },
            (Phase::Starting { container_id }, Event::StartFailed) => {
                let verdict = Verdict::Finalize {
                    status: ResultStatus::Error,
                    output: "container failed to start".to_owned(),
                };
                (
                    Execution { task, phase: Phase::Removing { verdict }, record },
                    Action::RemoveContainer { container_id },
                )
            },
            (Phase::Waiting { container_id }, Event::Exited { code }) => {
                let action = Action::CollectLogs { container_id: container_id.clone() };
                (
                    Execution {
                        task,
                        phase: Phase::Collecting { container_id, exit_code: Some(code) },
                        record,
                    },
                    action,
                )
            },
            (Phase::Waiting { container_id }, Event::ExitUnknown) => {
                let action = Action::CollectLogs { container_id: container_id.clone() };
                (
                    Execution {
                        task,
                        phase: Phase::Collecting { container_id, exit_code: None },
                        record,
                    },
                    action,
                )
            },
            (Phase::Collecting { container_id, exit_code }, Event::Logs { output }) => {
                let verdict = Verdict::Finalize { status: status_of_exit(exit_code), output };
                (
                    Execution { task, phase: Phase::Removing { verdict }, record },
                    Action::RemoveContainer { container_id },
                )
            },
            (Phase::Removing { verdict }, Event::Removed)
            | (Phase::Removing { verdict }, Event::RemoveFailed) => {
                match verdict {
                    Verdict::Abandoned { error } => {
                        let outcome = Outcome::Abandoned { error };
                        (
                            Execution { task, phase: Phase::Finished { outcome }, record },
                            Action::Finish { outcome },
                        )
                    },
                    Verdict::Finalize { status, output } => {
                        let rec0 = match record {
                            Some(rec0) => rec0,
                            None => vstd::pervasive::unreached(),
                        };
                        let rec = code_result::Model {
                            id: rec0.id,
                            task_id: rec0.task_id,
                            code_node_id: rec0.code_node_id,
                            status,
                            output: Some(output),
                        };
                        let action = Action::PersistOutcome { record: rec.duplicate() };
                        (
                            Execution { task, phase: Phase::Persisting, record: Some(rec) },
                            action,
                        )
                    },
                }
            },
            (Phase::Persisting, Event::Persisted) => {
                let outcome = Outcome::Completed;
                (
                    Execution { task, phase: Phase::Finished { outcome }, record },
                    Action::Finish { outcome },
                )
            },
            _ => vstd::pervasive::unreached(),
        }
    }
}

/// How far an execution still has to go; Finished is zero.
pub open spec fn phase_measure(p: Phase) -> nat {
    match p {
        Phase::Resolving => 10,
        Phase::Inserting { .. } => 9,
        Phase::Creating { .. } => 8,
        Phase::Uploading { .. } => 7,
        Phase::MarkingRunning { .. } => 6,
        Phase::Starting { .. } => 5,
        Phase::Waiting { .. } => 4,
        Phase::Collecting { .. } => 3,
        Phase::Removing { .. } => 2,
        Phase::Persisting => 1,
        Phase::Finished { .. } => 0,
    }
}

/// Every step strictly decreases the phase measure, so every execution
/// reaches Finished after boundedly many steps.
pub proof fn lemma_step_progress(pre: Execution, ev: Event, post: Execution, action: Action)
    requires
        step_spec(pre, ev, post, action),
    ensures
        phase_measure(post.phase) < phase_measure(pre.phase),
{
}

/// The result record never regresses: once it exists it stays, its
/// identities are stable, its status rank only moves forward, and a
/// terminal status never changes again.
pub proof fn lemma_step_monotone(pre: Execution, ev: Event, post: Execution, action: Action)
    requires
        step_spec(pre, ev, post, action),
        pre.wf(),
    ensures
        pre.record is Some ==> post.record is Some,
        pre.record is Some ==> pre.record->0.advances_to(post.record->0),
{
}

/// Once the record shows Running, every further step keeps it Running or
/// moves it to exactly one terminal status, never back; and the only way
/// such an execution can finish is completed, terminal, with captured
/// output.
pub proof fn lemma_running_reaches_terminal(
    pre: Execution,
    ev: Event,
    post: Execution,
    action: Action,
)
    requires
        step_spec(pre, ev, post, action),
        pre.wf(),
        pre.record is Some,
        pre.record->0.status.rank() >= 1,
    ensures
        post.record is Some,
        post.record->0.status.rank() >= 1,
        post.phase matches Phase::Finished { outcome } ==> outcome is Completed,
        post.phase matches Phase::Finished { .. } ==> post.record->0.status.spec_is_terminal()
            && post.record->0.output is Some,
{
}

/// What a finished execution's ledger looks like, by outcome: a dropped
/// task never created a record; an abandoned one left it Pending with no
/// output; a completed one left it terminal with its output captured —
/// and output is present exactly on terminal status.
pub proof fn lemma_finished_record(ex: Execution)
    requires
        ex.wf(),
        ex.phase matches Phase::Finished { .. },
    ensures
        ex.phase matches Phase::Finished { outcome: Outcome::Dropped } ==> ex.record is None,
        (ex.phase matches Phase::Finished { outcome } && outcome matches Outcome::Abandoned { .. })
            ==> ex.record is Some && ex.record->0.status is Pending && ex.record->0.output is None,
        ex.phase matches Phase::Finished { outcome: Outcome::Completed } ==> ex.record is Some
            && ex.record->0.status.spec_is_terminal() && ex.record->0.output is Some,
        ex.record is Some ==> (ex.record->0.output is Some
            <==> ex.record->0.status.spec_is_terminal()),
{
}

} // verus!
