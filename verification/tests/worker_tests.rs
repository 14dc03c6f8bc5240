//! The execution worker state machine, driven through whole lifecycles the
//! way the runtime loop drives it.

use seraph_core::code_nodes::Model;
use seraph_core::enums::{CodeLanguage, ExecError, OutputType, ResultStatus};
use seraph_core::worker::{status_of_exit, Action, CodeNodeTask, Event, Execution, Outcome};

fn scenario_node(language: CodeLanguage) -> Model {
    Model {
        id: 1,
        name: "add".to_string(),
        function_name: "add_numbers".to_string(),
        code: "\"def add_numbers():\\n    return 1+1\"".to_string(),
        output_name: "result".to_string(),
        output_type: OutputType::Number,
        language,
    }
}

/// Drives a freshly started execution up to the point where the container
/// is about to be started, and returns it with its container id.
fn drive_to_running(task: CodeNodeTask, node: Model) -> Execution {
    let (ex, action) = Execution::start(task);
    assert_eq!(action, Action::FindNode { node_id: node.id });
    let (ex, action) = ex.step(Event::NodeFound { node });
    assert!(matches!(action, Action::InsertPending { .. }));
    let (ex, action) = ex.step(Event::Inserted { id: 11 });
    assert!(matches!(action, Action::CreateContainer { .. }));
    let (ex, action) = ex.step(Event::Created {
        container_id: "c1".to_string(),
    });
    assert!(matches!(action, Action::UploadBundle { .. }));
    let (ex, action) = ex.step(Event::Uploaded);
    match action {
        Action::MarkRunning { record } => {
            assert_eq!(record.status, ResultStatus::Running);
            assert_eq!(record.id, 11);
            assert_eq!(record.output, None);
        }
        other => panic!("expected MarkRunning, got {:?}", other),
    }
    let (ex, action) = ex.step(Event::Marked);
    assert_eq!(
        action,
        Action::StartContainer {
            container_id: "c1".to_string()
        }
    );
    ex
}

#[test]
fn scenario_full_success_run() {
    let task = CodeNodeTask::new(1, vec![], vec![]);
    let task_id = task.id;
    let (ex, action) = Execution::start(task);
    assert_eq!(action, Action::FindNode { node_id: 1 });
    assert_eq!(ex.record, None);

    let (ex, action) = ex.step(Event::NodeFound {
        node: scenario_node(CodeLanguage::Python),
    });
    match &action {
        Action::InsertPending { record } => {
            assert_eq!(record.status, ResultStatus::Pending);
            assert_eq!(record.task_id, task_id);
            assert_eq!(record.code_node_id, 1);
            assert_eq!(record.output, None);
        }
        other => panic!("expected InsertPending, got {:?}", other),
    }

    let (ex, action) = ex.step(Event::Inserted { id: 11 });
    match &action {
        Action::CreateContainer {
            image,
            working_dir,
            command,
        } => {
            assert_eq!(image, "python:3.12");
            assert_eq!(working_dir, "/app/");
            assert_eq!(
                command,
                &vec!["uv", "run", "-q", "main.py", "add", "add_numbers"]
            );
        }
        other => panic!("expected CreateContainer, got {:?}", other),
    }

    let (ex, action) = ex.step(Event::Created {
        container_id: "c1".to_string(),
    });
    match &action {
        Action::UploadBundle {
            container_id,
            path,
            bundle,
        } => {
            assert_eq!(container_id, "c1");
            assert_eq!(path, "/app/");
            assert_eq!(bundle.file_name, "add.py");
            assert_eq!(bundle.content, "def add_numbers():\n    return 1+1");
        }
        other => panic!("expected UploadBundle, got {:?}", other),
    }

    let (ex, action) = ex.step(Event::Uploaded);
    assert!(matches!(action, Action::MarkRunning { .. }));
    assert_eq!(ex.record.as_ref().unwrap().status, ResultStatus::Running);

    let (ex, action) = ex.step(Event::Marked);
    assert!(matches!(action, Action::StartContainer { .. }));
    let (ex, action) = ex.step(Event::Started);
    assert!(matches!(action, Action::WaitForExit { .. }));
    let (ex, action) = ex.step(Event::Exited { code: 0 });
    assert!(matches!(action, Action::CollectLogs { .. }));
    let (ex, action) = ex.step(Event::Logs {
        output: "2\n".to_string(),
    });
    assert!(matches!(action, Action::RemoveContainer { .. }));

    let (ex, action) = ex.step(Event::Removed);
    match &action {
        Action::PersistOutcome { record } => {
            assert_eq!(record.status, ResultStatus::Success);
            assert!(record.output.as_ref().unwrap().contains("2"));
        }
        other => panic!("expected PersistOutcome, got {:?}", other),
    }

    let (ex, action) = ex.step(Event::Persisted);
    assert_eq!(
        action,
        Action::Finish {
            outcome: Outcome::Completed
        }
    );
    let record = ex.record.unwrap();
    assert_eq!(record.status, ResultStatus::Success);
    assert_eq!(record.output.as_deref(), Some("2\n"));
}

#[test]
fn scenario_dependency_flag_sits_before_entry_point() {
    let task = CodeNodeTask::new(1, vec![], vec!["numpy".to_string()]);
    let (ex, _) = Execution::start(task);
    let (ex, _) = ex.step(Event::NodeFound {
        node: scenario_node(CodeLanguage::Python),
    });
    let (_, action) = ex.step(Event::Inserted { id: 11 });
    match action {
        Action::CreateContainer { command, .. } => {
            assert_eq!(
                command,
                vec!["uv", "run", "-q", "--with", "numpy", "main.py", "add", "add_numbers"]
            );
            let at = command.iter().position(|w| w == "--with").unwrap();
            assert_eq!(command[at + 1], "numpy");
            assert_eq!(command[at + 2], "main.py");
        }
        other => panic!("expected CreateContainer, got {:?}", other),
    }
}

#[test]
fn scenario_javascript_fails_at_command_build() {
    let task = CodeNodeTask::new(1, vec![], vec![]);
    let (ex, _) = Execution::start(task);
    let (ex, _) = ex.step(Event::NodeFound {
        node: scenario_node(CodeLanguage::JavaScript),
    });
    let (ex, action) = ex.step(Event::Inserted { id: 11 });
    assert_eq!(
        action,
        Action::Finish {
            outcome: Outcome::Abandoned {
                error: ExecError::UnsupportedLanguage
            }
        }
    );
    // The result row stays Pending; no container was ever asked for.
    let record = ex.record.unwrap();
    assert_eq!(record.status, ResultStatus::Pending);
    assert_eq!(record.output, None);
}

#[test]
fn scenario_missing_node_drops_task_without_record() {
    let task = CodeNodeTask::new(42, vec![], vec![]);
    let (ex, _) = Execution::start(task);
    let (ex, action) = ex.step(Event::NodeMissing);
    assert_eq!(
        action,
        Action::Finish {
            outcome: Outcome::Dropped
        }
    );
    assert_eq!(ex.record, None);
}

#[test]
fn scenario_killed_container_records_error_with_logs_verbatim() {
    let task = CodeNodeTask::new(1, vec![], vec![]);
    let ex = drive_to_running(task, scenario_node(CodeLanguage::Python));
    let (ex, _) = ex.step(Event::Started);
    let (ex, action) = ex.step(Event::Exited { code: 137 });
    assert!(matches!(action, Action::CollectLogs { .. }));
    let logs = "Killed\npartial output kept as is";
    let (ex, action) = ex.step(Event::Logs {
        output: logs.to_string(),
    });
    assert!(matches!(action, Action::RemoveContainer { .. }));
    let (ex, _) = ex.step(Event::Removed);
    let (ex, _) = ex.step(Event::Persisted);
    let record = ex.record.unwrap();
    assert_eq!(record.status, ResultStatus::Error);
    assert_eq!(record.output.as_deref(), Some(logs));
}

#[test]
fn missing_exit_code_counts_as_error() {
    let task = CodeNodeTask::new(1, vec![], vec![]);
    let ex = drive_to_running(task, scenario_node(CodeLanguage::Python));
    let (ex, _) = ex.step(Event::Started);
    let (ex, _) = ex.step(Event::ExitUnknown);
    let (ex, _) = ex.step(Event::Logs {
        output: String::new(),
    });
    let (ex, action) = ex.step(Event::Removed);
    match action {
        Action::PersistOutcome { record } => {
            assert_eq!(record.status, ResultStatus::Error);
        }
        other => panic!("expected PersistOutcome, got {:?}", other),
    }
    let (_, action) = ex.step(Event::Persisted);
    assert_eq!(
        action,
        Action::Finish {
            outcome: Outcome::Completed
        }
    );
}

#[test]
fn malformed_stored_source_leaves_record_pending() {
    let task = CodeNodeTask::new(1, vec![], vec![]);
    let mut node = scenario_node(CodeLanguage::Python);
    node.code = "not a json string literal".to_string();
    let (ex, _) = Execution::start(task);
    let (ex, _) = ex.step(Event::NodeFound { node });
    let (ex, action) = ex.step(Event::Inserted { id: 11 });
    assert_eq!(
        action,
        Action::Finish {
            outcome: Outcome::Abandoned {
                error: ExecError::DecodeFailure
            }
        }
    );
    assert_eq!(ex.record.unwrap().status, ResultStatus::Pending);
}

#[test]
fn create_failure_leaves_record_pending() {
    let task = CodeNodeTask::new(1, vec![], vec![]);
    let (ex, _) = Execution::start(task);
    let (ex, _) = ex.step(Event::NodeFound {
        node: scenario_node(CodeLanguage::Python),
    });
    let (ex, _) = ex.step(Event::Inserted { id: 11 });
    let (ex, action) = ex.step(Event::CreateFailed {
        error: ExecError::CreateFailure,
    });
    assert_eq!(
        action,
        Action::Finish {
            outcome: Outcome::Abandoned {
                error: ExecError::CreateFailure
            }
        }
    );
    assert_eq!(ex.record.unwrap().status, ResultStatus::Pending);
}

#[test]
fn upload_failure_still_removes_container() {
    let task = CodeNodeTask::new(1, vec![], vec![]);
    let (ex, _) = Execution::start(task);
    let (ex, _) = ex.step(Event::NodeFound {
        node: scenario_node(CodeLanguage::Python),
    });
    let (ex, _) = ex.step(Event::Inserted { id: 11 });
    let (ex, _) = ex.step(Event::Created {
        container_id: "c9".to_string(),
    });
    let (ex, action) = ex.step(Event::UploadFailed);
    assert_eq!(
        action,
        Action::RemoveContainer {
            container_id: "c9".to_string()
        }
    );
    let (ex, action) = ex.step(Event::RemoveFailed);
    assert_eq!(
        action,
        Action::Finish {
            outcome: Outcome::Abandoned {
                error: ExecError::UploadFailure
            }
        }
    );
    let record = ex.record.unwrap();
    assert_eq!(record.status, ResultStatus::Pending);
    assert_eq!(record.output, None);
}

#[test]
fn start_failure_after_running_still_reaches_terminal_error() {
    let task = CodeNodeTask::new(1, vec![], vec![]);
    let ex = drive_to_running(task, scenario_node(CodeLanguage::Python));
    let (ex, action) = ex.step(Event::StartFailed);
    assert_eq!(
        action,
        Action::RemoveContainer {
            container_id: "c1".to_string()
        }
    );
    let (ex, _) = ex.step(Event::Removed);
    let (ex, action) = ex.step(Event::Persisted);
    assert_eq!(
        action,
        Action::Finish {
            outcome: Outcome::Completed
        }
    );
    let record = ex.record.unwrap();
    assert_eq!(record.status, ResultStatus::Error);
    assert_eq!(record.output.as_deref(), Some("container failed to start"));
}

#[test]
fn exit_code_decides_terminal_status() {
    assert_eq!(status_of_exit(Some(0)), ResultStatus::Success);
    assert_eq!(status_of_exit(Some(1)), ResultStatus::Error);
    assert_eq!(status_of_exit(Some(137)), ResultStatus::Error);
    assert_eq!(status_of_exit(Some(-1)), ResultStatus::Error);
    assert_eq!(status_of_exit(None), ResultStatus::Error);
}

#[test]
fn new_task_carries_request_and_fresh_identity() {
    let args = vec!["3".to_string()];
    let deps = vec!["numpy".to_string()];
    let task = CodeNodeTask::new(9, args.clone(), deps.clone());
    assert_eq!(task.node_id, 9);
    assert_eq!(task.args, args);
    assert_eq!(task.dependencies, deps);
    assert_eq!(task.task_name, "seraph-code-node-worker");
    let other = CodeNodeTask::new(9, args, deps);
    assert_ne!(task.id, other.id);
}
