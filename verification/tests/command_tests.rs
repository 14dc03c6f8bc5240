//! The command builder: layout, dependency flags, argument order, and the
//! refusal of unsupported languages.

use seraph_core::code_nodes::Model;
use seraph_core::enums::{CodeLanguage, ExecError, OutputType};

fn node(language: CodeLanguage) -> Model {
    Model {
        id: 1,
        name: "add".to_string(),
        function_name: "add_numbers".to_string(),
        code: "\"def add_numbers():\\n    return 1+1\"".to_string(),
        output_name: "result".to_string(),
        output_type: OutputType::Number,
        language,
    }
}

#[test]
fn python_command_basic() {
    let n = node(CodeLanguage::Python);
    let cmd = n.get_command(&vec![], None).unwrap();
    assert_eq!(
        cmd,
        vec!["uv", "run", "-q", "main.py", "add", "add_numbers"]
    );
}

#[test]
fn python_command_prefix_and_tail() {
    let n = node(CodeLanguage::Python);
    let args = vec!["3".to_string(), "4".to_string()];
    let cmd = n.get_command(&args, None).unwrap();
    assert_eq!(&cmd[..3], ["uv", "run", "-q"]);
    assert_eq!(&cmd[cmd.len() - 2..], ["3", "4"]);
    assert_eq!(
        cmd,
        vec!["uv", "run", "-q", "main.py", "add", "add_numbers", "3", "4"]
    );
}

#[test]
fn python_command_with_dependency() {
    let n = node(CodeLanguage::Python);
    let deps = vec!["numpy".to_string()];
    let cmd = n.get_command(&vec![], Some(&deps)).unwrap();
    assert_eq!(
        cmd,
        vec!["uv", "run", "-q", "--with", "numpy", "main.py", "add", "add_numbers"]
    );
    let at = cmd.iter().position(|w| w == "--with").unwrap();
    assert_eq!(cmd[at + 1], "numpy");
    assert_eq!(cmd[at + 2], "main.py");
}

#[test]
fn python_command_dependency_order_kept() {
    let n = node(CodeLanguage::Python);
    let deps = vec![
        "numpy".to_string(),
        "pandas".to_string(),
        "numpy".to_string(),
    ];
    let cmd = n.get_command(&vec!["x".to_string()], Some(&deps)).unwrap();
    assert_eq!(
        cmd,
        vec![
            "uv", "run", "-q", "--with", "numpy", "--with", "pandas", "--with", "numpy",
            "main.py", "add", "add_numbers", "x"
        ]
    );
}

#[test]
fn python_command_empty_dependency_list_same_as_none() {
    let n = node(CodeLanguage::Python);
    let none = n.get_command(&vec![], None).unwrap();
    let empty = n.get_command(&vec![], Some(&vec![])).unwrap();
    assert_eq!(none, empty);
}

#[test]
fn javascript_command_unsupported() {
    let n = node(CodeLanguage::JavaScript);
    let r = n.get_command(&vec![], None);
    assert_eq!(r, Err(ExecError::UnsupportedLanguage));
}

#[test]
fn javascript_command_unsupported_with_args_too() {
    let n = node(CodeLanguage::JavaScript);
    let deps = vec!["left-pad".to_string()];
    let r = n.get_command(&vec!["1".to_string()], Some(&deps));
    assert_eq!(r, Err(ExecError::UnsupportedLanguage));
}

#[test]
fn command_builder_collects_words() {
    let mut c = seraph_core::code_nodes::Command::new();
    c.add("uv");
    c.add("run");
    assert_eq!(c.to_vec(), vec!["uv".to_string(), "run".to_string()]);
    // to_vec is a copy: adding afterwards does not change what was taken.
    let before = c.to_vec();
    c.add("-q");
    assert_eq!(before, vec!["uv".to_string(), "run".to_string()]);
    assert_eq!(c.to_vec(), vec!["uv", "run", "-q"]);
}
