//! The enumerated attributes of code nodes and result records.

use vstd::prelude::*;

verus! {

/// The language a code node is written in.  Only Python execution is
/// implemented; command construction for JavaScript fails fast with an
/// unsupported-language error instead of producing a partial command.
#[derive(Clone, Copy, Debug, PartialEq, Eq, Structural)]
pub enum CodeLanguage {
    Python,
    JavaScript,
}

/// The declared shape of a code node's output.  Documentation of intent,
/// not enforced at run time.
#[derive(Clone, Copy, Debug, PartialEq, Eq, Structural)]
pub enum OutputType {
    String,
    Number,
    Boolean,
    Array,
    Object,
    NoOutput,
}

/// The lifecycle status of a result record.  For one task the status only
/// ever moves forward through Pending, then Running, then exactly one of
/// Success or Error; it never regresses.
#[derive(Clone, Copy, Debug, PartialEq, Eq, Structural)]
pub enum ResultStatus {
    Pending,
    Running,
    Success,
    Error,
}

impl CodeLanguage {
    /// The file extension of a source file in this language.
    pub open spec fn spec_extension(self) -> Seq<char> {
        match self {
            CodeLanguage::Python => "py"@,
            CodeLanguage::JavaScript => "js"@,
        }
    }

    pub fn get_extension(&self) -> (r: &'static str)
        ensures
            r@ == self.spec_extension(),
    {
        match self {
            CodeLanguage::Python => "py",
            CodeLanguage::JavaScript => "js",
        }
    }

    /// The container image a node in this language runs in.
    pub open spec fn spec_image_name(self) -> Seq<char> {
        match self {
            CodeLanguage::Python => "python:3.12"@,
            CodeLanguage::JavaScript => "node:latest"@,
        }
    }

    pub fn get_image_name(&self) -> (r: &'static str)
        ensures
            r@ == self.spec_image_name(),
    {
        match self {
            CodeLanguage::Python => "python:3.12",
            CodeLanguage::JavaScript => "node:latest",
        }
    }

    /// The lower-case name of the language, as stored and transported.
    pub open spec fn spec_name(self) -> Seq<char> {
        match self {
            CodeLanguage::Python => "python"@,
            CodeLanguage::JavaScript => "javascript"@,
        }
    }

    pub fn as_str(&self) -> (r: &'static str)
        ensures
            r@ == self.spec_name(),
    {
        match self {
            CodeLanguage::Python => "python",
            CodeLanguage::JavaScript => "javascript",
        }
    }
}

impl OutputType {
    /// The lower-case name of the output shape, as stored and transported.
    pub open spec fn spec_name(self) -> Seq<char> {
        match self {
            OutputType::String => "string"@,
            OutputType::Number => "number"@,
            OutputType::Boolean => "boolean"@,
            OutputType::Array => "array"@,
            OutputType::Object => "object"@,
            OutputType::NoOutput => "not_output"@,
        }
    }

    pub fn as_str(&self) -> (r: &'static str)
        ensures
            r@ == self.spec_name(),
    {
        match self {
            OutputType::String => "string",
            OutputType::Number => "number",
            OutputType::Boolean => "boolean",
            OutputType::Array => "array",
            OutputType::Object => "object",
            OutputType::NoOutput => "not_output",
        }
    }
}

impl ResultStatus {
    /// Position of a status in the forward-only lifecycle order.  The two
    /// terminal statuses share a rank: neither follows the other.
    pub open spec fn rank(self) -> nat {
        match self {
            ResultStatus::Pending => 0,
            ResultStatus::Running => 1,
            ResultStatus::Success => 2,
            ResultStatus::Error => 2,
        }
    }

    /// A terminal status is one the lifecycle never leaves.
    pub open spec fn spec_is_terminal(self) -> bool {
        self is Success || self is Error
    }

    pub fn is_terminal(&self) -> (r: bool)
        ensures
            r == self.spec_is_terminal(),
    {
        match self {
            ResultStatus::Success => true,
            ResultStatus::Error => true,
            _ => false,
        }
    }

    /// The lower-case name of the status, as stored.
    pub open spec fn spec_name(self) -> Seq<char> {
        match self {
            ResultStatus::Pending => "pending"@,
            ResultStatus::Running => "running"@,
            ResultStatus::Success => "success"@,
            ResultStatus::Error => "error"@,
        }
    }

    pub fn as_str(&self) -> (r: &'static str)
        ensures
            r@ == self.spec_name(),
    {
        match self {
            ResultStatus::Pending => "pending",
            ResultStatus::Running => "running",
            ResultStatus::Success => "success",
            ResultStatus::Error => "error",
        }
    }
}

/// Why an execution could not proceed, by the step at which it stopped.
#[derive(Clone, Copy, Debug, PartialEq, Eq, Structural)]
pub enum ExecError {
    /// The referenced code node does not exist; the task is dropped.
    NotFound,
    /// Command construction refuses the node's language.
    UnsupportedLanguage,
    /// The stored source text could not be de-escaped.
    DecodeFailure,
    /// The container engine could not be reached.
    RuntimeUnavailable,
    /// The container could not be created.
    CreateFailure,
    /// The bundle could not be streamed into the container.
    UploadFailure,
}

} // verus!
