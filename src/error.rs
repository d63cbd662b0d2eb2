//! Errors, each with the text shown to the operator.
use vstd::prelude::*;

verus! {

/// Why a project descriptor could not be used.
#[derive(Clone, Debug, PartialEq, Eq)]
pub enum Malformed {
    /// The document does not parse; the parser's explanation.
    Syntax(String),
    /// The `project` field is empty.
    EmptyProject,
    /// The descriptor names no stage.
    NoStages,
}

/// Why an action failed.
#[derive(Clone, Debug, PartialEq, Eq)]
pub enum HmdError {
    /// No project was given and none could be found.
    MissingProject,
    /// No host address was given and none could be found.
    MissingAddress,
    /// There is no project descriptor; the file system's explanation.
    DescriptorNotFound(String),
    /// The project descriptor cannot be used.
    DescriptorMalformed(Malformed),
    /// A local or remote command ended with a non-zero status, described.
    CommandFailed(String),
    /// Any other failure, described.
    Other(String),
}

pub open spec fn malformed_message(m: Malformed) -> Seq<char> {
    match m {
        Malformed::Syntax(d) => d@,
        Malformed::EmptyProject => "Field `project` in hmd.yml can't be empty"@,
        Malformed::NoStages => "No stages in hmd.yml"@,
    }
}

/// The text shown to the operator for an error.
pub open spec fn error_message(e: HmdError) -> Seq<char> {
    match e {
        HmdError::MissingProject => "Project not provided"@,
        HmdError::MissingAddress => "SSH address not provided"@,
        HmdError::DescriptorNotFound(d) => "No hmd.yml file. Try `hmd init`: "@ + d@,
        HmdError::DescriptorMalformed(m) => "Can't read hmd.yml file. Invalid format. Try `hmd init` to overwrite: "@
            + malformed_message(m),
        HmdError::CommandFailed(d) => "Process terminated with "@ + d@,
        HmdError::Other(d) => d@,
    }
}

impl Malformed {
    pub fn message(&self) -> (r: String)
        ensures
            r@ == malformed_message(*self),
    {
        match self {
            Malformed::Syntax(d) => d.clone(),
            Malformed::EmptyProject => String::from_str("Field `project` in hmd.yml can't be empty"),
            Malformed::NoStages => String::from_str("No stages in hmd.yml"),
        }
    }
}

impl Malformed {
    /// An equal, separately owned error.
    pub fn duplicate(&self) -> (r: Malformed)
        ensures
            r == *self,
    {
        match self {
            Malformed::Syntax(d) => Malformed::Syntax(d.clone()),
            Malformed::EmptyProject => Malformed::EmptyProject,
            Malformed::NoStages => Malformed::NoStages,
        }
    }
}

impl HmdError {
    /// An equal, separately owned error.
    pub fn duplicate(&self) -> (r: HmdError)
        ensures
            r == *self,
    {
        match self {
            HmdError::MissingProject => HmdError::MissingProject,
            HmdError::MissingAddress => HmdError::MissingAddress,
            HmdError::DescriptorNotFound(d) => HmdError::DescriptorNotFound(d.clone()),
            HmdError::DescriptorMalformed(m) => HmdError::DescriptorMalformed(m.duplicate()),
            HmdError::CommandFailed(d) => HmdError::CommandFailed(d.clone()),
            HmdError::Other(d) => HmdError::Other(d.clone()),
        }
    }

    pub fn message(&self) -> (r: String)
        ensures
            r@ == error_message(*self),
    {
        match self {
            HmdError::MissingProject => String::from_str("Project not provided"),
            HmdError::MissingAddress => String::from_str("SSH address not provided"),
            HmdError::DescriptorNotFound(d) => {
                let mut r = String::from_str("No hmd.yml file. Try `hmd init`: ");
                r.append(d.as_str());
                r
            },
            HmdError::DescriptorMalformed(m) => {
                let mut r = String::from_str(
                    "Can't read hmd.yml file. Invalid format. Try `hmd init` to overwrite: ",
                );
                let cause = m.message();
                r.append(cause.as_str());
                r
            },
            HmdError::CommandFailed(d) => {
                let mut r = String::from_str("Process terminated with ");
                r.append(d.as_str());
                r
            },
            HmdError::Other(d) => d.clone(),
        }
    }
}

/// The error for a descriptor that could not be read: a missing file points
/// the operator at `hmd init`; any other failure is passed on as it is.
pub fn not_found_context(not_found: bool, detail: String) -> (r: HmdError)
    ensures
        not_found ==> r == HmdError::DescriptorNotFound(detail),
        !not_found ==> r == HmdError::Other(detail),
{
    if not_found {
        HmdError::DescriptorNotFound(detail)
    } else {
        HmdError::Other(detail)
    }
}

/// The error for a descriptor that was read but cannot be used.
pub fn parse_error_context(cause: Malformed) -> (r: HmdError)
    ensures
        r == HmdError::DescriptorMalformed(cause),
{
    HmdError::DescriptorMalformed(cause)
}

pub fn empty_project_error() -> (r: Malformed)
    ensures
        r == Malformed::EmptyProject,
{
    Malformed::EmptyProject
}

pub fn no_stages_error() -> (r: Malformed)
    ensures
        r == Malformed::NoStages,
{
    Malformed::NoStages
}

/// An error described by `message` alone.
pub fn other_err(message: &str) -> (r: HmdError)
    ensures
        r matches HmdError::Other(d) && d@ == message@,
{
    HmdError::Other(String::from_str(message))
}

} // verus!
