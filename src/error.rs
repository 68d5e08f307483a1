use vstd::prelude::*;

verus! {

/// The external-tool action that an error refers to.
#[derive(Debug, Clone, Copy, PartialEq, Eq, Structural)]
pub enum Op {
    Add,
    Remove,
    Update,
    UpdateAll,
    Install,
    Tree,
    Audit,
}

/// The conditions under which a command stops without finishing its work.
#[derive(Debug, Clone, PartialEq, Eq)]
pub enum DepError {
    /// The project directory holds no manifest file.
    NotAProject,
    /// The manifest could not be read from disk.
    ManifestUnreadable,
    /// The manifest text is not a well-formed document.
    ManifestMalformed,
    /// No dependency names were given, neither as arguments nor at the prompt.
    NoDependenciesSpecified,
    /// The manifest declares no dependencies to choose from.
    NoDependenciesFound,
    /// An interactive prompt could not be completed.
    PromptFailed,
    /// The external tool could not be launched for `op` on `name` (empty for
    /// actions on the whole project).
    LaunchFailed { op: Op, name: String },
    /// A mutating invocation exited unsuccessfully; `stderr` is what the tool
    /// wrote to its error stream.
    ToolFailed { op: Op, name: String, stderr: String },
}

/// [`DepError`] with its texts as character sequences.
pub enum DepErrorView {
    NotAProject,
    ManifestUnreadable,
    ManifestMalformed,
    NoDependenciesSpecified,
    NoDependenciesFound,
    PromptFailed,
    LaunchFailed { op: Op, name: Seq<char> },
    ToolFailed { op: Op, name: Seq<char>, stderr: Seq<char> },
}

impl View for DepError {
    type V = DepErrorView;

    open spec fn view(&self) -> DepErrorView {
        match self {
            DepError::NotAProject => DepErrorView::NotAProject,
            DepError::ManifestUnreadable => DepErrorView::ManifestUnreadable,
            DepError::ManifestMalformed => DepErrorView::ManifestMalformed,
            DepError::NoDependenciesSpecified => DepErrorView::NoDependenciesSpecified,
            DepError::NoDependenciesFound => DepErrorView::NoDependenciesFound,
            DepError::PromptFailed => DepErrorView::PromptFailed,
            DepError::LaunchFailed { op, name } => DepErrorView::LaunchFailed { op: *op, name: name@ },
            DepError::ToolFailed { op, name, stderr } => DepErrorView::ToolFailed {
                op: *op,
                name: name@,
                stderr: stderr@,
            },
        }
    }
}

impl DepError {
    /// A copy of this error.
    pub fn duplicate(&self) -> (r: DepError)
        ensures
            r@ == self@,
    {
        match self {
            DepError::NotAProject => DepError::NotAProject,
            DepError::ManifestUnreadable => DepError::ManifestUnreadable,
            DepError::ManifestMalformed => DepError::ManifestMalformed,
            DepError::NoDependenciesSpecified => DepError::NoDependenciesSpecified,
            DepError::NoDependenciesFound => DepError::NoDependenciesFound,
            DepError::PromptFailed => DepError::PromptFailed,
            DepError::LaunchFailed { op, name } => DepError::LaunchFailed { op: *op, name: name.clone() },
            DepError::ToolFailed { op, name, stderr } => DepError::ToolFailed {
                op: *op,
                name: name.clone(),
                stderr: stderr.clone(),
            },
        }
    }
}

} // verus!
