use vstd::prelude::*;

verus! {

/// Options of the `add` command.
#[derive(Debug, Clone)]
pub struct AddArgs {
    /// Dependencies to add; when empty they are asked for.
    pub dependencies: Vec<String>,
    /// Add them as development dependencies.
    pub dev: bool,
    /// Features to enable (comma separated); when absent, suggestions are offered.
    pub features: Option<String>,
    /// Version requirement to add them with.
    pub version: Option<String>,
    /// The project directory; the current directory when absent.
    pub path: Option<String>,
}

/// Options of the `remove` command.
#[derive(Debug, Clone)]
pub struct RemoveArgs {
    /// Dependencies to remove; when empty they are chosen from the manifest.
    pub dependencies: Vec<String>,
    /// The project directory; the current directory when absent.
    pub path: Option<String>,
}

/// Options of the `update` command.
#[derive(Debug, Clone)]
pub struct UpdateArgs {
    /// Dependencies to update; when empty, everything is updated at once.
    pub dependencies: Vec<String>,
    /// The project directory; the current directory when absent.
    pub path: Option<String>,
}

/// Options of the `analyze` command.
#[derive(Debug, Clone)]
pub struct AnalyzeArgs {
    /// The project directory; the current directory when absent.
    pub path: Option<String>,
}

/// The four dependency commands.
#[derive(Debug, Clone)]
pub enum DependencyCommands {
    Add(AddArgs),
    Remove(RemoveArgs),
    Update(UpdateArgs),
    Analyze(AnalyzeArgs),
}

/// A parsed dependency command line.
#[derive(Debug, Clone)]
pub struct DependencyArgs {
    pub command: DependencyCommands,
}

/// The directory a command works in: `path`, or `.` when absent.
pub open spec fn project_dir(path: Option<Seq<char>>) -> Seq<char> {
    match path {
        Some(p) => p,
        None => "."@,
    }
}

/// Resolves the project directory of a command.
pub fn resolve_dir(path: &Option<String>) -> (r: String)
    ensures
        r@ == project_dir(path.deep_view()),
{
    match path {
        Some(p) => p.clone(),
        None => ".".to_owned(),
    }
}

} // verus!
