//! What the user asks for on the command line.
use vstd::prelude::*;

verus! {

/// One run of the program.
#[derive(Debug, Clone, PartialEq, Eq)]
pub struct Cli {
    pub command: Command,
}

/// What the run is to do.
#[derive(Debug, Clone, PartialEq, Eq)]
pub enum Command {
    /// Installs a bundle.
    Install(InstallArgs),
    /// Removes an installed bundle.
    Remove(RemoveArgs),
    /// Fetches the bundle of an installed record again.
    Update(UpdateArgs),
    /// Lists the installed bundles.
    List,
}

/// What `install` is given.
#[derive(Debug, Clone, PartialEq, Eq)]
pub struct InstallArgs {
    /// The application's name; it names the executable too where no other
    /// name is given for that.
    pub appname: String,
    /// A repository's `owner/repo`, or the bundle's URL.
    pub from: String,
    /// The name of the executable, which the record is kept under, where it
    /// is not `appname`.
    pub executable: Option<String>,
    /// Whether `from` names a repository on GitHub.
    pub github: bool,
}

/// What `remove` is given.
#[derive(Debug, Clone, PartialEq, Eq)]
pub struct RemoveArgs {
    pub appname: String,
}

/// What `update` is given.
#[derive(Debug, Clone, PartialEq, Eq)]
pub struct UpdateArgs {
    pub appname: String,
}

pub struct InstallArgsView {
    pub appname: Seq<char>,
    pub from: Seq<char>,
    pub executable: Option<Seq<char>>,
    pub github: bool,
}

impl DeepView for InstallArgs {
    type V = InstallArgsView;

    open spec fn deep_view(&self) -> InstallArgsView {
        InstallArgsView {
            appname: self.appname@,
            from: self.from@,
            executable: match self.executable {
                Some(name) => Some(name@),
                None => None,
            },
            github: self.github,
        }
    }
}

} // verus!
