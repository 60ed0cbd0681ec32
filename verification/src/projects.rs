use vstd::prelude::*;
use vstd::string::StringExecFns;

use crate::errors::CliConfigError;
use crate::errors::CliErrorView;

verus! {

/// The closed set of projects whose configuration this tool manages.
#[derive(Debug, Clone, Copy, PartialEq, Eq, Structural)]
pub enum Project {
    Registration,
    Authentication,
    Authorization,
    Api,
}

impl DeepView for Project {
    type V = Project;

    open spec fn deep_view(&self) -> Project {
        *self
    }
}

/// What resolving a raw project argument must produce: the matching variant
/// for exactly the four lowercase labels, `Missing project` for an absent
/// argument, and `Invalid project` for everything else.
pub open spec fn spec_resolve_project(raw: Option<Seq<char>>) -> Result<Project, CliErrorView> {
    match raw {
        None => Err(CliErrorView::CliArgError("Missing project"@)),
        Some(s) => if s == "registration"@ {
            Ok(Project::Registration)
        } else if s == "authentication"@ {
            Ok(Project::Authentication)
        } else if s == "authorization"@ {
            Ok(Project::Authorization)
        } else if s == "api"@ {
            Ok(Project::Api)
        } else {
            Err(CliErrorView::CliArgError("Invalid project"@))
        },
    }
}

impl Project {
    /// The lowercase label of this project, as it appears both on the
    /// command line and in derived paths.
    pub open spec fn label(&self) -> Seq<char> {
        match self {
            Project::Registration => "registration"@,
            Project::Authentication => "authentication"@,
            Project::Authorization => "authorization"@,
            Project::Api => "api"@,
        }
    }

    pub fn lower_name(&self) -> (r: String)
        ensures
            r@ == self.label(),
    {
        match self {
            Project::Registration => String::from_str("registration"),
            Project::Authentication => String::from_str("authentication"),
            Project::Authorization => String::from_str("authorization"),
            Project::Api => String::from_str("api"),
        }
    }

    pub fn from_cli(project: Option<&String>) -> (r: Result<Project, CliConfigError>)
        ensures
            crate::errors::result_deep_view(r) == spec_resolve_project(project.deep_view()),
    {
        let cli_project = match project {
            Some(v) => v,
            None => {
                return Err(CliConfigError::CliArgError(String::from_str("Missing project")));
            },
        };
        if *cli_project == String::from_str("registration") {
            Ok(Project::Registration)
        } else if *cli_project == String::from_str("authentication") {
            Ok(Project::Authentication)
        } else if *cli_project == String::from_str("authorization") {
            Ok(Project::Authorization)
        } else if *cli_project == String::from_str("api") {
            Ok(Project::Api)
        } else {
            Err(CliConfigError::CliArgError(String::from_str("Invalid project")))
        }
    }
}

} // verus!
