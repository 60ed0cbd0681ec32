use vstd::prelude::*;
use vstd::string::StringExecFns;

use crate::errors::CliConfigError;
use crate::errors::CliErrorView;

verus! {

/// The closed set of deployment stages that partition the configuration
/// namespace.
#[derive(Debug, Clone, Copy, PartialEq, Eq, Structural)]
pub enum Environment {
    Live,
    Staging,
    Hotfix,
}

impl DeepView for Environment {
    type V = Environment;

    open spec fn deep_view(&self) -> Environment {
        *self
    }
}

/// What resolving a raw environment argument must produce: the matching
/// variant for exactly the three lowercase labels, `Missing environment` for
/// an absent argument, and `Invalid environment` for everything else.
pub open spec fn spec_resolve_environment(raw: Option<Seq<char>>) -> Result<
    Environment,
    CliErrorView,
> {
    match raw {
        None => Err(CliErrorView::CliArgError("Missing environment"@)),
        Some(s) => if s == "live"@ {
            Ok(Environment::Live)
        } else if s == "staging"@ {
            Ok(Environment::Staging)
        } else if s == "hotfix"@ {
            Ok(Environment::Hotfix)
        } else {
            Err(CliErrorView::CliArgError("Invalid environment"@))
        },
    }
}

impl Environment {
    /// The lowercase label of this environment, as it appears both on the
    /// command line and in derived paths.
    pub open spec fn label(&self) -> Seq<char> {
        match self {
            Environment::Live => "live"@,
            Environment::Staging => "staging"@,
            Environment::Hotfix => "hotfix"@,
        }
    }

    pub fn lower_name(&self) -> (r: String)
        ensures
            r@ == self.label(),
    {
        match self {
            Environment::Live => String::from_str("live"),
            Environment::Staging => String::from_str("staging"),
            Environment::Hotfix => String::from_str("hotfix"),
        }
    }

    pub fn from_cli(env: Option<&String>) -> (r: Result<Environment, CliConfigError>)
        ensures
            crate::errors::result_deep_view(r) == spec_resolve_environment(env.deep_view()),
    {
        let cli_env = match env {
            Some(v) => v,
            None => {
                return Err(CliConfigError::CliArgError(String::from_str("Missing environment")));
            },
        };
        if *cli_env == String::from_str("live") {
            Ok(Environment::Live)
        } else if *cli_env == String::from_str("staging") {
            Ok(Environment::Staging)
        } else if *cli_env == String::from_str("hotfix") {
            Ok(Environment::Hotfix)
        } else {
            Err(CliConfigError::CliArgError(String::from_str("Invalid environment")))
        }
    }
}

} // verus!
