use vstd::prelude::*;
use vstd::string::StringExecFns;

use crate::errors::CliConfigError;
use crate::errors::CliErrorView;

verus! {

/// An input that is either present or absent; command resolution checks
/// presence of every required positional argument through this trait.
pub trait ValidateArg {
    /// Whether the value counts as supplied.
    spec fn present(&self) -> bool;

    fn validate(&self) -> (r: bool)
        ensures
            r == self.present(),
    ;
}

impl<'a> ValidateArg for Option<&'a String> {
    open spec fn present(&self) -> bool {
        self is Some
    }

    fn validate(&self) -> (r: bool) {
        self.is_some()
    }
}

/// Checks that every value in `args` is present; absence of any of them is
/// reported as one aggregated `CliArgError`, never per argument.
pub fn validate_args<T: ValidateArg>(args: &Vec<T>) -> (r: Result<(), CliConfigError>)
    ensures
        r is Ok <==> (forall|j: int| 0 <= j < args@.len() ==> args@[j].present()),
        r matches Err(e) ==> e@ == CliErrorView::CliArgError("Missing argument"@),
{
    let mut i: usize = 0;
    let mut all_present = true;
    while i < args.len()
        invariant
            i <= args@.len(),
            all_present == (forall|j: int| 0 <= j < i ==> args@[j].present()),
        decreases args@.len() - i,
    {
        if !args[i].validate() {
            all_present = false;
        }
        i += 1;
    }
    if all_present {
        Ok(())
    } else {
        Err(CliConfigError::CliArgError(String::from_str("Missing argument")))
    }
}

} // verus!
