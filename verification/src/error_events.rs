//! The categories under which failed simulations are kept.

use vstd::prelude::*;

verus! {

/// Which simulation has failed.
#[derive(Debug, Clone, Copy, PartialEq, Eq, Structural)]
pub enum ErrorCategory {
    /// The simulation of a submitted block by a relay.
    SubmitBlockSimulation,
    /// The validation of a block before its submission.
    ValidateBlockSimulation,
}

impl ErrorCategory {
    /// The name of the category.
    pub open spec fn spec_name(self) -> Seq<char> {
        match self {
            ErrorCategory::SubmitBlockSimulation => "submit_block_simulation"@,
            ErrorCategory::ValidateBlockSimulation => "validate_block_simulation"@,
        }
    }

    /// The name of the category.
    pub fn name(self) -> (r: &'static str)
        ensures
            r@ == self.spec_name(),
            self is SubmitBlockSimulation ==> r@ == "submit_block_simulation"@,
            self is ValidateBlockSimulation ==> r@ == "validate_block_simulation"@,
    {
        match self {
            ErrorCategory::SubmitBlockSimulation => "submit_block_simulation",
            ErrorCategory::ValidateBlockSimulation => "validate_block_simulation",
        }
    }
}

/// The two categories are kept apart by their names.
pub proof fn categories_have_their_own_names()
    ensures
        ErrorCategory::SubmitBlockSimulation.spec_name() == "submit_block_simulation"@,
        ErrorCategory::ValidateBlockSimulation.spec_name() == "validate_block_simulation"@,
        ErrorCategory::SubmitBlockSimulation.spec_name()
            != ErrorCategory::ValidateBlockSimulation.spec_name(),
{
    reveal_strlit("submit_block_simulation");
    reveal_strlit("validate_block_simulation");
    assert("submit_block_simulation"@[0] != "validate_block_simulation"@[0]);
}

} // verus!
