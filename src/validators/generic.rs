//! The validator for content without a specialised one.

use vstd::prelude::*;
use crate::policy::ResolvedPolicy;
use crate::validators::{Details, ValidatorOutcome, ValidatorStatus};

verus! {

/// Always passes, reporting the size.
pub open spec fn generic_verdict(data: Seq<u8>) -> ValidatorOutcome {
    ValidatorOutcome {
        name: "generic",
        status: ValidatorStatus::Pass,
        details: Details::Generic { size_bytes: data.len() as u64 },
    }
}

/// Passes any content, reporting its size.
pub fn validate_generic(_mime: &str, data: &[u8], _policy: Option<&ResolvedPolicy>) -> (r: ValidatorOutcome)
    ensures
        r == generic_verdict(data@),
{
    ValidatorOutcome::new(
        "generic",
        ValidatorStatus::Pass,
        Details::Generic { size_bytes: data.len() as u64 },
    )
}

} // verus!
