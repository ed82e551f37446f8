//! The failure signals an operation can abort with.

use vstd::prelude::*;

verus! {

/// Why an operation aborted. Every failure aborts the whole call; the host
/// discards any writes staged during that call.
#[derive(Debug)]
pub enum ContractError {
    /// The signature failed verification, or verification could not be
    /// evaluated.
    Auth,
    /// A required record was absent at read time.
    NotFound,
    /// An address-codec failure, surfaced verbatim from the host library.
    Collaborator(cosmwasm_std::StdError),
}

} // verus!
