use vstd::prelude::*;

verus! {

/// A failure surfaced by one of the host's standard services: the storage
/// layer reading an absent record, or the identity-validation service
/// rejecting a malformed identity reference.
#[derive(Clone, Copy, Debug, PartialEq, Eq, Structural)]
pub enum StdErr {
    /// The store holds no claim.
    NotFound {},
    /// The identity-validation service rejected the reference.
    InvalidIdentity {},
}

/// The typed failures a claim operation can return.
#[derive(Debug)]
pub enum ContractError {
    ClaimAlreadyApproved {},
    Unauthorized {},
    ClaimAlreadyExists {},
    InvalidInput(String),
    InsufficientFunds(u128),
    /// A host-service failure, propagated unchanged.
    Std(StdErr),
}

impl PartialEq for ContractError {
    fn eq(&self, other: &Self) -> bool {
        match (self, other) {
            (ContractError::ClaimAlreadyApproved {}, ContractError::ClaimAlreadyApproved {}) => {
                true
            },
            (ContractError::Unauthorized {}, ContractError::Unauthorized {}) => true,
            (ContractError::ClaimAlreadyExists {}, ContractError::ClaimAlreadyExists {}) => true,
            (ContractError::InvalidInput(a), ContractError::InvalidInput(b)) => *a == *b,
            (ContractError::InsufficientFunds(a), ContractError::InsufficientFunds(b)) => *a == *b,
            (ContractError::Std(a), ContractError::Std(b)) => match (a, b) {
                (StdErr::NotFound {}, StdErr::NotFound {}) => true,
                (StdErr::InvalidIdentity {}, StdErr::InvalidIdentity {}) => true,
                _ => false,
            },
            _ => false,
        }
    }
}

impl vstd::std_specs::cmp::PartialEqSpecImpl for ContractError {
    open spec fn obeys_eq_spec() -> bool {
        true
    }

    open spec fn eq_spec(&self, other: &Self) -> bool {
        match (self, other) {
            (ContractError::ClaimAlreadyApproved {}, ContractError::ClaimAlreadyApproved {}) => {
                true
            },
            (ContractError::Unauthorized {}, ContractError::Unauthorized {}) => true,
            (ContractError::ClaimAlreadyExists {}, ContractError::ClaimAlreadyExists {}) => true,
            (ContractError::InvalidInput(a), ContractError::InvalidInput(b)) => a@ == b@,
            (ContractError::InsufficientFunds(a), ContractError::InsufficientFunds(b)) => a == b,
            (ContractError::Std(a), ContractError::Std(b)) => a == b,
            _ => false,
        }
    }
}

} // verus!
