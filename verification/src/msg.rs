use vstd::prelude::*;

verus! {

/// Initialization carries no parameters.
#[derive(Debug)]
pub struct InstantiateMsg {}

/// The two commands the dispatcher can route: submitting the single claim and
/// approving it.
#[derive(Clone, Debug)]
pub enum ExecuteMsg {
    SubmitClaim { patient: String, medical_record: String },
    ApproveClaim { admin: String },
}

/// The identity reference a command carries: the patient for a submission,
/// the admin for an approval.
pub open spec fn msg_identity(msg: ExecuteMsg) -> Seq<char> {
    match msg {
        ExecuteMsg::SubmitClaim { patient, .. } => patient@,
        ExecuteMsg::ApproveClaim { admin } => admin@,
    }
}

impl ExecuteMsg {
    /// The identity reference this command carries, to be handed to the
    /// host's identity-validation service before execution.
    pub fn identity_ref(&self) -> (s: &str)
        ensures
            s@ == msg_identity(*self),
    {
        match self {
            ExecuteMsg::SubmitClaim { patient, .. } => patient.as_str(),
            ExecuteMsg::ApproveClaim { admin } => admin.as_str(),
        }
    }
}

/// Query requests are declared, but no query is implemented: every request
/// fails deterministically.
#[derive(Debug)]
pub struct QueryMsg {}

} // verus!
