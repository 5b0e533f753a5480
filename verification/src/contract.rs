use crate::error::{ContractError, StdErr};
use crate::msg::{ExecuteMsg, InstantiateMsg, QueryMsg};
use crate::response::{response_add_attribute, response_attrs, response_new};
use crate::state::{load_claim, save_claim, Addr, Claim, ClaimStore};
use cosmwasm_std::Response;
use vstd::prelude::*;

verus! {

/// The authenticated transaction context: the sender identity the host has
/// already verified.
pub struct MessageInfo {
    pub sender: Addr,
}

/// The attribute list of an acknowledgment: a single method-name tag.
pub open spec fn method_attr(method: Seq<char>) -> Seq<(Seq<char>, Seq<char>)> {
    seq![("method"@, method)]
}

/// An acknowledgment tagged with the handled method's name.
fn ack(method: &str) -> (r: Response)
    ensures
        response_attrs(r) == method_attr(method@),
{
    proof {
        reveal_strlit("method");
        assert("method"@[0] != '_');
    }
    let r = response_add_attribute(response_new(), "method", method);
    proof {
        assert(response_attrs(r) =~= method_attr(method@));
    }
    r
}

/// A submission is accepted exactly when the identity service accepted the
/// patient reference and no claim is stored yet.
pub open spec fn submit_accepts(state: Option<Claim>, patient: Result<Addr, StdErr>) -> bool {
    patient is Ok && state is None
}

/// The claim a submission creates: unapproved, under the validated patient.
pub open spec fn submitted_claim(patient: Result<Addr, StdErr>, medical_record: String) -> Claim
    recommends
        patient is Ok,
{
    Claim { patient: patient->Ok_0, medical_record, is_approved: false }
}

/// The store's contents after a submission.
pub open spec fn submit_next(
    state: Option<Claim>,
    patient: Result<Addr, StdErr>,
    medical_record: String,
) -> Option<Claim> {
    if submit_accepts(state, patient) {
        Some(submitted_claim(patient, medical_record))
    } else {
        state
    }
}

/// The failure a rejected submission reports: the identity service's verdict
/// is propagated first; otherwise the create-once guard fired.
pub open spec fn submit_error(state: Option<Claim>, patient: Result<Addr, StdErr>) -> ContractError
    recommends
        !submit_accepts(state, patient),
{
    if patient is Err {
        ContractError::Std(patient->Err_0)
    } else {
        ContractError::ClaimAlreadyExists {}
    }
}

/// An approval is accepted exactly when the identity service accepted the
/// admin reference, the sender is that admin, and an unapproved claim is
/// stored.
pub open spec fn approve_accepts(
    state: Option<Claim>,
    sender: Addr,
    admin: Result<Addr, StdErr>,
) -> bool {
    &&& admin is Ok
    &&& sender@ == admin->Ok_0@
    &&& state is Some
    &&& !state->Some_0.is_approved
}

/// The stored claim with its approval flag raised; nothing else changes.
pub open spec fn approved_claim(c: Claim) -> Claim {
    Claim { patient: c.patient, medical_record: c.medical_record, is_approved: true }
}

/// The store's contents after an approval.
pub open spec fn approve_next(
    state: Option<Claim>,
    sender: Addr,
    admin: Result<Addr, StdErr>,
) -> Option<Claim> {
    if approve_accepts(state, sender, admin) {
        Some(approved_claim(state->Some_0))
    } else {
        state
    }
}

/// The failure a rejected approval reports, in the order the guards run:
/// identity verdict, authorization, existence, idempotence.
pub open spec fn approve_error(
    state: Option<Claim>,
    sender: Addr,
    admin: Result<Addr, StdErr>,
) -> ContractError
    recommends
        !approve_accepts(state, sender, admin),
{
    if admin is Err {
        ContractError::Std(admin->Err_0)
    } else if sender@ != admin->Ok_0@ {
        ContractError::Unauthorized {}
    } else if state is None {
        ContractError::Std(StdErr::NotFound {})
    } else {
        ContractError::ClaimAlreadyApproved {}
    }
}

/// Initial setup: no state is read or written; the response only acknowledges
/// the method.
pub fn instantiate(_msg: InstantiateMsg) -> (r: Result<Response, ContractError>)
    ensures
        r matches Ok(resp) && response_attrs(resp) == method_attr("instantiate"@),
{
    Ok(ack("instantiate"))
}

/// Creates the single claim. `patient` is the identity-validation service's
/// verdict on the submitted patient reference; a rejection is propagated, and
/// an existing claim is never overwritten.
pub fn execute_submit_claim(
    store: &mut ClaimStore,
    info: MessageInfo,
    patient: Result<Addr, StdErr>,
    medical_record: String,
) -> (r: Result<Response, ContractError>)
    ensures
        final(store)@ == submit_next(old(store)@, patient, medical_record),
        r is Ok <==> submit_accepts(old(store)@, patient),
        (r matches Ok(resp) ==> response_attrs(resp) == method_attr("submit_claim"@)),
        (r matches Err(e) ==> e == submit_error(old(store)@, patient) && final(store)@ == old(
            store,
        )@),
{
    let patient_addr = match patient {
        Ok(a) => a,
        Err(e) => {
            return Err(ContractError::Std(e));
        },
    };

    // Create-once guard: never overwrite an existing claim.
    if load_claim(store).is_ok() {
        return Err(ContractError::ClaimAlreadyExists {});
    }

    let claim = Claim { patient: patient_addr, medical_record, is_approved: false };

    if let Err(e) = save_claim(store, &claim) {
        return Err(ContractError::Std(e));
    }

    Ok(ack("submit_claim"))
}

/// Approves the single claim. `admin` is the identity-validation service's
/// verdict on the supplied admin reference; only the sender matching that
/// admin may approve, only an existing claim can be approved, and only once.
///
/// Note: the admin identity is supplied with the call rather than registered
/// at setup, so any sender who names themselves as the admin passes the
/// authorization check. That is deliberate here — it mirrors the workflow's
/// stated behaviour — but it is a known weakness of that design.
pub fn execute_approve_claim(
    store: &mut ClaimStore,
    info: MessageInfo,
    admin: Result<Addr, StdErr>,
) -> (r: Result<Response, ContractError>)
    ensures
        final(store)@ == approve_next(old(store)@, info.sender, admin),
        r is Ok <==> approve_accepts(old(store)@, info.sender, admin),
        (r matches Ok(resp) ==> response_attrs(resp) == method_attr("approve_claim"@)),
        (r matches Err(e) ==> e == approve_error(old(store)@, info.sender, admin) && final(store)@
            == old(store)@),
{
    let admin_addr = match admin {
        Ok(a) => a,
        Err(e) => {
            return Err(ContractError::Std(e));
        },
    };
    let sender = info.sender;

    if sender != admin_addr {
        return Err(ContractError::Unauthorized {});
    }

    let mut claim = match load_claim(store) {
        Ok(c) => c,
        Err(e) => {
            return Err(ContractError::Std(e));
        },
    };

    if claim.is_approved {
        return Err(ContractError::ClaimAlreadyApproved {});
    }

    claim.is_approved = true;
    if let Err(e) = save_claim(store, &claim) {
        return Err(ContractError::Std(e));
    }

    Ok(ack("approve_claim"))
}

/// Whether a command is accepted, given the stored state, the sender and the
/// identity service's verdict on the reference the command carries.
pub open spec fn execute_accepts(
    state: Option<Claim>,
    info: MessageInfo,
    identity: Result<Addr, StdErr>,
    msg: ExecuteMsg,
) -> bool {
    match msg {
        ExecuteMsg::SubmitClaim { .. } => submit_accepts(state, identity),
        ExecuteMsg::ApproveClaim { .. } => approve_accepts(state, info.sender, identity),
    }
}

/// The store's contents after a command.
pub open spec fn execute_next(
    state: Option<Claim>,
    info: MessageInfo,
    identity: Result<Addr, StdErr>,
    msg: ExecuteMsg,
) -> Option<Claim> {
    match msg {
        ExecuteMsg::SubmitClaim { medical_record, .. } => submit_next(
            state,
            identity,
            medical_record,
        ),
        ExecuteMsg::ApproveClaim { .. } => approve_next(state, info.sender, identity),
    }
}

/// The failure a rejected command reports.
pub open spec fn execute_error(
    state: Option<Claim>,
    info: MessageInfo,
    identity: Result<Addr, StdErr>,
    msg: ExecuteMsg,
) -> ContractError
    recommends
        !execute_accepts(state, info, identity, msg),
{
    match msg {
        ExecuteMsg::SubmitClaim { .. } => submit_error(state, identity),
        ExecuteMsg::ApproveClaim { .. } => approve_error(state, info.sender, identity),
    }
}

/// The method tag a command acknowledges with.
pub open spec fn execute_method(msg: ExecuteMsg) -> Seq<char> {
    match msg {
        ExecuteMsg::SubmitClaim { .. } => "submit_claim"@,
        ExecuteMsg::ApproveClaim { .. } => "approve_claim"@,
    }
}

/// Dispatches a command. `identity` is the identity-validation service's
/// verdict on the reference the command carries (`msg_identity`); the host
/// obtains it before calling here.
pub fn execute(
    store: &mut ClaimStore,
    info: MessageInfo,
    identity: Result<Addr, StdErr>,
    msg: ExecuteMsg,
) -> (r: Result<Response, ContractError>)
    ensures
        final(store)@ == execute_next(old(store)@, info, identity, msg),
        r is Ok <==> execute_accepts(old(store)@, info, identity, msg),
        (r matches Ok(resp) ==> response_attrs(resp) == method_attr(execute_method(msg))),
        (r matches Err(e) ==> e == execute_error(old(store)@, info, identity, msg) && final(store)@
            == old(store)@),
{
    match msg {
        ExecuteMsg::SubmitClaim { patient: _, medical_record } => execute_submit_claim(
            store,
            info,
            identity,
            medical_record,
        ),
        ExecuteMsg::ApproveClaim { admin: _ } => execute_approve_claim(store, info, identity),
    }
}

/// Create-once: from an empty store, a submission with an accepted patient
/// reference is accepted and the claim it stores starts unapproved; while any
/// claim `c` is stored, every further submission with an accepted reference
/// is rejected with `ClaimAlreadyExists` and leaves the store unchanged,
/// whatever its payload.
pub proof fn lemma_create_once(c: Claim, patient: Result<Addr, StdErr>, medical_record: String)
    requires
        patient is Ok,
    ensures
        submit_accepts(None::<Claim>, patient),
        submit_next(None::<Claim>, patient, medical_record) == Some(
            submitted_claim(patient, medical_record),
        ),
        !submitted_claim(patient, medical_record).is_approved,
        !submit_accepts(Some(c), patient),
        submit_error(Some(c), patient) == (ContractError::ClaimAlreadyExists {}),
        submit_next(Some(c), patient, medical_record) == Some(c),
{
}

/// Approval monotonicity: an accepted approval leaves an approved claim
/// stored, and from then on every further approval is rejected and changes
/// nothing; when the later caller is again the accepted admin, the rejection
/// is `ClaimAlreadyApproved`.
pub proof fn lemma_approval_monotonic(
    state: Option<Claim>,
    sender: Addr,
    admin: Result<Addr, StdErr>,
    sender2: Addr,
    admin2: Result<Addr, StdErr>,
)
    requires
        approve_accepts(state, sender, admin),
    ensures
        ({
            let next = approve_next(state, sender, admin);
            &&& next matches Some(c) && c.is_approved
            &&& !approve_accepts(next, sender2, admin2)
            &&& approve_next(next, sender2, admin2) == next
            &&& (admin2 is Ok && sender2@ == admin2->Ok_0@ ==> approve_error(next, sender2, admin2)
                == (ContractError::ClaimAlreadyApproved {}))
        }),
{
}

/// Authorization: an approval is accepted only when the authenticated sender
/// equals the validated admin identity; any mismatch is rejected with
/// `Unauthorized` and leaves the stored claim unchanged.
pub proof fn lemma_authorization(state: Option<Claim>, sender: Addr, admin: Result<Addr, StdErr>)
    ensures
        approve_accepts(state, sender, admin) ==> admin is Ok && sender@ == admin->Ok_0@,
        (admin is Ok && sender@ != admin->Ok_0@) ==> !approve_accepts(state, sender, admin),
        (admin is Ok && sender@ != admin->Ok_0@) ==> approve_error(state, sender, admin) == (
        ContractError::Unauthorized {}),
        (admin is Ok && sender@ != admin->Ok_0@) ==> approve_next(state, sender, admin) == state,
{
}

/// No-claim approval: while no claim is stored, every approval is rejected
/// and the store stays empty; for the accepted admin the rejection is the
/// storage-read failure `NotFound`.
pub proof fn lemma_no_claim_approval(sender: Addr, admin: Result<Addr, StdErr>)
    ensures
        !approve_accepts(None::<Claim>, sender, admin),
        approve_next(None::<Claim>, sender, admin) == None::<Claim>,
        (admin is Ok && sender@ == admin->Ok_0@) ==> approve_error(None::<Claim>, sender, admin)
            == ContractError::Std(StdErr::NotFound {}),
{
}

/// No partial writes: a rejected command leaves the store's contents — and
/// with them the result of every later `load_claim` — exactly as they were.
pub proof fn lemma_failed_execute_preserves_state(
    state: Option<Claim>,
    info: MessageInfo,
    identity: Result<Addr, StdErr>,
    msg: ExecuteMsg,
)
    ensures
        !execute_accepts(state, info, identity, msg) ==> execute_next(state, info, identity, msg)
            == state,
{
}

/// No query is implemented: every request fails, deterministically and
/// without touching any state.
pub fn query(_msg: QueryMsg) -> (r: Result<Vec<u8>, ContractError>)
    ensures
        r matches Err(e) && e matches ContractError::InvalidInput(m) && m@
            == "no query is implemented"@,
{
    Err(ContractError::InvalidInput(String::from_str("no query is implemented")))
}

} // verus!

