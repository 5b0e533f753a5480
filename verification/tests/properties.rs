use medical_claims::contract::{execute, query, MessageInfo};
use medical_claims::error::{ContractError, StdErr};
use medical_claims::msg::{ExecuteMsg, QueryMsg};
use medical_claims::state::{load_claim, save_claim, Addr, Claim, ClaimStore};

fn submit(store: &mut ClaimStore, patient: &str, record: &str) -> Result<(), ContractError> {
    let msg = ExecuteMsg::SubmitClaim {
        patient: patient.to_string(),
        medical_record: record.to_string(),
    };
    let info = MessageInfo {
        sender: Addr::unchecked("addr-creator"),
    };
    execute(store, info, Ok(Addr::unchecked(patient)), msg).map(|_| ())
}

fn approve(store: &mut ClaimStore, caller: &str, admin: &str) -> Result<(), ContractError> {
    let msg = ExecuteMsg::ApproveClaim {
        admin: admin.to_string(),
    };
    let info = MessageInfo {
        sender: Addr::unchecked(caller),
    };
    execute(store, info, Ok(Addr::unchecked(admin)), msg).map(|_| ())
}

#[test]
fn example_scenario() {
    let mut store = ClaimStore::new();

    // submit (patient="addr-patient", record="r1") -> success, unapproved
    submit(&mut store, "addr-patient", "r1").unwrap();
    let claim = load_claim(&store).unwrap();
    assert_eq!(claim.patient, Addr::unchecked("addr-patient"));
    assert_eq!(claim.medical_record, "r1".to_string());
    assert_eq!(claim.is_approved, false);

    // submit again with the same arguments -> ClaimAlreadyExists
    let err = submit(&mut store, "addr-patient", "r1").unwrap_err();
    assert_eq!(err, ContractError::ClaimAlreadyExists {});

    // approve with admin="addr-creator" from caller "addr-creator" -> success
    approve(&mut store, "addr-creator", "addr-creator").unwrap();
    assert!(load_claim(&store).unwrap().is_approved);

    // approve again -> ClaimAlreadyApproved
    let err = approve(&mut store, "addr-creator", "addr-creator").unwrap_err();
    assert_eq!(err, ContractError::ClaimAlreadyApproved {});

    // a fresh unapproved claim, approved from caller "addr-other" -> Unauthorized
    let mut store = ClaimStore::new();
    submit(&mut store, "addr-patient", "r1").unwrap();
    let err = approve(&mut store, "addr-other", "addr-creator").unwrap_err();
    assert_eq!(err, ContractError::Unauthorized {});
    assert!(!load_claim(&store).unwrap().is_approved);
}

#[test]
fn invalid_identity_is_propagated() {
    let mut store = ClaimStore::new();
    let msg = ExecuteMsg::SubmitClaim {
        patient: "not an identity".to_string(),
        medical_record: "r1".to_string(),
    };
    let info = MessageInfo {
        sender: Addr::unchecked("addr-creator"),
    };
    let err = execute(&mut store, info, Err(StdErr::InvalidIdentity {}), msg).unwrap_err();
    assert_eq!(err, ContractError::Std(StdErr::InvalidIdentity {}));

    // nothing was stored
    assert_eq!(load_claim(&store).unwrap_err(), StdErr::NotFound {});
}

#[test]
fn approve_without_claim_fails_with_storage_read_error() {
    let mut store = ClaimStore::new();
    let err = approve(&mut store, "addr-creator", "addr-creator").unwrap_err();
    assert_eq!(err, ContractError::Std(StdErr::NotFound {}));
    // the store is still empty
    assert_eq!(load_claim(&store).unwrap_err(), StdErr::NotFound {});
}

#[test]
fn load_after_failed_operation_is_unchanged() {
    let mut store = ClaimStore::new();
    submit(&mut store, "addr-patient", "r1").unwrap();
    let before = load_claim(&store).unwrap();

    // a rejected submission changes nothing
    let err = submit(&mut store, "addr-other", "r2").unwrap_err();
    assert_eq!(err, ContractError::ClaimAlreadyExists {});
    let after = load_claim(&store).unwrap();
    assert_eq!(after.patient, before.patient);
    assert_eq!(after.medical_record, before.medical_record);
    assert_eq!(after.is_approved, before.is_approved);

    // a rejected approval changes nothing either
    let err = approve(&mut store, "addr-other", "addr-creator").unwrap_err();
    assert_eq!(err, ContractError::Unauthorized {});
    let after = load_claim(&store).unwrap();
    assert_eq!(after.patient, before.patient);
    assert_eq!(after.medical_record, before.medical_record);
    assert_eq!(after.is_approved, before.is_approved);
}

#[test]
fn save_overwrites_and_load_returns_it() {
    let mut store = ClaimStore::new();
    let first = Claim {
        patient: Addr::unchecked("addr-patient"),
        medical_record: "r1".to_string(),
        is_approved: false,
    };
    save_claim(&mut store, &first).unwrap();
    let loaded = load_claim(&store).unwrap();
    assert_eq!(loaded.patient, Addr::unchecked("addr-patient"));
    assert_eq!(loaded.medical_record, "r1".to_string());
    assert!(!loaded.is_approved);

    let second = Claim {
        patient: Addr::unchecked("addr-other"),
        medical_record: "r2".to_string(),
        is_approved: true,
    };
    save_claim(&mut store, &second).unwrap();
    let loaded = load_claim(&store).unwrap();
    assert_eq!(loaded.patient, Addr::unchecked("addr-other"));
    assert_eq!(loaded.medical_record, "r2".to_string());
    assert!(loaded.is_approved);
}

#[test]
fn query_is_not_implemented() {
    let err = query(QueryMsg {}).unwrap_err();
    assert_eq!(
        err,
        ContractError::InvalidInput("no query is implemented".to_string())
    );
}

#[test]
fn message_carries_its_identity_reference() {
    let msg = ExecuteMsg::SubmitClaim {
        patient: "addr-patient".to_string(),
        medical_record: "r1".to_string(),
    };
    assert_eq!(msg.identity_ref(), "addr-patient");
    let msg = ExecuteMsg::ApproveClaim {
        admin: "addr-creator".to_string(),
    };
    assert_eq!(msg.identity_ref(), "addr-creator");
}

#[test]
fn error_values_compare_by_contents() {
    assert_eq!(
        ContractError::InvalidInput("a".to_string()),
        ContractError::InvalidInput("a".to_string())
    );
    assert_ne!(
        ContractError::InvalidInput("a".to_string()),
        ContractError::InvalidInput("b".to_string())
    );
    assert_eq!(
        ContractError::InsufficientFunds(7),
        ContractError::InsufficientFunds(7)
    );
    assert_ne!(
        ContractError::InsufficientFunds(7),
        ContractError::InsufficientFunds(8)
    );
    assert_ne!(
        ContractError::Std(StdErr::NotFound {}),
        ContractError::Std(StdErr::InvalidIdentity {})
    );
    assert_ne!(
        ContractError::Unauthorized {},
        ContractError::ClaimAlreadyExists {}
    );
}
