use crate::error::StdErr;
use vstd::prelude::*;

verus! {

/// A validated identity reference. The identity-validation service lives with
/// the host; a value of this type records the textual form it accepted (or,
/// via `unchecked`, a form the caller vouches for).
#[derive(Debug)]
pub struct Addr {
    repr: String,
}

impl View for Addr {
    type V = Seq<char>;

    closed spec fn view(&self) -> Seq<char> {
        self.repr@
    }
}

impl Addr {
    /// Wraps a textual identity reference without consulting the validation
    /// service.
    pub fn unchecked(input: &str) -> (a: Addr)
        ensures
            a@ == input@,
    {
        Addr { repr: String::from_str(input) }
    }

    pub fn as_str(&self) -> (s: &str)
        ensures
            s@ == self@,
    {
        self.repr.as_str()
    }

    pub fn into_string(self) -> (s: String)
        ensures
            s@ == self@,
    {
        self.repr
    }
}

impl Clone for Addr {
    fn clone(&self) -> (a: Self)
        ensures
            a == *self,
    {
        Addr { repr: self.repr.clone() }
    }
}

impl PartialEq for Addr {
    fn eq(&self, other: &Self) -> bool {
        self.repr == other.repr
    }
}

impl vstd::std_specs::cmp::PartialEqSpecImpl for Addr {
    open spec fn obeys_eq_spec() -> bool {
        true
    }

    open spec fn eq_spec(&self, other: &Self) -> bool {
        self@ == other@
    }
}

/// The single persisted record: a patient's claim and its approval status.
#[derive(Debug)]
pub struct Claim {
    pub patient: Addr,
    pub medical_record: String,
    pub is_approved: bool,
}

impl Clone for Claim {
    fn clone(&self) -> (c: Self)
        ensures
            c == *self,
    {
        Claim {
            patient: self.patient.clone(),
            medical_record: self.medical_record.clone(),
            is_approved: self.is_approved,
        }
    }
}

/// The claim store: one slot under a fixed key, holding at most one claim.
/// The host binds it to durable storage; its view is the slot's contents.
pub struct ClaimStore {
    claim: Option<Claim>,
}

impl View for ClaimStore {
    type V = Option<Claim>;

    closed spec fn view(&self) -> Option<Claim> {
        self.claim
    }
}

impl ClaimStore {
    /// An empty store: no claim has been submitted.
    pub fn new() -> (s: ClaimStore)
        ensures
            s@ is None,
    {
        ClaimStore { claim: None }
    }
}

/// Overwrites the single stored claim unconditionally.
pub fn save_claim(store: &mut ClaimStore, claim: &Claim) -> (r: Result<(), StdErr>)
    ensures
        r is Ok,
        final(store)@ == Some(*claim),
{
    store.claim = Some(claim.clone());
    Ok(())
}

/// Retrieves the single stored claim; `NotFound` exactly when no claim has
/// ever been saved.
pub fn load_claim(store: &ClaimStore) -> (r: Result<Claim, StdErr>)
    ensures
        match r {
            Ok(c) => store@ == Some(c),
            Err(e) => store@ is None && e == StdErr::NotFound {},
        },
{
    match &store.claim {
        Some(c) => Ok(c.clone()),
        None => Err(StdErr::NotFound {}),
    }
}

} // verus!
