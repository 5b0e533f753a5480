use vstd::prelude::*;

verus! {

// The host's acknowledgment type. It is carried opaquely: only its attribute
// list is spoken of here, through `response_attrs`.
#[verifier::external_type_specification]
#[verifier::external_body]
#[verifier::reject_recursive_types(T)]
pub struct ExResponse<T>(cosmwasm_std::Response<T>);

#[verifier::external_type_specification]
#[verifier::external_body]
pub struct ExEmpty(cosmwasm_std::Empty);

/// The key-value attributes a response carries, in the order they were added.
pub uninterp spec fn response_attrs(r: cosmwasm_std::Response) -> Seq<(Seq<char>, Seq<char>)>;

/// Relies on cosmwasm_std::Response::new: a fresh response carries no
/// attributes.
#[verifier::external_body]
pub(crate) fn response_new() -> (r: cosmwasm_std::Response)
    ensures
        response_attrs(r) == Seq::<(Seq<char>, Seq<char>)>::empty(),
{
    cosmwasm_std::Response::new()
}

/// Relies on cosmwasm_std::Response::add_attribute: appends exactly one
/// key-value pair to the response's attribute list. Keys starting with an
/// underscore are reserved by the host and rejected with a panic in builds
/// with debug assertions, so they are excluded here.
#[verifier::external_body]
pub(crate) fn response_add_attribute(
    r: cosmwasm_std::Response,
    key: &str,
    value: &str,
) -> (out: cosmwasm_std::Response)
    requires
        key@.len() == 0 || key@[0] != '_',
    ensures
        response_attrs(out) == response_attrs(r).push((key@, value@)),
{
    r.add_attribute(key, value)
}

} // verus!
