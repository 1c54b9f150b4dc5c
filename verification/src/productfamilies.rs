//! The product family service: what its calls hand to the repository, and
//! what they say when something fails.
//!
//! The service itself lives with the transport. Here are the parts of it that
//! compute: the parameters of each query, the message of each failure, and
//! the error that wraps an error of the store.

use crate::errors::StoreError;
use crate::ident::{fresh_v7, Uuid};
use vstd::prelude::*;
use vstd::std_specs::convert::FromSpecImpl;

verus! {

/// An error of the product family service.
#[derive(Debug, PartialEq, Eq)]
pub enum ProductFamilyApiError {
    /// The store failed: what the service was doing, and the store's error.
    StoreError(String, Box<StoreError>),
}

/// What the service says it was doing when the store failed.
pub open spec fn service_message() -> Seq<char> {
    "Error in product_family service"@
}

impl ProductFamilyApiError {
    /// The error reports that the store failed with `source`, under the
    /// service's message.
    pub open spec fn reports(&self, source: StoreError) -> bool {
        self matches ProductFamilyApiError::StoreError(message, inner) && message@
            == service_message() && **inner == source
    }
}

impl From<StoreError> for ProductFamilyApiError {
    /// The service's error for an error of the store.
    fn from(value: StoreError) -> (r: Self)
        ensures
            r.reports(value),
    {
        ProductFamilyApiError::StoreError(
            "Error in product_family service".to_owned(),
            Box::new(value),
        )
    }
}

impl FromSpecImpl<StoreError> for ProductFamilyApiError {
    open spec fn obeys_from_spec() -> bool {
        false
    }

    open spec fn from_spec(value: StoreError) -> Self {
        choose|error: ProductFamilyApiError| error.reports(value)
    }
}

/// A call of the service.
#[derive(Debug, Clone, Copy, PartialEq, Eq, Structural)]
pub enum ProductFamilyCall {
    List,
    Create,
    GetByExternalId,
}

impl ProductFamilyCall {
    /// What the call tells its caller when its query fails.
    pub open spec fn failure_text(self) -> Seq<char> {
        match self {
            ProductFamilyCall::List => "Unable to list product families"@,
            ProductFamilyCall::Create => "Unable to create product family"@,
            ProductFamilyCall::GetByExternalId => "Unable to get product family by api name"@,
        }
    }

    /// What the call tells its caller when its query fails.
    pub fn failure_message(&self) -> (r: String)
        ensures
            r@ == self.failure_text(),
    {
        match self {
            ProductFamilyCall::List => "Unable to list product families".to_owned(),
            ProductFamilyCall::Create => "Unable to create product family".to_owned(),
            ProductFamilyCall::GetByExternalId => "Unable to get product family by api name"
                .to_owned(),
        }
    }
}

/// The parameters of the query that creates a product family.
#[derive(Debug, Clone, PartialEq, Eq)]
pub struct CreateProductFamilyParams {
    pub id: Uuid,
    pub name: String,
    pub external_id: String,
    pub tenant_id: Uuid,
}

/// The parameters of the query that finds a product family by its external
/// identifier.
#[derive(Debug, Clone, PartialEq, Eq)]
pub struct GetProductFamilyByExternalIdParams {
    pub external_id: String,
    pub tenant_id: Uuid,
}

impl CreateProductFamilyParams {
    /// The parameters for a family of the given name under the identity `id`.
    pub fn with_id(id: Uuid, name: String, external_id: String, tenant_id: Uuid) -> (r: Self)
        ensures
            r == (CreateProductFamilyParams { id, name, external_id, tenant_id }),
    {
        CreateProductFamilyParams { id, name, external_id, tenant_id }
    }

    /// The parameters for a family of the given name, under a fresh version 7
    /// identity.
    pub fn new(name: String, external_id: String, tenant_id: Uuid) -> (r: Self)
        ensures
            r.id.is_v7(),
            r == (CreateProductFamilyParams { id: r.id, name, external_id, tenant_id }),
    {
        CreateProductFamilyParams::with_id(fresh_v7(), name, external_id, tenant_id)
    }
}

impl GetProductFamilyByExternalIdParams {
    /// The parameters for the family of the given external identifier.
    pub fn new(external_id: String, tenant_id: Uuid) -> (r: Self)
        ensures
            r == (GetProductFamilyByExternalIdParams { external_id, tenant_id }),
    {
        GetProductFamilyByExternalIdParams { external_id, tenant_id }
    }
}

} // verus!
