//! Checks that a result has the shape of the node's view it stands for.
use vstd::prelude::*;
use crate::json::Json;
use crate::errors::RpcError;
use crate::wire::{document_of, value_of_json, writable, written};

verus! {

/// Whether `d` reads as near_primitives' `StatusResponse`.
pub uninterp spec fn is_status_document(d: Json) -> bool;

/// Whether `d` reads as near_primitives' `FinalExecutionOutcomeView`.
pub uninterp spec fn is_outcome_document(d: Json) -> bool;

/// Whether `d` reads as near_primitives' `ChunkView`.
pub uninterp spec fn is_chunk_document(d: Json) -> bool;

/// Whether `d` reads as near_primitives' `EpochValidatorInfo`.
pub uninterp spec fn is_validators_document(d: Json) -> bool;

/// Whether `d` reads as near_primitives' `GasPriceView`.
pub uninterp spec fn is_gas_price_document(d: Json) -> bool;

/// Whether `d` reads as near_primitives' `StateChangesView`.
pub uninterp spec fn is_state_changes_document(d: Json) -> bool;

/// Whether `d` reads as near_primitives' `StateChangesKindsView`.
pub uninterp spec fn is_state_change_kinds_document(d: Json) -> bool;

/// Relies on serde_json::from_value into near_primitives' `StatusResponse`; whether it
/// succeeds depends on the document alone.
#[verifier::external_body]
fn fits_status(v: &serde_json::Value) -> (r: Result<(), String>)
    ensures
        r is Ok <==> is_status_document(document_of(*v)),
{
    serde_json::from_value::<near_primitives::views::StatusResponse>(v.clone()).map(|_| ()).map_err(|e| e.to_string())
}

/// Relies on serde_json::from_value into near_primitives' `FinalExecutionOutcomeView`.
#[verifier::external_body]
fn fits_outcome(v: &serde_json::Value) -> (r: Result<(), String>)
    ensures
        r is Ok <==> is_outcome_document(document_of(*v)),
{
    serde_json::from_value::<near_primitives::views::FinalExecutionOutcomeView>(v.clone())
        .map(|_| ())
        .map_err(|e| e.to_string())
}

/// Relies on serde_json::from_value into near_primitives' `ChunkView`.
#[verifier::external_body]
fn fits_chunk(v: &serde_json::Value) -> (r: Result<(), String>)
    ensures
        r is Ok <==> is_chunk_document(document_of(*v)),
{
    serde_json::from_value::<near_primitives::views::ChunkView>(v.clone()).map(|_| ()).map_err(|e| e.to_string())
}

/// Relies on serde_json::from_value into near_primitives' `EpochValidatorInfo`.
#[verifier::external_body]
fn fits_validators(v: &serde_json::Value) -> (r: Result<(), String>)
    ensures
        r is Ok <==> is_validators_document(document_of(*v)),
{
    serde_json::from_value::<near_primitives::views::EpochValidatorInfo>(v.clone())
        .map(|_| ())
        .map_err(|e| e.to_string())
}

/// Relies on serde_json::from_value into near_primitives' `GasPriceView`.
#[verifier::external_body]
fn fits_gas_price(v: &serde_json::Value) -> (r: Result<(), String>)
    ensures
        r is Ok <==> is_gas_price_document(document_of(*v)),
{
    serde_json::from_value::<near_primitives::views::GasPriceView>(v.clone()).map(|_| ()).map_err(|e| e.to_string())
}

/// Relies on serde_json::from_value into near_primitives' `StateChangesView`.
#[verifier::external_body]
fn fits_state_changes(v: &serde_json::Value) -> (r: Result<(), String>)
    ensures
        r is Ok <==> is_state_changes_document(document_of(*v)),
{
    serde_json::from_value::<near_primitives::views::StateChangesView>(v.clone())
        .map(|_| ())
        .map_err(|e| e.to_string())
}

/// Relies on serde_json::from_value into near_primitives' `StateChangesKindsView`.
#[verifier::external_body]
fn fits_state_change_kinds(v: &serde_json::Value) -> (r: Result<(), String>)
    ensures
        r is Ok <==> is_state_change_kinds_document(document_of(*v)),
{
    serde_json::from_value::<near_primitives::views::StateChangesKindsView>(v.clone())
        .map(|_| ())
        .map_err(|e| e.to_string())
}

/// The node's view that a result stands for.
pub enum ViewShape {
    Status,
    Outcome,
    Chunk,
    Validators,
    GasPrice,
    StateChanges,
    StateChangeKinds,
}

/// Whether the document `d` reads as the view `s`.
pub open spec fn shape_fits(s: ViewShape, d: Json) -> bool {
    match s {
        ViewShape::Status => is_status_document(d),
        ViewShape::Outcome => is_outcome_document(d),
        ViewShape::Chunk => is_chunk_document(d),
        ViewShape::Validators => is_validators_document(d),
        ViewShape::GasPrice => is_gas_price_document(d),
        ViewShape::StateChanges => is_state_changes_document(d),
        ViewShape::StateChangeKinds => is_state_change_kinds_document(d),
    }
}

/// Every serde_json value that `x` is written as reads as the view `s`.
pub open spec fn shaped(s: ViewShape, x: Json) -> bool {
    forall|v: serde_json::Value| #[trigger] written(document_of(v), x) ==> shape_fits(s, document_of(v))
}

/// Whether the serde_json value `v` reads as the view `s`.
fn fits(s: &ViewShape, v: &serde_json::Value) -> (r: Result<(), String>)
    ensures
        r is Ok <==> shape_fits(*s, document_of(*v)),
{
    match s {
        ViewShape::Status => fits_status(v),
        ViewShape::Outcome => fits_outcome(v),
        ViewShape::Chunk => fits_chunk(v),
        ViewShape::Validators => fits_validators(v),
        ViewShape::GasPrice => fits_gas_price(v),
        ViewShape::StateChanges => fits_state_changes(v),
        ViewShape::StateChangeKinds => fits_state_change_kinds(v),
    }
}

/// Checks that the result `x` has the shape of the view `s`: an internal error where it
/// has not, or where a number of it cannot be handed to serde_json.
pub fn check_shape(s: &ViewShape, x: &Json) -> (r: Result<(), RpcError>)
    ensures
        writable(*x) && shaped(*s, *x) ==> r is Ok,
        r is Ok ==> exists|v: serde_json::Value| written(document_of(v), *x) && shape_fits(*s, document_of(v)),
        r matches Err(e) ==> e.kind is InternalError,
{
    match value_of_json(x) {
        Some(v) => match fits(s, &v) {
            Ok(()) => Ok(()),
            Err(e) => Err(RpcError::new_internal_error(None, e)),
        },
        None => Err(RpcError::new_internal_error(None, "result holds a number out of range".to_owned())),
    }
}

} // verus!
