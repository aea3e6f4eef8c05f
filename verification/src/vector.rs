//! The architectural meaning of each vector number: whether it is
//! reserved, whether the hardware pushes an error code, whether its
//! handler may return, and which handler kind it therefore requires.

use vstd::prelude::*;

verus! {

use crate::intr::HandlerKind;

/// True for the vectors the architecture reserves; kernel code must
/// never mark them present.
pub open spec fn spec_reserved(v: int) -> bool {
    v == 9 || v == 15 || (20 <= v <= 29) || v == 31
}

/// True for the vectors whose transfer pushes an error code, so that the
/// handler must be declared to consume one.
pub open spec fn spec_has_error_code(v: int) -> bool {
    v == 8 || (10 <= v <= 14) || v == 17 || v == 30
}

/// True for the vectors whose handler may return and resume the
/// interrupted context; a double fault or machine check never returns.
pub open spec fn spec_handler_returns(v: int) -> bool {
    v != 8 && v != 18
}

/// True for the vectors of defined exceptions whose handler is plain:
/// no error code, and the handler returns.
pub open spec fn spec_plain_exception(v: int) -> bool {
    (0 <= v <= 7) || v == 16 || v == 19
}

/// The handler kind a vector's entry is created with.
pub open spec fn spec_required_kind(v: int) -> HandlerKind {
    if v == 8 {
        HandlerKind::DivergingWithErrorCode
    } else if spec_has_error_code(v) {
        HandlerKind::WithErrorCode
    } else if v == 18 {
        HandlerKind::Diverging
    } else {
        HandlerKind::Plain
    }
}

/// True for the vectors the architecture reserves.
pub fn is_reserved(vector: u8) -> (r: bool)
    ensures
        r == spec_reserved(vector as int),
{
    vector == 9 || vector == 15 || (20 <= vector && vector <= 29) || vector == 31
}

/// True for the vectors whose transfer pushes an error code.
pub fn has_error_code(vector: u8) -> (r: bool)
    ensures
        r == spec_has_error_code(vector as int),
{
    vector == 8 || (10 <= vector && vector <= 14) || vector == 17 || vector == 30
}

/// True for the vectors whose handler may return.
pub fn handler_returns(vector: u8) -> (r: bool)
    ensures
        r == spec_handler_returns(vector as int),
{
    vector != 8 && vector != 18
}

/// The handler kind the vector's entry is created with.
pub fn required_kind(vector: u8) -> (r: HandlerKind)
    ensures
        r == spec_required_kind(vector as int),
{
    if vector == 8 {
        HandlerKind::DivergingWithErrorCode
    } else if has_error_code(vector) {
        HandlerKind::WithErrorCode
    } else if vector == 18 {
        HandlerKind::Diverging
    } else {
        HandlerKind::Plain
    }
}

} // verus!
