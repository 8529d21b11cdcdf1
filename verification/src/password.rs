//! What stored password hashes say of their costs.

use vstd::prelude::*;
use crate::number::bounded_value;
use crate::number::parse_bounded;
use crate::text::behind_prefix;
use crate::text::pieces;
use crate::text::split;
use crate::text::strip_prefix;

verus! {

/// The first number of lanes whose eightfold does not fit in 32 bits.
pub const LANES_LIMIT: u64 = 536_870_912;

/// Whether a parameter is no number of lanes, or one below the limit.
pub open spec fn parameter_fits(parameter: Seq<char>) -> bool {
    match behind_prefix(parameter, "p="@) {
        Some(value) => match bounded_value(value, u32::MAX as nat) {
            Some(lanes) => lanes < LANES_LIMIT,
            None => true,
        },
        None => true,
    }
}

/// Whether all parameters of a field fit.
pub open spec fn field_fits(field: Seq<char>) -> bool {
    forall|i: int|
        0 <= i < pieces(field, ',').len() ==> parameter_fits(#[trigger] pieces(field, ',')[i])
}

/// Whether a stored hash names no number of lanes whose eightfold does not fit in 32 bits.
pub open spec fn lanes_fit(stored: Seq<char>) -> bool {
    forall|i: int|
        0 <= i < pieces(stored, '$').len() ==> field_fits(#[trigger] pieces(stored, '$')[i])
}

fn check_parameter(parameter: &str) -> (r: bool)
    ensures
        r == parameter_fits(parameter@),
{
    match strip_prefix(parameter, "p=") {
        Some(value) => match parse_bounded(value.as_str(), u32::MAX as u64) {
            Some(lanes) => lanes < LANES_LIMIT,
            None => true,
        },
        None => true,
    }
}

fn check_field(field: &str) -> (r: bool)
    ensures
        r == field_fits(field@),
{
    let parts = split(field, ',');
    let mut i: usize = 0;
    while i < parts.len()
        invariant
            i <= parts@.len(),
            parts.deep_view() == pieces(field@, ','),
            forall|j: int| 0 <= j < i ==> parameter_fits(#[trigger] pieces(field@, ',')[j]),
        decreases parts@.len() - i,
    {
        assert(parts.deep_view()[i as int] == parts@[i as int]@);
        if !check_parameter(parts[i].as_str()) {
            return false;
        }
        i += 1;
    }
    true
}

/// Whether a stored hash names no number of lanes whose eightfold does not fit in 32 bits.
pub fn check_lanes(stored: &str) -> (r: bool)
    ensures
        r == lanes_fit(stored@),
{
    let fields = split(stored, '$');
    let mut i: usize = 0;
    while i < fields.len()
        invariant
            i <= fields@.len(),
            fields.deep_view() == pieces(stored@, '$'),
            forall|j: int| 0 <= j < i ==> field_fits(#[trigger] pieces(stored@, '$')[j]),
        decreases fields@.len() - i,
    {
        assert(fields.deep_view()[i as int] == fields@[i as int]@);
        if !check_field(fields[i].as_str()) {
            return false;
        }
        i += 1;
    }
    true
}

} // verus!
