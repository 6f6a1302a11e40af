//! Typed admin resources erased into a uniform JSON interface.
//!
//! - `json`: the flat JSON values and objects that erased resources exchange.
//! - `form`: decoding of form bodies, where a repeated name keeps its last value.
//! - `field`: field configs, how a field reads its form value and renders.
//! - `resource`: the erased resource and the decisions of `list`, `get` and
//!   `create`, which take what the typed operations answered.
//! - `views`: the pages of a resource built from its configs and objects.
//! - `markup`: escaping and the page layouts.
//! - `admin`: the registry, which keeps resource paths unique.
//! - `codegen`: the configs generated for a struct's fields.
//! - `laws`: properties that relate the operations above.

use vstd::prelude::*;

pub mod admin;
pub mod codegen;
pub mod error;
pub mod field;
pub mod form;
pub mod json;
pub mod laws;
pub mod markup;
pub mod resource;
pub mod views;

verus! {

/// Adds two counters; the sum must fit in a `u64`.
pub fn add(left: u64, right: u64) -> (r: u64)
    requires
        left + right <= u64::MAX,
    ensures
        r == left + right,
{
    left + right
}

} // verus!
