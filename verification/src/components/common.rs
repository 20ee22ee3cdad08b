//! Validation shared by component constructors and methods: identifiers that
//! must not be blank, and numbers that must be exact counts or `f32` values.

use vstd::prelude::*;
use crate::text::{is_blank, str_is_blank};
use crate::number::{exact_u64, f64_exact_u64, f64_in_f32_range, is_f32_range};

verus! {

/// The message a blank id of `component` is refused with.
pub open spec fn nonempty_id_message(component: Seq<char>) -> Seq<char> {
    component + "(id) expects a nonempty string id"@
}

/// The id, unless it is empty or whitespace only.
pub fn nonempty_id(id: &str, component: &str) -> (r: Result<String, String>)
    ensures
        match r {
            Ok(s) => !is_blank(id@) && s@ == id@,
            Err(m) => is_blank(id@) && m@ == nonempty_id_message(component@),
        },
{
    if str_is_blank(id) {
        let m = String::from_str(component).concat("(id) expects a nonempty string id");
        proof {
            assert(m@ =~= nonempty_id_message(component@));
        }
        return Err(m);
    }
    Ok(String::from_str(id))
}

/// The message a number that is not a count is refused with:
/// `label expects a positive integer` (or `a non-negative integer`).
pub open spec fn count_message(positive: bool, label: Seq<char>) -> Seq<char> {
    if positive {
        label + " expects a positive integer"@
    } else {
        label + " expects a non-negative integer"@
    }
}

/// The positive integer that the binary64 value `value` holds exactly, when it
/// is one below `2^64`.
pub open spec fn positive_count(value: u64) -> Option<u64> {
    match exact_u64(value) {
        Some(v) => if v > 0 {
            Some(v)
        } else {
            None
        },
        None => None,
    }
}

/// An exactly representable positive integer: `value` (the bits of a
/// binary64) must be finite, `>= 0`, without fraction, below `2^64` and not
/// zero.
pub fn positive_usize(value: u64, label: &str) -> (r: Result<u64, String>)
    ensures
        match r {
            Ok(n) => positive_count(value) == Some(n),
            Err(m) => positive_count(value) is None && m@ == count_message(true, label@),
        },
{
    if let Some(n) = f64_exact_u64(value) {
        if n > 0 {
            return Ok(n);
        }
    }
    let m = String::from_str(label).concat(" expects a positive integer");
    proof {
        assert(m@ =~= count_message(true, label@));
    }
    Err(m)
}

/// An exactly representable non-negative integer: `value` (the bits of a
/// binary64) must be finite, `>= 0`, without fraction and below `2^64`.
pub fn nonnegative_usize(value: u64, label: &str) -> (r: Result<u64, String>)
    ensures
        match r {
            Ok(n) => exact_u64(value) == Some(n),
            Err(m) => exact_u64(value) is None && m@ == count_message(false, label@),
        },
{
    match f64_exact_u64(value) {
        Some(n) => Ok(n),
        None => {
            let m = String::from_str(label).concat(" expects a non-negative integer");
            proof {
                assert(m@ =~= count_message(false, label@));
            }
            Err(m)
        },
    }
}

/// The message a number outside the `f32` range is refused with.
pub open spec fn finite_f32_message(label: Seq<char>) -> Seq<char> {
    label + " expects a finite number representable as f32"@
}

/// A finite number within `f32::MIN ..= f32::MAX`, still as binary64 bits;
/// narrowing it to `f32` is left to the caller.
pub fn finite_f32(value: u64, label: &str) -> (r: Result<u64, String>)
    ensures
        match r {
            Ok(v) => is_f32_range(value) && v == value,
            Err(m) => !is_f32_range(value) && m@ == finite_f32_message(label@),
        },
{
    if f64_in_f32_range(value) {
        return Ok(value);
    }
    let m = String::from_str(label).concat(" expects a finite number representable as f32");
    proof {
        assert(m@ =~= finite_f32_message(label@));
    }
    Err(m)
}

} // verus!
