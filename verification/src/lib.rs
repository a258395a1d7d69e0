//! Two bounded leaf operations meant to sit behind a host-embedding boundary:
//! integer addition that collapses to `0` on overflow, and a greeting
//! formatter that substitutes a fixed error string for oversized names.
//!
//! Neither operation keeps state; each call is independent. The host shim
//! around this library is responsible for emitting the overflow diagnostic
//! to its logging sink; [`add_overflows`] tells it exactly when one is owed.

use vstd::prelude::*;
use vstd::string::StringExecFns;
use vstd::string::StringSliceAdditionalSpecFns;

verus! {

/// Longest accepted name, measured in UTF-8 bytes.
pub const MAX_NAME_BYTES: usize = 1000;

/// True when the exact sum of `a` and `b` is representable as an `i32`.
pub open spec fn sum_fits_i32(a: int, b: int) -> bool {
    i32::MIN <= a + b <= i32::MAX
}

/// The bounded sum policy: the exact sum when it is representable as an
/// `i32`, and `0` otherwise. Both positive and negative overflow collapse
/// to `0`; that is a deliberate, observable policy, not an error.
pub open spec fn bounded_sum(a: int, b: int) -> int {
    if sum_fits_i32(a, b) {
        a + b
    } else {
        0
    }
}

/// Bounded addition: returns `a + b` whenever that sum fits in an `i32`,
/// and exactly `0` when it does not. Overflow is an expected, handled
/// case, so there is no precondition.
pub fn add(a: i32, b: i32) -> (r: i32)
    ensures
        r == bounded_sum(a as int, b as int),
        sum_fits_i32(a as int, b as int) ==> r == a + b,
        !sum_fits_i32(a as int, b as int) ==> r == 0,
{
    match a.checked_add(b) {
        Some(sum) => sum,
        None => 0,
    }
}

/// True exactly when `a + b` does not fit in an `i32`, i.e. when [`add`]
/// returns the `0` sentinel and the host owes a diagnostic to its
/// logging sink.
pub fn add_overflows(a: i32, b: i32) -> (r: bool)
    ensures
        r == !sum_fits_i32(a as int, b as int),
{
    a.checked_add(b).is_none()
}

/// True when `name` is longer than [`MAX_NAME_BYTES`] bytes of UTF-8.
pub open spec fn name_too_long(name: &str) -> bool {
    name.spec_bytes().len() > MAX_NAME_BYTES
}

/// The greeting owed for `name`: `"Hello, {name}!"` with the name
/// interpolated verbatim, unless the name is too long, in which case the
/// fixed error string takes its place.
pub open spec fn greeting_of(name: &str) -> Seq<char> {
    if name_too_long(name) {
        "Error: Input too long"@
    } else {
        "Hello, "@ + name@ + "!"@
    }
}

/// Bounded greeting: produces `"Hello, {name}!"` for any name of at most
/// [`MAX_NAME_BYTES`] UTF-8 bytes, and the literal `"Error: Input too long"`
/// for a longer one. The result is never empty.
pub fn greet(name: &str) -> (r: String)
    ensures
        r@ == greeting_of(name),
        r@.len() > 0,
{
    if name.as_bytes().len() > MAX_NAME_BYTES {
        proof {
            reveal_strlit("Error: Input too long");
        }
        return String::from_str("Error: Input too long");
    }
    let mut out = String::from_str("Hello, ");
    out.append(name);
    out.append("!");
    proof {
        reveal_strlit("Hello, ");
    }
    out
}

} // verus!
