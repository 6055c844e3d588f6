//! The argument model: one decoded OSC argument, reduced to plain values,
//! and the numeric coercions between argument kinds and event fields.

use vstd::prelude::*;

use crate::event::spec_f32_bits_finite;

verus! {

/// One positional argument of a decoded OSC message, reduced to the plain
/// values this library's logic reads. A floating-point argument is carried
/// as its IEEE-754 bit pattern; the library never computes on float values.
pub enum OscArg {
    /// A 32-bit integer argument.
    Int(i32),
    /// A 64-bit integer argument.
    Long(i64),
    /// A 32-bit float argument, as its bit pattern.
    Float(u32),
    /// A 64-bit float argument, as its bit pattern.
    Double(u64),
    /// A string argument.
    Text(String),
    /// Any other OSC argument kind; never valid in a numeric or string slot.
    Other,
}

/// The `i32` that the 32-bit float with bit pattern `bits` casts to.
pub uninterp spec fn f32_trunc(bits: u32) -> i32;

/// The `i32` that the 64-bit float with bit pattern `bits` casts to.
pub uninterp spec fn f64_trunc(bits: u64) -> i32;

/// Whether the 64-bit float with bit pattern `bits` is a NaN: exponent bits
/// all ones with a non-zero fraction.
pub open spec fn spec_f64_bits_nan(bits: u64) -> bool {
    (bits >> 52u64) & 0x7ffu64 == 0x7ffu64 && bits & 0xf_ffff_ffff_ffffu64 != 0u64
}

/// The bit pattern of the 32-bit float that the 64-bit float with bit
/// pattern `bits` casts to, for a `bits` that is not a NaN. For a NaN the
/// cast's result payload is unspecified and may differ between targets, so
/// no name is given to it: the trusted items apply this name to non-NaN
/// inputs only.
pub uninterp spec fn f64_to_f32_bits(bits: u64) -> u32;

/// The bit pattern of the 32-bit float that `v` casts to.
pub uninterp spec fn i32_to_f32_bits(v: i32) -> u32;

/// The bit pattern of the 32-bit float that `v` casts to.
pub uninterp spec fn i64_to_f32_bits(v: i64) -> u32;

/// Relies on bytemuck::cast, which rebuilds the 32-bit float from its bit
/// pattern, and on Rust's float-to-integer cast: truncation toward zero,
/// saturating at the `i32` bounds, 0 for NaN. The value is bound through a
/// rosc argument constructor, so no float type is named here.
#[verifier::external_body]
fn cast_f32_bits_to_i32(bits: u32) -> (r: i32)
    ensures
        r == f32_trunc(bits),
{
    let f = rosc::OscType::Float(bytemuck::cast(bits)).float().unwrap_or_default();
    f as _
}

/// Relies on bytemuck::cast, which rebuilds the 64-bit float from its bit
/// pattern, and on Rust's float-to-integer cast: truncation toward zero,
/// saturating at the `i32` bounds, 0 for NaN.
#[verifier::external_body]
fn cast_f64_bits_to_i32(bits: u64) -> (r: i32)
    ensures
        r == f64_trunc(bits),
{
    let d = rosc::OscType::Double(bytemuck::cast(bits)).double().unwrap_or_default();
    d as _
}

/// Relies on bytemuck::cast, which rebuilds the 64-bit float from its bit
/// pattern, and on Rust's double-to-single cast: rounding to the nearest
/// representable 32-bit float. For a non-NaN input the cast is a function
/// of the bits alone; a NaN narrows to a NaN whose payload the language
/// leaves unspecified, so of that case only non-finiteness is promised.
#[verifier::external_body]
fn cast_f64_bits_to_f32_bits(bits: u64) -> (r: u32)
    ensures
        !spec_f64_bits_nan(bits) ==> r == f64_to_f32_bits(bits),
        spec_f64_bits_nan(bits) ==> !spec_f32_bits_finite(r),
{
    let d = rosc::OscType::Double(bytemuck::cast(bits)).double().unwrap_or_default();
    let f = rosc::OscType::Float(d as _).float().unwrap_or_default();
    f.to_bits()
}

/// Relies on Rust's integer-to-float cast: rounding to the nearest
/// representable 32-bit float. Every 32-bit integer rounds into the finite
/// range, so the result is always finite.
#[verifier::external_body]
fn cast_i32_to_f32_bits(v: i32) -> (r: u32)
    ensures
        r == i32_to_f32_bits(v),
        spec_f32_bits_finite(r),
{
    let f = rosc::OscType::Float(v as _).float().unwrap_or_default();
    f.to_bits()
}

/// Relies on Rust's integer-to-float cast: rounding to the nearest
/// representable 32-bit float. Every 64-bit integer rounds into the finite
/// range, so the result is always finite.
#[verifier::external_body]
fn cast_i64_to_f32_bits(v: i64) -> (r: u32)
    ensures
        r == i64_to_f32_bits(v),
        spec_f32_bits_finite(r),
{
    let f = rosc::OscType::Float(v as _).float().unwrap_or_default();
    f.to_bits()
}

/// Two's-complement narrowing of a 64-bit integer to its low 32 bits, as
/// Rust's `as` cast narrows.
pub open spec fn spec_i64_narrow(v: i64) -> i32 {
    #[verifier::truncate] (v as i32)
}

/// The `i32` a numeric argument coerces to; `None` for a non-numeric argument.
pub open spec fn spec_arg_to_int(a: OscArg) -> Option<i32> {
    match a {
        OscArg::Int(i) => Some(i),
        OscArg::Long(l) => Some(spec_i64_narrow(l)),
        OscArg::Float(b) => Some(f32_trunc(b)),
        OscArg::Double(b) => Some(f64_trunc(b)),
        OscArg::Text(_) => None,
        OscArg::Other => None,
    }
}

/// Whether `a` is a 64-bit float NaN: the one numeric argument whose
/// narrowing keeps no portable bit pattern.
pub open spec fn spec_arg_is_nan_double(a: OscArg) -> bool {
    match a {
        OscArg::Double(b) => spec_f64_bits_nan(b),
        _ => false,
    }
}

/// Whether a numeric argument narrowed into a float slot is non-finite and
/// so must be rejected as a duration. A NaN double is rejected outright: its
/// narrowing is a NaN of unspecified payload, non-finite whatever that
/// payload is. An integer source never trips this at run time — the casts
/// promise a finite narrowing.
pub open spec fn spec_narrowed_not_finite(a: OscArg) -> bool {
    match a {
        OscArg::Int(v) => !spec_f32_bits_finite(i32_to_f32_bits(v)),
        OscArg::Long(v) => !spec_f32_bits_finite(i64_to_f32_bits(v)),
        OscArg::Float(b) => !spec_f32_bits_finite(b),
        OscArg::Double(b) => spec_f64_bits_nan(b) || !spec_f32_bits_finite(f64_to_f32_bits(b)),
        OscArg::Text(_) => false,
        OscArg::Other => false,
    }
}

/// The 32-bit float bit pattern a numeric argument coerces to; `None` for a
/// non-numeric argument. For a NaN double the named value is not tied to
/// the runtime narrowing (its payload is unspecified), so contracts go
/// through this function only on arguments that are not NaN doubles.
pub open spec fn spec_arg_to_float_bits(a: OscArg) -> Option<u32> {
    match a {
        OscArg::Int(i) => Some(i32_to_f32_bits(i)),
        OscArg::Long(l) => Some(i64_to_f32_bits(l)),
        OscArg::Float(b) => Some(b),
        OscArg::Double(b) => Some(f64_to_f32_bits(b)),
        OscArg::Text(_) => None,
        OscArg::Other => None,
    }
}

/// The string a string argument holds; `None` for any other argument kind.
pub open spec fn spec_arg_to_text(a: OscArg) -> Option<String> {
    match a {
        OscArg::Text(s) => Some(s),
        _ => None,
    }
}

/// Coerces one argument to a 32-bit integer field. All four numeric kinds
/// are accepted; a float source truncates toward zero and a 64-bit integer
/// source keeps its low 32 bits (two's-complement wrap).
pub fn arg_to_int(a: &OscArg) -> (r: Option<i32>)
    ensures
        r == spec_arg_to_int(*a),
{
    match a {
        OscArg::Int(i) => Some(*i),
        OscArg::Long(l) => Some(#[verifier::truncate] (*l as i32)),
        OscArg::Float(b) => Some(cast_f32_bits_to_i32(*b)),
        OscArg::Double(b) => Some(cast_f64_bits_to_i32(*b)),
        OscArg::Text(_) => None,
        OscArg::Other => None,
    }
}

/// Coerces one argument to a 32-bit float field, as its bit pattern. All
/// four numeric kinds are accepted; a wider or integer source narrows to
/// the nearest representable 32-bit float. A NaN double yields some
/// non-finite pattern — its payload is not portable, so no exact bits are
/// promised for it.
pub fn arg_to_float_bits(a: &OscArg) -> (r: Option<u32>)
    ensures
        r is Some <==> spec_arg_to_float_bits(*a) is Some,
        !spec_arg_is_nan_double(*a) ==> r == spec_arg_to_float_bits(*a),
        spec_arg_is_nan_double(*a) ==> (r matches Some(b) && !spec_f32_bits_finite(b)),
        (*a matches OscArg::Int(_) || *a matches OscArg::Long(_)) ==> (r matches Some(b)
            && spec_f32_bits_finite(b)),
{
    match a {
        OscArg::Int(i) => Some(cast_i32_to_f32_bits(*i)),
        OscArg::Long(l) => Some(cast_i64_to_f32_bits(*l)),
        OscArg::Float(b) => Some(*b),
        OscArg::Double(b) => Some(cast_f64_bits_to_f32_bits(*b)),
        OscArg::Text(_) => None,
        OscArg::Other => None,
    }
}

/// Reads one argument as a string field. Only an exact string argument is
/// accepted; a numeric argument in a string slot is a schema error.
pub fn arg_to_text(a: &OscArg) -> (r: Option<String>)
    ensures
        r == spec_arg_to_text(*a),
{
    match a {
        OscArg::Text(s) => Some(s.clone()),
        _ => None,
    }
}

/// The coercion law for 64-bit floats: a numeric slot supplied as a 64-bit
/// float is never a type error — it narrows to an integer by truncation or
/// to a 32-bit float by rounding. (A narrowed duration must still be
/// finite, which the translator checks as a value, not a type.)
pub proof fn lemma_double_accepted(bits: u64)
    ensures
        spec_arg_to_int(OscArg::Double(bits)) is Some,
        spec_arg_to_float_bits(OscArg::Double(bits)) is Some,
{
}

} // verus!
