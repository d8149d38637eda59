//! The calls this library makes into other crates, with what it relies on
//! of each.
use vstd::prelude::*;

verus! {

#[verifier::external_type_specification]
#[verifier::external_body]
pub struct ExCastError(cast::Error);

#[verifier::external_type_specification]
#[verifier::external_body]
pub struct ExType(cranelift_codegen::ir::Type);

/// The integer type of the given width in bits, as `ir::Type::int` returns it.
pub uninterp spec fn int_type_of_width(bits: u16) -> Option<cranelift_codegen::ir::Type>;

/// Relies on `ir::Type::int`: the result depends on the width alone, and there
/// is an integer type of 8, 16, 32, 64 and 128 bits and of no other width.
pub assume_specification[ cranelift_codegen::ir::Type::int ](bits: u16) -> (r: Option<
    cranelift_codegen::ir::Type,
>)
    ensures
        r == int_type_of_width(bits),
        r is Some <==> (bits == 8 || bits == 16 || bits == 32 || bits == 64 || bits == 128),
;

/// Relies on `cast::i32` from `i64`: the value itself where it lies in the range
/// of `i32`, an error where it does not.
#[verifier::external_body]
pub(crate) fn narrow_to_i32(x: i64) -> (r: Result<i32, cast::Error>)
    ensures
        match r {
            Ok(v) => i32::MIN <= x <= i32::MAX && v as int == x as int,
            Err(_) => x < i32::MIN || x > i32::MAX,
        },
{
    cast::i32(x)
}

} // verus!
