//! Values read from the `gl` bindings.
//!
//! The bindings are generated from the Khronos registry; each reader below
//! states the value the registry assigns to the constant it returns.

use vstd::prelude::*;

verus! {

/// Reads `gl::ARRAY_BUFFER`.  Trusted: the registry gives it the value 0x8892.
#[verifier::external_body]
pub(crate) fn array_buffer() -> (value: u32)
    ensures
        value == 0x8892u32,
{
    gl::ARRAY_BUFFER
}

/// Reads `gl::ELEMENT_ARRAY_BUFFER`.  Trusted: the registry gives it the value 0x8893.
#[verifier::external_body]
pub(crate) fn element_array_buffer() -> (value: u32)
    ensures
        value == 0x8893u32,
{
    gl::ELEMENT_ARRAY_BUFFER
}

/// Reads `gl::VERTEX_SHADER`.  Trusted: the registry gives it the value 0x8B31.
#[verifier::external_body]
pub(crate) fn vertex_shader() -> (value: u32)
    ensures
        value == 0x8B31u32,
{
    gl::VERTEX_SHADER
}

/// Reads `gl::FRAGMENT_SHADER`.  Trusted: the registry gives it the value 0x8B30.
#[verifier::external_body]
pub(crate) fn fragment_shader() -> (value: u32)
    ensures
        value == 0x8B30u32,
{
    gl::FRAGMENT_SHADER
}

/// Reads `gl::TRUE`.  Trusted: the registry gives it the value 1, and the
/// bindings type it as `GLboolean`, an unsigned byte.
#[verifier::external_body]
pub(crate) fn gl_true() -> (value: u8)
    ensures
        value == 1u8,
{
    gl::TRUE
}

} // verus!
