use vstd::prelude::*;

verus! {

/// Relies on `bytes::Bytes`: an opaque, cheaply cloneable binary payload.
///
/// The transport never looks inside a payload; it only stores whole values
/// and hands them back unchanged, so nothing further is assumed about the
/// type and none of its methods are called here.
#[verifier::external_type_specification]
#[verifier::external_body]
pub struct ExBytes(bytes::Bytes);

} // verus!
