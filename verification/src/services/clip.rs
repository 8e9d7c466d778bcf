//! The check on a CLIP embedding.

use vstd::prelude::*;
use crate::error::AppError;
use crate::text::{decimal, push_decimal};

verus! {

broadcast use vstd::string::group_string_axioms;

/// The number of dimensions of a CLIP image embedding.
pub const CLIP_DIMENSIONS: usize = 512;

/// The message of the error for an embedding of `dims` dimensions.
pub open spec fn dimension_error_message(dims: nat) -> Seq<char> {
    "CLIP returned "@ + decimal(dims) + " dims, expected 512"@
}

/// Checks the length of an embedding: `Ok` exactly when it has 512
/// dimensions, else an internal error that names the length it has.
pub fn check_embedding_dims(dims: usize) -> (r: Result<(), AppError>)
    ensures
        r is Ok <==> dims == CLIP_DIMENSIONS,
        r matches Err(e) ==> e matches AppError::Internal(m) && m@ == dimension_error_message(dims as nat),
{
    if dims != CLIP_DIMENSIONS {
        let mut m = String::from_str("CLIP returned ");
        push_decimal(&mut m, dims);
        m.append(" dims, expected 512");
        return Err(AppError::Internal(m));
    }
    Ok(())
}

} // verus!
