use vstd::prelude::*;

verus! {

/// Why an operation could not be compiled.
#[derive(Clone, Copy, Debug, PartialEq, Eq, Structural)]
pub enum InvocationError {
    /// The operation got another number of arguments than its signature has.
    WrongNumberOfArguments { expected: usize, actual: usize },
    /// An argument has another number of cells than its type has.
    InvalidReferenceExpressionForArgument,
}

/// The error for arguments of the given sizes against the expected sizes, if any.
pub open spec fn shape_error(refs: Seq<usize>, expected: Seq<usize>) -> Option<InvocationError> {
    if refs.len() != expected.len() {
        Some(
            InvocationError::WrongNumberOfArguments {
                expected: expected.len() as usize,
                actual: refs.len() as usize,
            },
        )
    } else if refs != expected {
        Some(InvocationError::InvalidReferenceExpressionForArgument)
    } else {
        None
    }
}

/// Checks the sizes of the arguments (`refs[i]` cells for the `i`-th) against `expected`.
pub fn check_shape(refs: &Vec<usize>, expected: &Vec<usize>) -> (r: Result<(), InvocationError>)
    ensures
        r is Ok <==> shape_error(refs@, expected@) is None,
        r matches Err(e) ==> shape_error(refs@, expected@) == Some(e),
{
    if refs.len() != expected.len() {
        return Err(
            InvocationError::WrongNumberOfArguments { expected: expected.len(), actual: refs.len() },
        );
    }
    let mut i: usize = 0;
    while i < refs.len()
        invariant
            refs@.len() == expected@.len(),
            i <= refs@.len(),
            forall|j: int| 0 <= j < i ==> refs@[j] == expected@[j],
        decreases refs@.len() - i,
    {
        if refs[i] != expected[i] {
            return Err(InvocationError::InvalidReferenceExpressionForArgument);
        }
        i = i + 1;
    }
    assert(refs@ =~= expected@);
    Ok(())
}

} // verus!
