use vstd::prelude::*;

verus! {

/// What deleting a directory tree reported. The caller performs the
/// deletion and hands in the observation.
pub enum DeleteOutcome {
    /// the tree existed and was removed
    Removed,
    /// there was nothing to remove
    NotFound,
    /// any other failure, with its message
    Failed { message: String },
}

/// The rule for clearing the artifacts directory: the tree is deleted and
/// then recreated empty. Deleting a directory that does not exist is not an
/// error — the clear is idempotent; any other deletion failure is fatal, as
/// is a failure to recreate the directory.
pub fn clear(delete: DeleteOutcome, create: Result<(), String>) -> (r: Result<(), String>)
    ensures
        delete matches DeleteOutcome::Failed { message } ==> r matches Err(m) && m@ == message@,
        !(delete matches DeleteOutcome::Failed { .. }) ==> r == create,
        r is Ok <==> !(delete matches DeleteOutcome::Failed { .. }) && create is Ok,
{
    match delete {
        DeleteOutcome::Failed { message } => Err(message),
        _ => create,
    }
}

} // verus!
