//! The errors that the character device answers with.
use crate::npu::Error;
use vstd::prelude::*;

verus! {

/// Why an operation on the device file failed.
#[derive(Debug, Clone, Copy, PartialEq, Eq, Structural)]
pub enum VfsError {
    /// The entity exists already, or is taken.
    AlreadyExists,
    /// The data is not valid for the operation.
    InvalidData,
    /// The operation is not one that the file takes.
    InvalidInput,
    /// Memory ran out.
    NoMemory,
    /// The device does not know the ioctl.
    NotATty,
    /// The entity was not found.
    NotFound,
}

/// The error that a failed NPU request gives a user of the device file.
pub open spec fn vfs_error(err: Error) -> VfsError {
    match err {
        Error::NotFound => VfsError::NotFound,
        Error::Busy => VfsError::AlreadyExists,
        Error::InvalidData => VfsError::InvalidData,
    }
}

/// The error that a failed NPU request gives a user of the device file.
pub fn map_rknpu_err(err: Error) -> (r: VfsError)
    ensures
        r == vfs_error(err),
{
    match err {
        Error::NotFound => VfsError::NotFound,
        Error::Busy => VfsError::AlreadyExists,
        Error::InvalidData => VfsError::InvalidData,
    }
}

/// Different failures of the NPU stay different in what the user sees.
pub proof fn law_errors_stay_apart(a: Error, b: Error)
    ensures
        vfs_error(a) == vfs_error(b) ==> a == b,
{
}

/// The meaning of the count that a copy between user and kernel memory returns: it has
/// succeeded exactly if no byte is left over.
pub open spec fn copied(left_over: usize) -> Result<(), VfsError> {
    if left_over == 0 {
        Ok(())
    } else {
        Err(VfsError::InvalidData)
    }
}

/// The outcome of a copy from user space that has left over `left_over` bytes.
pub fn copy_from_user(left_over: usize) -> (r: Result<(), VfsError>)
    ensures
        r == copied(left_over),
{
    if left_over != 0 {
        return Err(VfsError::InvalidData);
    }
    Ok(())
}

/// The outcome of a copy to user space that has left over `left_over` bytes.
pub fn copy_to_user(left_over: usize) -> (r: Result<(), VfsError>)
    ensures
        r == copied(left_over),
{
    if left_over != 0 {
        return Err(VfsError::InvalidData);
    }
    Ok(())
}

/// A copy succeeds exactly if it leaves nothing over, and fails with invalid data otherwise.
pub proof fn law_copies_leave_nothing_over(left_over: usize)
    ensures
        copied(left_over) is Ok <==> left_over == 0,
        copied(left_over) is Err ==> copied(left_over) == Err::<(), VfsError>(
            VfsError::InvalidData,
        ),
{
}

/// What the user sees of a failure of the NPU.
pub proof fn law_errors_seen_by_the_user(err: Error)
    ensures
        vfs_error(err) == VfsError::NotFound <==> err == Error::NotFound,
        vfs_error(err) == VfsError::AlreadyExists <==> err == Error::Busy,
        vfs_error(err) == VfsError::InvalidData <==> err == Error::InvalidData,
{
}

} // verus!
