use vstd::prelude::*;

verus! {

/// The errno value of an interrupted system call.
pub const EINTR: i32 = 4;

/// Errors of the ring-buffer multiplexer.
#[derive(Debug, PartialEq, Eq)]
pub enum Error {
    /// The caller supplied something unusable; nothing foreign was touched.
    InvalidInput(String),
    /// A foreign primitive failed with this code.
    System(i32),
}

/// Whether a foreign return code reports success: a non-negative count, or an
/// interrupted wait, which is retried by the next call rather than reported.
pub open spec fn ret_is_ok(ret: i32) -> bool {
    ret >= 0 || ret == -EINTR
}

/// Maps the return code of a drain operation to its result.
pub fn parse_ret(ret: i32) -> (r: Result<(), Error>)
    ensures
        ret_is_ok(ret) ==> r == Ok::<(), Error>(()),
        !ret_is_ok(ret) ==> r == Err::<(), Error>(Error::System(ret)),
{
    if ret >= 0 || ret == -EINTR {
        Ok(())
    } else {
        Err(Error::System(ret))
    }
}

} // verus!
