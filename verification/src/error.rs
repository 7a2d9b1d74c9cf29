//! Uniform translation of the engine's native error signal into a typed
//! result, plus the errors this layer raises on its own.

use vstd::prelude::*;

verus! {

/// An error surfaced by this layer.
#[derive(Debug)]
pub enum Error {
    /// The engine reported a non-zero native error code; the human-readable
    /// message is copied out alongside it.
    NativeFault { code: i32, message: String },
    /// An allocator had no free identifier left. Recoverable: the caller
    /// decides whether exhaustion is fatal.
    ResourceExhausted,
    /// The operation asked for something the wire encoder cannot carry, and
    /// rejecting it explicitly beats dropping it silently.
    Unsupported,
}

impl Error {
    /// Turn a native `(code, message)` pair into a result, keeping `result`
    /// on success. Code `0` means success; any other code is a fault.
    pub fn to_result<A>(result: A, code: i32, message: String) -> (r: Result<A, Error>)
        ensures
            code == 0 ==> r == Ok::<A, Error>(result),
            code != 0 ==> r == Err::<A, Error>((Error::NativeFault { code, message })),
    {
        if code == 0 {
            Ok(result)
        } else {
            Err(Error::NativeFault { code, message })
        }
    }

    /// Check a native `(code, message)` pair with no payload to keep.
    pub fn check(code: i32, message: String) -> (r: Result<(), Error>)
        ensures
            code == 0 ==> r == Ok::<(), Error>(()),
            code != 0 ==> r == Err::<(), Error>((Error::NativeFault { code, message })),
    {
        Error::to_result((), code, message)
    }
}

} // verus!
