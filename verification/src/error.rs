use vstd::prelude::*;

verus! {

/// Errors raised by the platform layer.
#[derive(Debug)]
pub enum Error {
    /// A platform call failed; the text says which.
    Platform(String),
    /// The window no longer exists.
    WindowNotFound,
    /// A message could not be posted to the event loop.
    WindowMessage(String),
    /// A thread of the event loop failed.
    Thread(String),
    /// A Windows API call failed with the given `HRESULT` code and message.
    Windows { code: i32, message: String },
}

/// Result type of the platform layer.
pub type Result<T> = core::result::Result<T, Error>;

} // verus!
