use vstd::prelude::*;

verus! {

/// An error that can occur when querying the state of a Wooting keyboard.
#[derive(Clone, Copy, Debug, Hash, Eq, PartialEq, Structural)]
pub enum WootingError {
    /// The keyboard is disconnected.
    Disconnected,
    /// The requested number of analog key values was invalid. It must be
    /// non-zero and at most sixteen.
    InvalidBufferSize,
}

impl WootingError {
    /// The human-readable description of this error.
    pub fn message(&self) -> (r: &'static str)
        ensures
            *self == WootingError::Disconnected ==> r@ == "Wooting keyboard is not connected"@,
            *self == WootingError::InvalidBufferSize ==> r@ == "Requested analog value of too many keys"@,
    {
        match *self {
            WootingError::Disconnected => "Wooting keyboard is not connected",
            WootingError::InvalidBufferSize => "Requested analog value of too many keys",
        }
    }
}

} // verus!
