use vstd::prelude::*;
use vstd::string::StringExecFns;

verus! {

/// Why signing or hashing failed. The failing library's message is kept.
#[derive(Debug)]
pub enum SignError {
    /// a file could not be read
    Io { message: String },
    /// the crypto library refused the key or failed to digest or sign
    Ssl { message: String },
    /// anything else
    Other { message: String },
}

impl SignError {
    /// A short human-readable description of the error.
    pub fn message(&self) -> (r: String)
        ensures
            match self {
                SignError::Io { message } => r@ == "IO error: "@ + message@,
                SignError::Ssl { message } => r@ == "SSL error: "@ + message@,
                SignError::Other { message } => r@ == "Unknown error: "@ + message@,
            },
    {
        match self {
            SignError::Io { message } => String::from_str("IO error: ").concat(message.as_str()),
            SignError::Ssl { message } => String::from_str("SSL error: ").concat(message.as_str()),
            SignError::Other { message } => String::from_str("Unknown error: ").concat(
                message.as_str(),
            ),
        }
    }
}

} // verus!
