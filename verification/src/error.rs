use vstd::prelude::*;
use vstd::string::StringExecFns;

verus! {

#[derive(Debug)]
pub enum KrankerlError {
    InvalidToolchainName { name: String },
    Other { cause: String },
}

impl KrankerlError {
    /// A short human-readable description of the error.
    pub fn message(&self) -> (r: String)
        ensures
            match self {
                KrankerlError::InvalidToolchainName { name } => r@ == "invalid toolchain name: "@
                    + name@,
                KrankerlError::Other { cause } => r@ == "unexpected error: "@ + cause@,
            },
    {
        match self {
            KrankerlError::InvalidToolchainName { name } => String::from_str(
                "invalid toolchain name: ",
            ).concat(name.as_str()),
            KrankerlError::Other { cause } => String::from_str("unexpected error: ").concat(
                cause.as_str(),
            ),
        }
    }
}

} // verus!
