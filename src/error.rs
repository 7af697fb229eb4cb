use vstd::prelude::*;

verus! {

/// Errors reported by this library.
#[derive(Debug, Clone, PartialEq, Eq)]
pub enum FruitError {
    /// The host cannot run bundled applications; callers may go on without
    /// bundling support.
    UnsupportedPlatform(String),
    /// A file-system step failed; carries the operating system's message.
    IOError(String),
    /// Any other failure.
    GeneralError(String),
}

impl FruitError {
    /// The name of the variant.
    pub open spec fn kind_name(&self) -> Seq<char> {
        match self {
            FruitError::UnsupportedPlatform(_) => "UnsupportedPlatform"@,
            FruitError::IOError(_) => "IOError"@,
            FruitError::GeneralError(_) => "GeneralError"@,
        }
    }

    /// The message carried by the error.
    pub open spec fn message(&self) -> Seq<char> {
        match self {
            FruitError::UnsupportedPlatform(m) => m@,
            FruitError::IOError(m) => m@,
            FruitError::GeneralError(m) => m@,
        }
    }

    /// The error as text: the variant's name and its message in quotes and
    /// parentheses, such as `IOError("not found")`.
    pub fn to_string(&self) -> (r: String)
        ensures
            r@ == self.kind_name() + "(\""@ + self.message() + "\")"@,
    {
        let (mut out, m) = match self {
            FruitError::UnsupportedPlatform(m) => ("UnsupportedPlatform".to_owned(), m),
            FruitError::IOError(m) => ("IOError".to_owned(), m),
            FruitError::GeneralError(m) => ("GeneralError".to_owned(), m),
        };
        out.append("(\"");
        out.append(m.as_str());
        out.append("\")");
        out
    }
}

} // verus!
