use vstd::prelude::*;

verus! {

/// Declares `std::io::Error`, which the container reports its failures with.
#[verifier::external_type_specification]
#[verifier::external_body]
pub struct ExIoError(std::io::Error);

/// Public error type.
#[derive(Debug)]
pub enum Error {
    /// I/O Error.
    Io(std::io::Error),
    /// Error originating from the compound file container.
    Cfb(std::io::Error),
    /// Error originating from the `CompressedContainer` decompressor.
    Decompressor,
    /// Generic parsing error of the *dir* stream.
    Parser,
    /// Requested module cannot be found.
    ModuleNotFound(String),
    /// The code page has no known text encoding.
    Encoding(u16),
}

impl From<std::io::Error> for Error {
    /// An I/O error of the surrounding program becomes `Error::Io`; failures of
    /// the container are built as `Error::Cfb` explicitly.
    fn from(e: std::io::Error) -> (r: Error)
        ensures
            r == Error::Io(e),
    {
        Error::Io(e)
    }
}

impl vstd::std_specs::convert::FromSpecImpl<std::io::Error> for Error {
    open spec fn obeys_from_spec() -> bool {
        true
    }

    open spec fn from_spec(v: std::io::Error) -> Error {
        Error::Io(v)
    }
}

/// Relies on the `Display` impl of `std::io::Error` for its message.
#[verifier::external_body]
fn io_error_text(e: &std::io::Error) -> String {
    e.to_string()
}

impl Error {
    /// A human-readable description of the error.
    pub fn message(&self) -> (r: String)
        ensures
            self matches Error::ModuleNotFound(name) ==> r@ == "Module \""@ + name@
                + "\" not found"@,
    {
        match self {
            Error::Io(e) => "I/O error: ".to_string().concat(io_error_text(e).as_str()),
            Error::Cfb(e) => "CFB error: ".to_string().concat(io_error_text(e).as_str()),
            Error::Decompressor => "Decompressor error".to_string(),
            Error::Parser => "Parse error".to_string(),
            Error::ModuleNotFound(name) => {
                broadcast use vstd::string::to_string_from_display_ensures_for_str;

                "Module \"".to_string().concat(name.as_str()).concat("\" not found")
            },
            Error::Encoding(_) => "Unsupported code page".to_string(),
        }
    }
}

} // verus!
