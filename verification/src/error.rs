//! Error types for the Panasonic AC library

use vstd::prelude::*;
use vstd::string::StringExecFns;

verus! {

/// I/O errors reported by the standard library.
#[verifier::external_type_specification]
#[verifier::external_body]
pub struct ExIoError(std::io::Error);

/// Library-specific error types
#[derive(Debug)]
pub enum Error {
    /// Invalid state error with description
    InvalidState(String),
    /// Invalid value error with description
    InvalidValue(String),
    /// Invalid checksum error
    InvalidChecksum,
    /// Invalid data error with description
    InvalidData(String),
    /// Unsupported feature for specific model
    UnsupportedFeature { feature: String, model: Option<String> },
    /// Error with I/O operations
    IoError(std::io::Error),
    /// Protocol error
    ProtocolError(String),
    /// Hardware error
    HardwareError(String),
    /// GPIO error
    GpioError(String),
}

/// Specialized Result type for the library
pub type Result<T> = std::result::Result<T, Error>;

impl From<std::io::Error> for Error {
    fn from(err: std::io::Error) -> (r: Error) {
        Error::IoError(err)
    }
}

impl vstd::std_specs::convert::FromSpecImpl<std::io::Error> for Error {
    open spec fn obeys_from_spec() -> bool {
        true
    }

    open spec fn from_spec(v: std::io::Error) -> Error {
        Error::IoError(v)
    }
}

/// The message of an I/O error, as its `Display` implementation writes it
/// (`std::io::Error::to_string`). The text comes from the operating system
/// for most errors, so this contract states nothing of it.
#[verifier::external_body]
fn io_error_text(e: &std::io::Error) -> (r: String) {
    e.to_string()
}

impl Error {
    /// The message of the error (its `Display` form) for every variant but
    /// `IoError`, whose message includes the operating system's text.
    pub open spec fn message(self) -> Option<Seq<char>> {
        match self {
            Error::InvalidState(s) => Some("Invalid state: "@ + s@),
            Error::InvalidValue(s) => Some("Invalid value: "@ + s@),
            Error::InvalidChecksum => Some("Invalid checksum"@),
            Error::InvalidData(s) => Some("Invalid data: "@ + s@),
            Error::UnsupportedFeature { feature, model } => Some(
                "Feature '"@ + feature@ + "' not supported"@ + match model {
                    Some(m) => " by model '"@ + m@ + "'"@,
                    None => Seq::empty(),
                },
            ),
            Error::IoError(_) => None,
            Error::ProtocolError(s) => Some("Protocol error: "@ + s@),
            Error::HardwareError(s) => Some("Hardware error: "@ + s@),
            Error::GpioError(s) => Some("GPIO error: "@ + s@),
        }
    }

    /// The message of the error, as its `Display` form shows it. An I/O
    /// error reads `"I/O error: "` followed by the error's own message.
    pub fn to_string(&self) -> (r: String)
        ensures
            self.message() matches Some(m) ==> r@ == m,
            self is IoError ==> r@.take(11) == "I/O error: "@,
    {
        let (prefix, detail): (&str, Option<&String>) = match self {
            Error::InvalidState(s) => ("Invalid state: ", Some(s)),
            Error::InvalidValue(s) => ("Invalid value: ", Some(s)),
            Error::InvalidChecksum => ("Invalid checksum", None),
            Error::InvalidData(s) => ("Invalid data: ", Some(s)),
            Error::UnsupportedFeature { feature, model } => {
                let mut r = String::from_str("Feature '");
                r.append(feature.as_str());
                r.append("' not supported");
                if let Some(m) = model {
                    r.append(" by model '");
                    r.append(m.as_str());
                    r.append("'");
                }
                return r;
            },
            Error::IoError(e) => {
                let mut r = String::from_str("I/O error: ");
                let text = io_error_text(e);
                r.append(text.as_str());
                proof {
                    reveal_strlit("I/O error: ");
                    assert(r@.take(11) =~= "I/O error: "@);
                }
                return r;
            },
            Error::ProtocolError(s) => ("Protocol error: ", Some(s)),
            Error::HardwareError(s) => ("Hardware error: ", Some(s)),
            Error::GpioError(s) => ("GPIO error: ", Some(s)),
        };
        let mut r = String::from_str(prefix);
        if let Some(d) = detail {
            r.append(d.as_str());
        }
        r
    }
}

} // verus!
