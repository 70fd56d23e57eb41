//! The error type of the crate: a kind and a human-readable message.
use vstd::prelude::*;
use crate::text::join;
use crate::text::join3;

verus! {

/// What went wrong, without the message.
#[derive(Debug, Clone, Copy, PartialEq, Eq, Structural)]
pub enum ErrorKind {
    Pipeline,
    System,
    Network,
    Crypto,
    Math,
    Io,
    Parse,
    Region,
    Validation,
    Unknown,
}

/// An error as contracts see it: its kind and the characters of its message.
pub struct Fault {
    pub kind: ErrorKind,
    pub detail: Seq<char>,
}

/// Every failure that crosses into a caller is one of these, each with its
/// message. `RegionError` carries the name of the feature that is not offered.
#[derive(Debug)]
pub enum TransRError {
    PipelineError(String),
    SystemError(String),
    NetworkError(String),
    CryptoError(String),
    MathError(String),
    IoError(String),
    ParseError(String),
    RegionError(String),
    ValidationError(String),
    Unknown(String),
}

pub type TransRResult<T> = Result<T, TransRError>;

impl View for TransRError {
    type V = Fault;

    open spec fn view(&self) -> Fault {
        match self {
            TransRError::PipelineError(m) => Fault { kind: ErrorKind::Pipeline, detail: m@ },
            TransRError::SystemError(m) => Fault { kind: ErrorKind::System, detail: m@ },
            TransRError::NetworkError(m) => Fault { kind: ErrorKind::Network, detail: m@ },
            TransRError::CryptoError(m) => Fault { kind: ErrorKind::Crypto, detail: m@ },
            TransRError::MathError(m) => Fault { kind: ErrorKind::Math, detail: m@ },
            TransRError::IoError(m) => Fault { kind: ErrorKind::Io, detail: m@ },
            TransRError::ParseError(m) => Fault { kind: ErrorKind::Parse, detail: m@ },
            TransRError::RegionError(m) => Fault { kind: ErrorKind::Region, detail: m@ },
            TransRError::ValidationError(m) => Fault { kind: ErrorKind::Validation, detail: m@ },
            TransRError::Unknown(m) => Fault { kind: ErrorKind::Unknown, detail: m@ },
        }
    }
}

/// The result of an action without a value, as contracts see it.
pub open spec fn unit_outcome(r: TransRResult<()>) -> Result<(), Fault> {
    match r {
        Ok(()) => Ok(()),
        Err(error) => Err(error@),
    }
}

/// The words that open the rendering of an error of the given kind.
pub open spec fn kind_prefix(kind: ErrorKind) -> Seq<char> {
    match kind {
        ErrorKind::Pipeline => "❌ Pipeline Error: "@,
        ErrorKind::System => "❌ System Error: "@,
        ErrorKind::Network => "❌ Network Error: "@,
        ErrorKind::Crypto => "❌ Crypto Error: "@,
        ErrorKind::Math => "❌ Math Error: "@,
        ErrorKind::Io => "❌ IO Error: "@,
        ErrorKind::Parse => "❌ Parse Error: "@,
        ErrorKind::Region => "❌ Region Error: Feature '"@,
        ErrorKind::Validation => "❌ Validation Error: "@,
        ErrorKind::Unknown => "⚠️  Unknown Error: "@,
    }
}

/// The words that close the rendering: empty but for a region error.
pub open spec fn kind_suffix(kind: ErrorKind) -> Seq<char> {
    match kind {
        ErrorKind::Region => "' tidak tersedia dalam region ini"@,
        _ => Seq::<char>::empty(),
    }
}

/// The text shown for an error: the kind's opening words, the message, and
/// the kind's closing words.
pub open spec fn rendering(fault: Fault) -> Seq<char> {
    kind_prefix(fault.kind) + fault.detail + kind_suffix(fault.kind)
}

impl TransRError {
    /// The kind of this error.
    pub fn kind(&self) -> (r: ErrorKind)
        ensures
            r == self@.kind,
    {
        match self {
            TransRError::PipelineError(_) => ErrorKind::Pipeline,
            TransRError::SystemError(_) => ErrorKind::System,
            TransRError::NetworkError(_) => ErrorKind::Network,
            TransRError::CryptoError(_) => ErrorKind::Crypto,
            TransRError::MathError(_) => ErrorKind::Math,
            TransRError::IoError(_) => ErrorKind::Io,
            TransRError::ParseError(_) => ErrorKind::Parse,
            TransRError::RegionError(_) => ErrorKind::Region,
            TransRError::ValidationError(_) => ErrorKind::Validation,
            TransRError::Unknown(_) => ErrorKind::Unknown,
        }
    }

    /// The message of this error, without the kind.
    pub fn detail(&self) -> (r: &str)
        ensures
            r@ == self@.detail,
    {
        match self {
            TransRError::PipelineError(m) => m.as_str(),
            TransRError::SystemError(m) => m.as_str(),
            TransRError::NetworkError(m) => m.as_str(),
            TransRError::CryptoError(m) => m.as_str(),
            TransRError::MathError(m) => m.as_str(),
            TransRError::IoError(m) => m.as_str(),
            TransRError::ParseError(m) => m.as_str(),
            TransRError::RegionError(m) => m.as_str(),
            TransRError::ValidationError(m) => m.as_str(),
            TransRError::Unknown(m) => m.as_str(),
        }
    }

    /// The text shown to a user: always the kind and the message.
    pub fn to_string(&self) -> (r: String)
        ensures
            r@ == rendering(self@),
    {
        let m = self.detail();
        let r = match self.kind() {
            ErrorKind::Pipeline => join("❌ Pipeline Error: ", m),
            ErrorKind::System => join("❌ System Error: ", m),
            ErrorKind::Network => join("❌ Network Error: ", m),
            ErrorKind::Crypto => join("❌ Crypto Error: ", m),
            ErrorKind::Math => join("❌ Math Error: ", m),
            ErrorKind::Io => join("❌ IO Error: ", m),
            ErrorKind::Parse => join("❌ Parse Error: ", m),
            ErrorKind::Region => join3(
                "❌ Region Error: Feature '",
                m,
                "' tidak tersedia dalam region ini",
            ),
            ErrorKind::Validation => join("❌ Validation Error: ", m),
            ErrorKind::Unknown => join("⚠️  Unknown Error: ", m),
        };
        assert(r@ =~= rendering(self@));
        r
    }
}

} // verus!
