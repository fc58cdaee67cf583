use vstd::prelude::*;
use vstd::string::StringExecFns;

verus! {

/// The category of an invocation failure.
#[derive(Clone, Copy, Debug, PartialEq, Eq, Structural)]
pub enum FailureKind {
    /// The artifact store is unreachable or the object is absent.
    ArtifactFetch,
    /// The bytes are not a valid component binary.
    Compile,
    /// The component needs a capability that was not granted.
    Link,
    /// The guest violated a runtime safety invariant.
    GuestTrap,
    /// A payload on either side of the call is not JSON.
    PayloadSerialization,
}

/// Every failure the host reports to its callers: a category and a message.
#[derive(Debug)]
pub enum AppError {
    /// An error of the object store: its code and its message.
    S3Error(String, String),
    IoError(String),
    Internal(String),
    ArtifactFetch(String),
    Compile(String),
    Link(String),
    GuestTrap(String),
    PayloadSerialization(String),
}

impl AppError {
    /// The invocation failure kind of this error, if it is one.
    pub open spec fn kind(self) -> Option<FailureKind> {
        match self {
            AppError::ArtifactFetch(_) => Some(FailureKind::ArtifactFetch),
            AppError::Compile(_) => Some(FailureKind::Compile),
            AppError::Link(_) => Some(FailureKind::Link),
            AppError::GuestTrap(_) => Some(FailureKind::GuestTrap),
            AppError::PayloadSerialization(_) => Some(FailureKind::PayloadSerialization),
            _ => None,
        }
    }

    /// The text reported to the caller.
    pub open spec fn text(self) -> Seq<char> {
        match self {
            AppError::S3Error(code, m) => code@ + ": "@ + m@,
            AppError::IoError(m) => m@,
            AppError::Internal(m) => m@,
            AppError::ArtifactFetch(m) => m@,
            AppError::Compile(m) => m@,
            AppError::Link(m) => m@,
            AppError::GuestTrap(m) => m@,
            AppError::PayloadSerialization(m) => m@,
        }
    }

    /// The category reported to the caller; each kind of failure has its own.
    pub open spec fn category_text(self) -> Seq<char> {
        match self {
            AppError::S3Error(_, _) => "S3Error"@,
            AppError::IoError(_) => "IoError"@,
            AppError::Internal(_) => "Internal"@,
            AppError::ArtifactFetch(_) => "ArtifactFetchError"@,
            AppError::Compile(_) => "CompileError"@,
            AppError::Link(_) => "LinkError"@,
            AppError::GuestTrap(_) => "GuestTrapError"@,
            AppError::PayloadSerialization(_) => "PayloadSerializationError"@,
        }
    }

    /// The category reported to the caller.
    pub fn category(&self) -> (r: String)
        ensures
            r@ == self.category_text(),
    {
        match self {
            AppError::S3Error(_, _) => String::from_str("S3Error"),
            AppError::IoError(_) => String::from_str("IoError"),
            AppError::Internal(_) => String::from_str("Internal"),
            AppError::ArtifactFetch(_) => String::from_str("ArtifactFetchError"),
            AppError::Compile(_) => String::from_str("CompileError"),
            AppError::Link(_) => String::from_str("LinkError"),
            AppError::GuestTrap(_) => String::from_str("GuestTrapError"),
            AppError::PayloadSerialization(_) => String::from_str("PayloadSerializationError"),
        }
    }

    /// The failure of kind `kind` with the message `message`.
    pub fn from_failure(kind: FailureKind, message: String) -> (r: AppError)
        ensures
            r.kind() == Some(kind),
            r.text() == message@,
    {
        match kind {
            FailureKind::ArtifactFetch => AppError::ArtifactFetch(message),
            FailureKind::Compile => AppError::Compile(message),
            FailureKind::Link => AppError::Link(message),
            FailureKind::GuestTrap => AppError::GuestTrap(message),
            FailureKind::PayloadSerialization => AppError::PayloadSerialization(message),
        }
    }

    /// An object-store error from the code and message the store reported;
    /// a missing part becomes the empty string.
    pub fn from_s3(code: Option<String>, message: Option<String>) -> (r: AppError)
        ensures
            r matches AppError::S3Error(c, m) && c@ == text_or_empty(code) && m@ == text_or_empty(
                message,
            ),
    {
        let c = match code {
            Some(c) => c,
            None => String::new(),
        };
        let m = match message {
            Some(m) => m,
            None => String::new(),
        };
        AppError::S3Error(c, m)
    }

    /// The text reported to the caller: `code: message` for an object-store
    /// error, the message alone otherwise.
    pub fn message(&self) -> (r: String)
        ensures
            r@ == self.text(),
    {
        match self {
            AppError::S3Error(code, m) => code.clone().concat(": ").concat(m.as_str()),
            AppError::IoError(m) => m.clone(),
            AppError::Internal(m) => m.clone(),
            AppError::ArtifactFetch(m) => m.clone(),
            AppError::Compile(m) => m.clone(),
            AppError::Link(m) => m.clone(),
            AppError::GuestTrap(m) => m.clone(),
            AppError::PayloadSerialization(m) => m.clone(),
        }
    }
}

/// The text an optional string stands for: the empty string when absent.
pub open spec fn text_or_empty(s: Option<String>) -> Seq<char> {
    match s {
        Some(t) => t@,
        None => Seq::empty(),
    }
}

/// Errors of different invocation failure kinds carry different categories,
/// so a caller can tell every kind apart.
pub proof fn law_categories_distinct(a: AppError, b: AppError)
    requires
        a.kind() is Some,
        b.kind() is Some,
        a.kind() != b.kind(),
    ensures
        a.category_text() != b.category_text(),
{
    reveal_strlit("ArtifactFetchError");
    reveal_strlit("CompileError");
    reveal_strlit("LinkError");
    reveal_strlit("GuestTrapError");
    reveal_strlit("PayloadSerializationError");
    let (x, y) = (a.category_text(), b.category_text());
    if x == y {
        assert(x.len() == y.len());
        assert(x[0] == y[0]);
    }
}

} // verus!
