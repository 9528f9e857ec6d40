//! The error model: every failure of a run carries a kind and a message.

use vstd::prelude::*;

verus! {

/// The kind of a failure, in the order the run can meet them: a malformed or
/// incomplete configuration, a bad command-line request, an operating-system
/// failure (I/O, process spawning, missing home directory), an
/// application-level failure, or an unclassified one.
#[derive(Debug, Clone, Copy, PartialEq, Eq, Structural)]
pub enum Type {
    Config,
    Argument,
    System,
    App,
    Unknown,
}

impl Type {
    /// The human-readable label of this kind, as it opens an error report.
    pub fn label(&self) -> (r: String)
        ensures
            r@ == self.label_spec(),
    {
        proof {
            reveal_strlit("configuration error");
            reveal_strlit("CLI argument error");
            reveal_strlit("system error");
            reveal_strlit("application error");
            reveal_strlit("unknown error");
        }
        match self {
            Type::Config => "configuration error".to_owned(),
            Type::Argument => "CLI argument error".to_owned(),
            Type::System => "system error".to_owned(),
            Type::App => "application error".to_owned(),
            Type::Unknown => "unknown error".to_owned(),
        }
    }

    pub open spec fn label_spec(self) -> Seq<char> {
        match self {
            Type::Config => "configuration error"@,
            Type::Argument => "CLI argument error"@,
            Type::System => "system error"@,
            Type::App => "application error"@,
            Type::Unknown => "unknown error"@,
        }
    }
}

impl Default for Type {
    fn default() -> (r: Self)
        ensures
            r == Type::Unknown,
    {
        Type::Unknown
    }
}

/// An error of the library: its kind and a message for the user.
#[derive(Debug)]
pub struct Error {
    pub kind: Type,
    pub msg: String,
}

impl Error {
    pub fn new(kind: Type, msg: String) -> (r: Self)
        ensures
            r.kind == kind,
            r.msg@ == msg@,
    {
        Error { kind, msg }
    }

    /// The full report, `"{kind label}: {message}"`, shown at the process
    /// boundary.
    pub fn message(&self) -> (r: String)
        ensures
            r@ == self.message_spec(),
    {
        proof {
            reveal_strlit(": ");
        }
        let mut out = self.kind.label();
        out.append(": ");
        out.append(self.msg.as_str());
        out
    }

    pub open spec fn message_spec(self) -> Seq<char> {
        self.kind.label_spec() + ": "@ + self.msg@
    }
}

impl Clone for Error {
    fn clone(&self) -> (r: Self)
        ensures
            r.kind == self.kind,
            r.msg@ == self.msg@,
    {
        Error { kind: self.kind, msg: self.msg.clone() }
    }
}

} // verus!
