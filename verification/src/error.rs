//! The error type every command reports through: a machine-readable code with its process
//! exit status, a message, and optional detail and remediation.

use vstd::prelude::*;
use crate::json::{Json, JsonV, fields_view, push_field};

verus! {

/// The classes of failure, each with its own exit status.
#[derive(Clone, Copy, Debug, PartialEq, Eq, Structural)]
pub enum ErrorCode {
    /// General or unclassified error.
    Error,
    /// Connection failure or an upstream server error.
    Network,
    /// Missing, rejected or invalid API key.
    AuthRequired,
    /// The requested resource does not exist.
    NotFound,
    /// The HeyReach rate limit was reached.
    RateLimited,
    /// Malformed input or a bad argument.
    InvalidInput,
    /// No account chosen while several are configured.
    NoAccount,
}

/// The process exit status of an error class.
pub open spec fn exit_status(c: ErrorCode) -> int {
    match c {
        ErrorCode::Error => 1,
        ErrorCode::Network => 2,
        ErrorCode::AuthRequired => 3,
        ErrorCode::NotFound => 4,
        ErrorCode::RateLimited => 5,
        ErrorCode::InvalidInput => 6,
        ErrorCode::NoAccount => 7,
    }
}

/// The name under which an error class appears in error envelopes.
pub open spec fn code_name(c: ErrorCode) -> Seq<char> {
    match c {
        ErrorCode::Error => "error"@,
        ErrorCode::Network => "network"@,
        ErrorCode::AuthRequired => "auth_required"@,
        ErrorCode::NotFound => "not_found"@,
        ErrorCode::RateLimited => "rate_limited"@,
        ErrorCode::InvalidInput => "invalid_input"@,
        ErrorCode::NoAccount => "no_account"@,
    }
}

impl ErrorCode {
    /// The exit status the process ends with on this class of error.
    pub fn exit_code(&self) -> (r: i32)
        ensures
            r == exit_status(*self),
    {
        match self {
            ErrorCode::Error => 1,
            ErrorCode::Network => 2,
            ErrorCode::AuthRequired => 3,
            ErrorCode::NotFound => 4,
            ErrorCode::RateLimited => 5,
            ErrorCode::InvalidInput => 6,
            ErrorCode::NoAccount => 7,
        }
    }

    /// The code's name, as written in error envelopes.
    pub fn as_str(&self) -> (r: &'static str)
        ensures
            r@ == code_name(*self),
    {
        match self {
            ErrorCode::Error => "error",
            ErrorCode::Network => "network",
            ErrorCode::AuthRequired => "auth_required",
            ErrorCode::NotFound => "not_found",
            ErrorCode::RateLimited => "rate_limited",
            ErrorCode::InvalidInput => "invalid_input",
            ErrorCode::NoAccount => "no_account",
        }
    }
}

/// Each error class has its own exit status, none of them 0, and its own name: an agent
/// reading either one knows the class.
pub proof fn exit_codes_identify_classes(a: ErrorCode, b: ErrorCode)
    ensures
        1 <= exit_status(a) <= 7,
        exit_status(a) == exit_status(b) <==> a == b,
        code_name(a) == code_name(b) <==> a == b,
{
    reveal_strlit("error");
    reveal_strlit("network");
    reveal_strlit("auth_required");
    reveal_strlit("not_found");
    reveal_strlit("rate_limited");
    reveal_strlit("invalid_input");
    reveal_strlit("no_account");
    if code_name(a) == code_name(b) && a != b {
        let x = code_name(a);
        assert(x.len() == code_name(b).len());
        assert(x[0] == code_name(b)[0]);
        assert(x[1] == code_name(b)[1]);
    }
}

/// A failed command: what went wrong, the raw detail, and what to do about it.
#[derive(Debug)]
pub struct Error {
    pub code: ErrorCode,
    pub message: String,
    pub detail: Option<String>,
    pub remediation: Option<String>,
}

/// The view of an [`Error`].
pub struct ErrorV {
    pub code: ErrorCode,
    pub message: Seq<char>,
    pub detail: Option<Seq<char>>,
    pub remediation: Option<Seq<char>>,
}

pub open spec fn opt_view(o: Option<String>) -> Option<Seq<char>> {
    match o {
        Some(s) => Some(s@),
        None => None,
    }
}

impl View for Error {
    type V = ErrorV;

    open spec fn view(&self) -> ErrorV {
        ErrorV {
            code: self.code,
            message: self.message@,
            detail: opt_view(self.detail),
            remediation: opt_view(self.remediation),
        }
    }
}

/// An error with only a code and a message.
pub open spec fn err(code: ErrorCode, message: Seq<char>) -> ErrorV {
    ErrorV { code, message, detail: None, remediation: None }
}

/// The same error with its detail set.
pub open spec fn with_detail(e: ErrorV, detail: Seq<char>) -> ErrorV {
    ErrorV { detail: Some(detail), ..e }
}

/// The same error with its remediation set.
pub open spec fn with_fix(e: ErrorV, fix: Seq<char>) -> ErrorV {
    ErrorV { remediation: Some(fix), ..e }
}

/// The envelope an error is reported in: `error`, `code`, then `detail` and `remediation`
/// when present.
pub open spec fn envelope_view(e: ErrorV) -> JsonV {
    let base = seq![("error"@, JsonV::Str(e.message)), ("code"@, JsonV::Str(code_name(e.code)))];
    let with_d = match e.detail {
        Some(d) => base.push(("detail"@, JsonV::Str(d))),
        None => base,
    };
    let with_r = match e.remediation {
        Some(r) => with_d.push(("remediation"@, JsonV::Str(r))),
        None => with_d,
    };
    JsonV::Object(with_r)
}

impl Error {
    pub fn new(code: ErrorCode, message: String) -> (r: Error)
        ensures
            r@ == err(code, message@),
    {
        Error { code, message, detail: None, remediation: None }
    }

    /// An `invalid_input` error.
    pub fn invalid(message: String) -> (r: Error)
        ensures
            r@ == err(ErrorCode::InvalidInput, message@),
    {
        Error::new(ErrorCode::InvalidInput, message)
    }

    /// An unclassified error.
    pub fn other(message: String) -> (r: Error)
        ensures
            r@ == err(ErrorCode::Error, message@),
    {
        Error::new(ErrorCode::Error, message)
    }

    /// Sets the raw detail.
    pub fn detail(self, detail: String) -> (r: Error)
        ensures
            r@ == with_detail(self@, detail@),
    {
        Error { detail: Some(detail), ..self }
    }

    /// Sets the remediation.
    pub fn fix(self, fix: String) -> (r: Error)
        ensures
            r@ == with_fix(self@, fix@),
    {
        Error { remediation: Some(fix), ..self }
    }

    /// The structured envelope written to stderr.
    pub fn envelope(&self) -> (r: Json)
        ensures
            r@ == envelope_view(self@),
    {
        let mut fields: Vec<(String, Json)> = Vec::new();
        proof {
            assert(fields_view(fields@) =~= Seq::<(Seq<char>, JsonV)>::empty());
        }
        push_field(&mut fields, "error", Json::Str(self.message.clone()));
        push_field(&mut fields, "code", Json::string(self.code.as_str()));
        let ghost base = seq![("error"@, JsonV::Str(self.message@)), ("code"@, JsonV::Str(code_name(self.code)))];
        assert(fields_view(fields@) =~= base);
        let ghost with_d = match self@.detail {
            Some(d) => base.push(("detail"@, JsonV::Str(d))),
            None => base,
        };
        match &self.detail {
            Some(d) => push_field(&mut fields, "detail", Json::Str(d.clone())),
            None => {},
        }
        assert(fields_view(fields@) =~= with_d);
        match &self.remediation {
            Some(r) => push_field(&mut fields, "remediation", Json::Str(r.clone())),
            None => {},
        }
        let r = Json::Object(fields);
        assert(r@ =~= envelope_view(self@));
        r
    }
}

} // verus!
