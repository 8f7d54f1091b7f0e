//! The shared error taxonomy: protocol-level error kinds keyed by the
//! server's three-digit response code, plus the lower-level failures
//! that the engine folds into the same type.
use vstd::prelude::*;

verus! {

/// One error of the protocol engine.
#[derive(Debug, Clone, PartialEq)]
pub enum AniDbError {
    IllegalOutputOrAccessDenied,
    Banned(String),
    UnknownCommand,
    InternalServerError,
    OutOfService,
    ServerBusy,
    Timeout,
    LoginFirst,
    AccessDenied,
    InvalidSession,
    UnknownError(String),
    LoginFailed,
    ClientVersionOutdated,
    ClientBanned(String),
    CacheError(String),
    IoError(String),
    SerializationError(String),
    DecodeError(String),
    UnexpectedError(String),
}

/// The same error with its text as a character sequence, for contracts.
pub enum AniDbErrorView {
    IllegalOutputOrAccessDenied,
    Banned(Seq<char>),
    UnknownCommand,
    InternalServerError,
    OutOfService,
    ServerBusy,
    Timeout,
    LoginFirst,
    AccessDenied,
    InvalidSession,
    UnknownError(Seq<char>),
    LoginFailed,
    ClientVersionOutdated,
    ClientBanned(Seq<char>),
    CacheError(Seq<char>),
    IoError(Seq<char>),
    SerializationError(Seq<char>),
    DecodeError(Seq<char>),
    UnexpectedError(Seq<char>),
}

impl DeepView for AniDbError {
    type V = AniDbErrorView;

    open spec fn deep_view(&self) -> AniDbErrorView {
        match self {
            AniDbError::IllegalOutputOrAccessDenied => AniDbErrorView::IllegalOutputOrAccessDenied,
            AniDbError::Banned(s) => AniDbErrorView::Banned(s@),
            AniDbError::UnknownCommand => AniDbErrorView::UnknownCommand,
            AniDbError::InternalServerError => AniDbErrorView::InternalServerError,
            AniDbError::OutOfService => AniDbErrorView::OutOfService,
            AniDbError::ServerBusy => AniDbErrorView::ServerBusy,
            AniDbError::Timeout => AniDbErrorView::Timeout,
            AniDbError::LoginFirst => AniDbErrorView::LoginFirst,
            AniDbError::AccessDenied => AniDbErrorView::AccessDenied,
            AniDbError::InvalidSession => AniDbErrorView::InvalidSession,
            AniDbError::UnknownError(s) => AniDbErrorView::UnknownError(s@),
            AniDbError::LoginFailed => AniDbErrorView::LoginFailed,
            AniDbError::ClientVersionOutdated => AniDbErrorView::ClientVersionOutdated,
            AniDbError::ClientBanned(s) => AniDbErrorView::ClientBanned(s@),
            AniDbError::CacheError(s) => AniDbErrorView::CacheError(s@),
            AniDbError::IoError(s) => AniDbErrorView::IoError(s@),
            AniDbError::SerializationError(s) => AniDbErrorView::SerializationError(s@),
            AniDbError::DecodeError(s) => AniDbErrorView::DecodeError(s@),
            AniDbError::UnexpectedError(s) => AniDbErrorView::UnexpectedError(s@),
        }
    }
}

/// The error that a reply with response code `code` and reply text
/// `reply` denotes. Codes outside the closed set map to the catch-all
/// kind carrying the code and the reply text verbatim.
pub open spec fn code_error(code: Seq<char>, reply: Seq<char>) -> AniDbErrorView {
    if code == "500"@ {
        AniDbErrorView::LoginFailed
    } else if code == "501"@ {
        AniDbErrorView::LoginFirst
    } else if code == "502"@ {
        AniDbErrorView::AccessDenied
    } else if code == "503"@ {
        AniDbErrorView::ClientVersionOutdated
    } else if code == "504"@ {
        AniDbErrorView::ClientBanned(reply)
    } else if code == "505"@ {
        AniDbErrorView::IllegalOutputOrAccessDenied
    } else if code == "506"@ {
        AniDbErrorView::InvalidSession
    } else if code == "555"@ {
        AniDbErrorView::Banned(reply)
    } else if code == "598"@ {
        AniDbErrorView::UnknownCommand
    } else if code == "600"@ {
        AniDbErrorView::InternalServerError
    } else if code == "601"@ {
        AniDbErrorView::OutOfService
    } else if code == "602"@ {
        AniDbErrorView::ServerBusy
    } else if code == "604"@ {
        AniDbErrorView::Timeout
    } else {
        AniDbErrorView::UnknownError(code + seq![' '] + reply)
    }
}

impl AniDbError {
    /// Maps a response code to its error kind, per the shared taxonomy.
    pub fn from_code(code: &str, reply: &str) -> (r: AniDbError)
        ensures
            r.deep_view() == code_error(code@, reply@),
    {
        if crate::strutil::str_eq(code, "500") {
            AniDbError::LoginFailed
        } else if crate::strutil::str_eq(code, "501") {
            AniDbError::LoginFirst
        } else if crate::strutil::str_eq(code, "502") {
            AniDbError::AccessDenied
        } else if crate::strutil::str_eq(code, "503") {
            AniDbError::ClientVersionOutdated
        } else if crate::strutil::str_eq(code, "504") {
            AniDbError::ClientBanned(reply.to_owned())
        } else if crate::strutil::str_eq(code, "505") {
            AniDbError::IllegalOutputOrAccessDenied
        } else if crate::strutil::str_eq(code, "506") {
            AniDbError::InvalidSession
        } else if crate::strutil::str_eq(code, "555") {
            AniDbError::Banned(reply.to_owned())
        } else if crate::strutil::str_eq(code, "598") {
            AniDbError::UnknownCommand
        } else if crate::strutil::str_eq(code, "600") {
            AniDbError::InternalServerError
        } else if crate::strutil::str_eq(code, "601") {
            AniDbError::OutOfService
        } else if crate::strutil::str_eq(code, "602") {
            AniDbError::ServerBusy
        } else if crate::strutil::str_eq(code, "604") {
            AniDbError::Timeout
        } else {
            let mut s = code.to_owned();
            s.append(" ");
            s.append(reply);
            proof {
                reveal_strlit(" ");
                assert(s@ =~= code@ + seq![' '] + reply@);
            }
            AniDbError::UnknownError(s)
        }
    }
}

} // verus!
