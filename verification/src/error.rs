//! The error value handed to the user interface: a kind label and a message.
use vstd::prelude::*;

verus! {

/// An error with a short kind label (`"config"`, `"db"`, `"server"`, ...)
/// and a human-readable message.
pub struct AppError {
    pub message: String,
    pub kind: String,
}

/// How an error reads in one line: the kind in brackets, then the message.
pub open spec fn error_line(kind: Seq<char>, message: Seq<char>) -> Seq<char> {
    "["@ + kind + "] "@ + message
}

impl AppError {
    /// An error of the given kind.
    pub fn new(kind: &str, message: &str) -> (e: Self)
        ensures
            e.kind@ == kind@,
            e.message@ == message@,
    {
        AppError { kind: kind.to_owned(), message: message.to_owned() }
    }

    /// A configuration error.
    pub fn config(msg: &str) -> (e: Self)
        ensures
            e.kind@ == "config"@,
            e.message@ == msg@,
    {
        Self::new("config", msg)
    }

    /// A database error.
    pub fn db(msg: &str) -> (e: Self)
        ensures
            e.kind@ == "db"@,
            e.message@ == msg@,
    {
        Self::new("db", msg)
    }

    /// A server error.
    pub fn server(msg: &str) -> (e: Self)
        ensures
            e.kind@ == "server"@,
            e.message@ == msg@,
    {
        Self::new("server", msg)
    }

    /// The error in one line, `[kind] message`.
    pub fn display_text(&self) -> (s: String)
        ensures
            s@ == error_line(self.kind@, self.message@),
    {
        let mut s = "[".to_owned();
        s.append(self.kind.as_str());
        s.append("] ");
        s.append(self.message.as_str());
        s
    }
}

} // verus!
